//! Decisions of the BLE worker and of the direct shutdown path: what each
//! outcome of an adapter call is reported as, which frames go out, and when
//! to try again. The worker thread, the async runtime and the adapter calls
//! themselves are the app's part.

use vstd::prelude::*;
use vstd::string::StringExecFns;

use crate::bridge::{rows_sorted, same_order_per_key, sort_devices, BleMsg, DeviceRow};
use crate::device::{CharacteristicInfo, DeviceInfo, uuid_text};
use crate::error::BleError;
use crate::text::clone_opt;
use crate::protocol::{Channel, Clock, Frame, Power, Query};
use crate::protocol::frame::framed;
use crate::lamp::front::power_payload;

verus! {

/// How often the worker tries to open the adapter before giving up.
pub const ADAPTER_ATTEMPTS: u32 = 12;

/// Pause between two tries to open the adapter.
pub const ADAPTER_RETRY_MS: u64 = 500;

/// Pause between the frames of the handshake.
pub const HANDSHAKE_GAP_MS: u64 = 55;

/// How long a scan listens.
pub const SCAN_MS: u64 = 3000;

/// How long the shutdown path scans before its second connection attempt.
pub const RESCAN_MS: u64 = 2000;

/// How often the direct shutdown path tries to turn the lamp off.
pub const TURN_OFF_ATTEMPTS: u32 = 2;

/// Pause between two such tries.
pub const TURN_OFF_RETRY_MS: u64 = 150;

/// What to do after opening the adapter failed.
#[derive(Debug)]
pub enum AdapterStep {
    /// Wait this long and try again.
    Retry(u64),
    /// Report this and stop the worker.
    GiveUp(BleMsg),
}

/// Opening the adapter failed on try `attempt` (counted from 0) with `err`:
/// the last try reports the failure, the others wait and try again.
pub fn adapter_failed(attempt: u32, err: String) -> (step: AdapterStep)
    requires
        attempt < ADAPTER_ATTEMPTS,
    ensures
        attempt + 1 == ADAPTER_ATTEMPTS ==> step == AdapterStep::GiveUp(BleMsg::AdapterFailed(err)),
        attempt + 1 < ADAPTER_ATTEMPTS ==> step == AdapterStep::Retry(ADAPTER_RETRY_MS),
{
    if attempt + 1 == ADAPTER_ATTEMPTS {
        AdapterStep::GiveUp(BleMsg::AdapterFailed(err))
    } else {
        AdapterStep::Retry(ADAPTER_RETRY_MS)
    }
}

/// The list row of a discovered device.
pub fn device_row(info: &DeviceInfo) -> (row: DeviceRow)
    ensures
        row.name@ == info.spec_display_name(),
        row.addr@ == info.address@,
        row.rssi == info.rssi,
{
    DeviceRow { name: info.display_name(), addr: info.address.clone(), rssi: info.rssi }
}

/// Devices whose properties could be read, in the order found.
pub open spec fn known_devices(found: Seq<Option<DeviceInfo>>) -> Seq<DeviceInfo>
    decreases found.len(),
{
    if found.len() == 0 {
        Seq::empty()
    } else {
        known_devices(found.drop_last()) + match found.last() {
            Some(d) => seq![d],
            None => Seq::empty(),
        }
    }
}

/// Keeps the devices whose properties could be read.
pub fn discovered(found: Vec<Option<DeviceInfo>>) -> (devices: Vec<DeviceInfo>)
    ensures
        devices@ == known_devices(found@),
{
    let mut devices: Vec<DeviceInfo> = Vec::new();
    let mut i: usize = 0;
    while i < found.len()
        invariant
            i <= found@.len(),
            devices@ == known_devices(found@.take(i as int)),
        decreases found@.len() - i,
    {
        assert(found@.take(i + 1).drop_last() =~= found@.take(i as int));
        match &found[i] {
            Some(d) => devices.push(
                DeviceInfo { address: d.address.clone(), name: clone_opt(&d.name), rssi: d.rssi },
            ),
            None => {},
        }
        i = i + 1;
    }
    assert(found@.take(found@.len() as int) =~= found@);
    devices
}

/// `row` lists `device`.
pub open spec fn row_of(row: DeviceRow, device: DeviceInfo) -> bool {
    &&& row.name@ == device.spec_display_name()
    &&& row.addr@ == device.address@
    &&& row.rssi == device.rssi
}

/// `rows` are the rows of `devices` in some order, rows with equal sort
/// keys in the order of their devices.
pub open spec fn rows_listing(rows: Seq<DeviceRow>, devices: Seq<DeviceInfo>) -> bool {
    exists|listed: Seq<DeviceRow>|
        #![trigger listed.to_multiset()]
        {
            &&& listed.len() == devices.len()
            &&& forall|i: int| 0 <= i < listed.len() ==> row_of(#[trigger] listed[i], devices[i])
            &&& rows.to_multiset() == listed.to_multiset()
            &&& same_order_per_key(rows, listed)
        }
}

/// The list rows of the devices, in the same order.
pub fn device_rows(devices: &Vec<DeviceInfo>) -> (rows: Vec<DeviceRow>)
    ensures
        rows@.len() == devices@.len(),
        forall|i: int| 0 <= i < rows@.len() ==> row_of(#[trigger] rows@[i], devices@[i]),
{
    let mut rows: Vec<DeviceRow> = Vec::new();
    let mut i: usize = 0;
    while i < devices.len()
        invariant
            i <= devices@.len(),
            rows@.len() == i,
            forall|k: int| 0 <= k < i ==> row_of(#[trigger] rows@[k], devices@[k]),
        decreases devices@.len() - i,
    {
        rows.push(device_row(&devices[i]));
        i = i + 1;
    }
    rows
}

/// What the worker reports once a scan ended: the rows of the devices found,
/// in list order, or the error; then that scanning stopped.
pub fn scan_reply(outcome: Result<Vec<DeviceInfo>, String>) -> (msgs: Vec<BleMsg>)
    ensures
        msgs@.len() == 2,
        msgs@[1] == BleMsg::Scanning(false),
        match outcome {
            Ok(devices) => msgs@[0] matches BleMsg::Devices(rows) && rows_sorted(rows@)
                && rows_listing(rows@, devices@),
            Err(e) => msgs@[0] == BleMsg::Error(e),
        },
{
    let mut msgs: Vec<BleMsg> = Vec::new();
    match outcome {
        Ok(devices) => {
            let mut rows = device_rows(&devices);
            let ghost listed = rows@;
            sort_devices(&mut rows);
            msgs.push(BleMsg::Devices(rows));
        },
        Err(e) => msgs.push(BleMsg::Error(e)),
    }
    msgs.push(BleMsg::Scanning(false));
    msgs
}

/// How connecting to an address went.
#[derive(Debug)]
pub enum ConnectOutcome {
    /// The address is not a Bluetooth address.
    BadAddress,
    /// Connecting failed; the error's text.
    Failed(String),
    /// Connected, but the lamp's characteristic is missing; the error's text.
    NoCharacteristic(String),
    /// Connected to this device and found the characteristic.
    Ready(DeviceInfo),
}

/// What the worker reports after trying to connect to `addr`, and whether
/// it has to drop the link again first (connected without the lamp's
/// characteristic).
pub fn connect_reply(addr: &str, outcome: ConnectOutcome) -> (r: (bool, BleMsg))
    ensures
        r.0 == (outcome is NoCharacteristic),
        match outcome {
            ConnectOutcome::BadAddress => r.1 matches BleMsg::Error(m) && m@ == "地址无效: "@ + addr@,
            ConnectOutcome::Failed(e) => r.1 == BleMsg::Error(e),
            ConnectOutcome::NoCharacteristic(e) => r.1 matches BleMsg::Error(m) && m@
                == "已连接但未找到灯控特征值: "@ + e@,
            ConnectOutcome::Ready(info) => r.1 matches BleMsg::Connected { name, addr: a } && name@
                == info.spec_display_name() && a@ == info.address@,
        },
{
    match outcome {
        ConnectOutcome::BadAddress => {
            let mut m = String::from_str("地址无效: ");
            m.append(addr);
            (false, BleMsg::Error(m))
        },
        ConnectOutcome::Failed(e) => (false, BleMsg::Error(e)),
        ConnectOutcome::NoCharacteristic(e) => {
            let mut m = String::from_str("已连接但未找到灯控特征值: ");
            m.append(e.as_str());
            (true, BleMsg::Error(m))
        },
        ConnectOutcome::Ready(info) => {
            let name = info.display_name();
            (false, BleMsg::Connected { name, addr: info.address })
        },
    }
}

/// Whether a quiet connection (on the shutdown path, reporting nothing)
/// came up, and whether the link has to be dropped again.
pub fn quiet_connect_result(outcome: &ConnectOutcome) -> (r: (bool, bool))
    ensures
        r.0 == (*outcome is Ready),
        r.1 == (*outcome is NoCharacteristic),
{
    match outcome {
        ConnectOutcome::Ready(_) => (true, false),
        ConnectOutcome::NoCharacteristic(_) => (false, true),
        _ => (false, false),
    }
}

/// What the worker reports after dropping the link.
pub fn disconnect_reply(result: Result<(), String>) -> (m: BleMsg)
    ensures
        match result {
            Ok(()) => m == BleMsg::Disconnected,
            Err(e) => m == BleMsg::Error(e),
        },
{
    match result {
        Ok(()) => BleMsg::Disconnected,
        Err(e) => BleMsg::Error(e),
    }
}

/// What the worker reports after writing `frame`.
pub fn write_reply(frame: Frame, result: Result<(), String>) -> (m: BleMsg)
    ensures
        match result {
            Ok(()) => m == BleMsg::Written(frame),
            Err(e) => m == BleMsg::Error(e),
        },
{
    match result {
        Ok(()) => BleMsg::Written(frame),
        Err(e) => BleMsg::Error(e),
    }
}

/// The handshake the lamp's own app sends after connecting: the query
/// twice, then the clock twice, `HANDSHAKE_GAP_MS` apart.
pub fn handshake_frames(clock: Clock) -> (frames: [Frame; 4])
    ensures
        frames[0]@ == framed(Query.payload()),
        frames[1]@ == framed(Query.payload()),
        frames[2]@ == framed(clock.payload()),
        frames[3]@ == framed(clock.payload()),
{
    let query = Query.frame();
    let time = clock.frame();
    [query, query, time, time]
}

/// Both lights off: the front power-off frame, then the rear one.
pub fn power_off_frames() -> (frames: [Frame; 2])
    ensures
        frames[0]@ == framed(power_payload(Channel::Front, false)),
        frames[1]@ == framed(power_payload(Channel::Rear, false)),
{
    [Power::off(Channel::Front).frame(), Power::off(Channel::Rear).frame()]
}

/// The next step of the worker's shutdown turn-off.
#[derive(Debug)]
pub enum OffStep {
    /// Write `power_off_frames`.
    WriteOffs,
    /// Connect quietly to this address.
    Connect(String),
    /// Scan for `RESCAN_MS`, then connect quietly again.
    ScanThenConnect,
    /// Give up.
    Stop,
}

/// Start of the worker's shutdown turn-off: write at once when connected,
/// otherwise connect to the address, if there is one.
pub fn shutdown_off_start(connected: bool, addr: Option<String>) -> (step: OffStep)
    ensures
        connected ==> step == OffStep::WriteOffs,
        !connected ==> match addr {
            Some(a) => step == OffStep::Connect(a),
            None => step == OffStep::Stop,
        },
{
    if connected {
        return OffStep::WriteOffs;
    }
    match addr {
        Some(a) => OffStep::Connect(a),
        None => OffStep::Stop,
    }
}

/// After a quiet connection attempt: write when it came up; after a failed
/// first attempt scan and try once more; after a failed second one give up.
pub fn shutdown_off_after_connect(first_attempt: bool, came_up: bool) -> (step: OffStep)
    ensures
        came_up ==> step == OffStep::WriteOffs,
        !came_up && first_attempt ==> step == OffStep::ScanThenConnect,
        !came_up && !first_attempt ==> step == OffStep::Stop,
{
    if came_up {
        OffStep::WriteOffs
    } else if first_attempt {
        OffStep::ScanThenConnect
    } else {
        OffStep::Stop
    }
}

/// After the direct shutdown path failed on try `attempt` (from 0): how long
/// to wait before the next try, or `None` when that was the last.
pub fn turn_off_retry(attempt: u32) -> (wait: Option<u64>)
    requires
        attempt < TURN_OFF_ATTEMPTS,
    ensures
        attempt + 1 < TURN_OFF_ATTEMPTS ==> wait == Some(TURN_OFF_RETRY_MS),
        attempt + 1 >= TURN_OFF_ATTEMPTS ==> wait is None,
{
    if attempt + 1 < TURN_OFF_ATTEMPTS {
        Some(TURN_OFF_RETRY_MS)
    } else {
        None
    }
}

/// Which device to connect to: the first found with the address; refused
/// while another device is connected.
pub fn pick_peripheral(already_connected: bool, devices: &Vec<DeviceInfo>, addr: &str) -> (r: Result<
    usize,
    BleError,
>)
    ensures
        already_connected ==> r == Err::<usize, BleError>(BleError::AlreadyConnected),
        !already_connected ==> match r {
            Ok(i) => 0 <= i < devices@.len() && devices@[i as int].address@ == addr@ && forall|j: int|
                0 <= j < i ==> (#[trigger] devices@[j]).address@ != addr@,
            Err(e) => (e matches BleError::PeripheralNotFound(m) && m@ == addr@) && forall|j: int|
                0 <= j < devices@.len() ==> (#[trigger] devices@[j]).address@ != addr@,
        },
{
    if already_connected {
        return Err(BleError::AlreadyConnected);
    }
    let wanted = String::from_str(addr);
    let mut i: usize = 0;
    while i < devices.len()
        invariant
            i <= devices@.len(),
            !already_connected,
            wanted@ == addr@,
            forall|j: int| 0 <= j < i ==> (#[trigger] devices@[j]).address@ != addr@,
        decreases devices@.len() - i,
    {
        if devices[i].address == wanted {
            return Ok(i);
        }
        i = i + 1;
    }
    Err(BleError::PeripheralNotFound(wanted))
}

/// The first characteristic with the UUID, or the error naming it.
pub fn find_characteristic(chars: &Vec<CharacteristicInfo>, uuid: u128) -> (r: Result<
    CharacteristicInfo,
    BleError,
>)
    ensures
        match r {
            Ok(c) => exists|i: int|
                0 <= i < chars@.len() && chars@[i] == c && c.uuid == uuid && forall|j: int|
                    0 <= j < i ==> (#[trigger] chars@[j]).uuid != uuid,
            Err(e) => (e matches BleError::CharacteristicNotFound(m) && m@ == uuid_text(uuid))
                && forall|j: int| 0 <= j < chars@.len() ==> (#[trigger] chars@[j]).uuid != uuid,
        },
{
    let mut i: usize = 0;
    while i < chars.len()
        invariant
            i <= chars@.len(),
            forall|j: int| 0 <= j < i ==> (#[trigger] chars@[j]).uuid != uuid,
        decreases chars@.len() - i,
    {
        if chars[i].uuid == uuid {
            return Ok(chars[i]);
        }
        i = i + 1;
    }
    Err(BleError::CharacteristicNotFound(crate::device::uuid_string(uuid)))
}

} // verus!

//! The lamp service: connection state, pending writes, and what each user
//! action or worker message sends to the lamp and saves. It decides; the app
//! runs the loop, talks to the BLE worker, saves files and shows the UI.
//! Times are milliseconds on the app's monotonic clock.

use vstd::prelude::*;
use vstd::string::{StrSliceExecFns, StringExecFns};

use crate::bridge::{rows_sorted, same_order_per_key, sort_devices, BleCmd, BleMsg, DeviceRow};
use crate::lamp::{Front, Rear, RearLook, Scene};
use crate::lamp::front::power_payload;
use crate::pending::{Pending, Slot, slot_at, slot_index, none_marked, first_marked};
use crate::protocol::{Brightness, Cct, Channel, Effect, Frame, Level, Rgb, Speed};
use crate::protocol::cct::cct_of;
use crate::protocol::frame::framed;
use crate::session::{ClosePreference, FrontSnap, RearSnap, Session, restored_front, restored_rear, snap_of_rear};
use crate::text::{clone_opt, decimal_text, hex_text, join_text, push_decimal};

verus! {

/// Least time between two frames written from the pending queue.
pub const WRITE_GAP_MS: u64 = 55;

/// Something the app has to carry out for the service.
#[derive(Debug)]
pub enum ServiceAction {
    /// Hand a command to the BLE worker.
    Send(BleCmd),
    /// Save this session and pass its address, preference and whether a light
    /// is on to the shutdown watcher.
    Persist(Session),
    /// Pass the initial state to the shutdown watcher (without saving).
    ShutdownSnapshot { addr: Option<String>, off_on_shutdown: bool, lamp_on: bool },
    /// Write or remove the autostart entry.
    SyncAutostart(bool),
    /// Quit the application.
    Quit,
}

/// Emitted when the service changed and views should redraw.
#[derive(Clone, Copy, Debug, PartialEq, Eq, Structural)]
pub enum ServiceEvent {
    Changed,
}

/// Frame bytes of the writes among `actions`, in order.
pub open spec fn writes(actions: Seq<ServiceAction>) -> Seq<Seq<u8>>
    decreases actions.len(),
{
    if actions.len() == 0 {
        Seq::empty()
    } else {
        writes(actions.drop_last()) + match actions.last() {
            ServiceAction::Send(BleCmd::Write(f)) => seq![f@],
            _ => Seq::empty(),
        }
    }
}

/// Every action is a frame write.
pub open spec fn only_writes(actions: Seq<ServiceAction>) -> bool {
    forall|i: int| 0 <= i < actions.len() ==> (#[trigger] actions[i] matches ServiceAction::Send(BleCmd::Write(_)))
}

/// `after` is `before` followed by writes of exactly the frames `frames`.
pub open spec fn appended_writes(
    before: Seq<ServiceAction>,
    after: Seq<ServiceAction>,
    frames: Seq<Seq<u8>>,
) -> bool {
    &&& after.len() == before.len() + frames.len()
    &&& after.subrange(0, before.len() as int) == before
    &&& only_writes(after.skip(before.len() as int))
    &&& writes(after.skip(before.len() as int)) == frames
}

proof fn lemma_appended_nothing(before: Seq<ServiceAction>)
    ensures
        appended_writes(before, before, Seq::empty()),
{
    assert(before.subrange(0, before.len() as int) =~= before);
    assert(before.skip(before.len() as int) =~= Seq::<ServiceAction>::empty());
}

proof fn lemma_appended_push(
    before: Seq<ServiceAction>,
    after: Seq<ServiceAction>,
    frames: Seq<Seq<u8>>,
    f: Frame,
)
    requires
        appended_writes(before, after, frames),
    ensures
        appended_writes(
            before,
            after.push(ServiceAction::Send(BleCmd::Write(f))),
            frames.push(f@),
        ),
{
    let a2 = after.push(ServiceAction::Send(BleCmd::Write(f)));
    let tail = after.skip(before.len() as int);
    assert(a2.skip(before.len() as int) =~= tail.push(ServiceAction::Send(BleCmd::Write(f))));
    assert(a2.subrange(0, before.len() as int) =~= after.subrange(0, before.len() as int));
    let t2 = tail.push(ServiceAction::Send(BleCmd::Write(f)));
    assert(t2.drop_last() =~= tail);
    assert(t2.last() == ServiceAction::Send(BleCmd::Write(f)));
    assert(writes(t2) == writes(tail) + seq![f@]);
    assert(writes(t2) =~= frames.push(f@));
    assert forall|i: int| 0 <= i < t2.len() implies (#[trigger] t2[i] matches ServiceAction::Send(BleCmd::Write(_))) by {
        if i < tail.len() {
            assert(t2[i] == tail[i]);
        }
    }
}

/// Actions, last write time and last frame text that writing `frames` on top
/// of `before` leaves (nothing is written when `before` could not write).
pub open spec fn wrote_parts(
    before: &LampService,
    actions: Seq<ServiceAction>,
    last_write: Option<u64>,
    last_frame: Seq<char>,
    frames: Seq<Seq<u8>>,
    now: u64,
) -> bool {
    let sent = if before.can_write() {
        frames
    } else {
        Seq::empty()
    };
    &&& appended_writes(before.actions@, actions, sent)
    &&& last_write == (if sent.len() > 0 {
        Some(now)
    } else {
        before.last_write
    })
    &&& sent.len() > 0 ==> last_frame == hex_text(sent.last())
    &&& sent.len() == 0 ==> last_frame == before.last_frame@
}

/// `after` wrote the frames `frames` on top of `before` (nothing when
/// `before` could not write), and recorded the last one.
pub open spec fn wrote(before: &LampService, after: &LampService, frames: Seq<Seq<u8>>, now: u64) -> bool {
    wrote_parts(before, after.actions@, after.last_write, after.last_frame@, frames, now)
}

/// Like `wrote`, followed by saving the final state.
pub open spec fn wrote_then_saved(
    before: &LampService,
    after: &LampService,
    frames: Seq<Seq<u8>>,
    now: u64,
) -> bool {
    &&& after.actions@.len() > 0
    &&& after.actions@.last() == ServiceAction::Persist(after.spec_session())
    &&& wrote_parts(before, after.actions@.drop_last(), after.last_write, after.last_frame@, frames, now)
}

proof fn lemma_wrote_then(
    a: &LampService,
    b: &LampService,
    actions: Seq<ServiceAction>,
    last_write: Option<u64>,
    last_frame: Seq<char>,
    f1: Seq<Seq<u8>>,
    f2: Seq<Seq<u8>>,
    now: u64,
)
    requires
        wrote(a, b, f1, now),
        wrote_parts(b, actions, last_write, last_frame, f2, now),
        a.can_write() == b.can_write(),
    ensures
        wrote_parts(a, actions, last_write, last_frame, f1 + f2, now),
{
    if a.can_write() {
        lemma_appended_concat(a.actions@, b.actions@, actions, f1, f2);
        if f2.len() > 0 {
            assert((f1 + f2).last() == f2.last());
        } else {
            assert(f1 + f2 =~= f1);
        }
    } else {
        lemma_appended_concat(a.actions@, b.actions@, actions, Seq::empty(), Seq::empty());
        assert(Seq::<Seq<u8>>::empty() + Seq::<Seq<u8>>::empty() =~= Seq::<Seq<u8>>::empty());
    }
}

/// Enough time has passed since the last write for the pending queue to write again.
pub open spec fn gap_ok(last_write: Option<u64>, now: u64) -> bool {
    match last_write {
        None => true,
        Some(t) => now >= t && now - t >= 55,
    }
}

proof fn lemma_writes_concat(a: Seq<ServiceAction>, b: Seq<ServiceAction>)
    ensures
        writes(a + b) == writes(a) + writes(b),
    decreases b.len(),
{
    if b.len() == 0 {
        assert(a + b =~= a);
        assert(writes(a) + writes(b) =~= writes(a));
    } else {
        lemma_writes_concat(a, b.drop_last());
        assert((a + b).drop_last() =~= a + b.drop_last());
        assert((a + b).last() == b.last());
        assert(writes(a) + writes(b) =~= writes(a) + writes(b.drop_last()) + match b.last() {
            ServiceAction::Send(BleCmd::Write(f)) => seq![f@],
            _ => Seq::empty(),
        });
    }
}

proof fn lemma_appended_concat(
    a: Seq<ServiceAction>,
    b: Seq<ServiceAction>,
    c: Seq<ServiceAction>,
    f1: Seq<Seq<u8>>,
    f2: Seq<Seq<u8>>,
)
    requires
        appended_writes(a, b, f1),
        appended_writes(b, c, f2),
    ensures
        appended_writes(a, c, f1 + f2),
{
    let t1 = b.skip(a.len() as int);
    let t2 = c.skip(b.len() as int);
    assert(c.skip(a.len() as int) =~= t1 + t2);
    assert(c.subrange(0, a.len() as int) =~= b.subrange(0, a.len() as int));
    lemma_writes_concat(t1, t2);
    assert forall|i: int| 0 <= i < (t1 + t2).len() implies (#[trigger] (t1 + t2)[i] matches ServiceAction::Send(BleCmd::Write(_))) by {
        if i < t1.len() {
            assert((t1 + t2)[i] == t1[i]);
        } else {
            assert((t1 + t2)[i] == t2[i - t1.len()]);
        }
    }
}

/// The lamp service: connection state, the remembered lights, pending
/// writes, preferences, and the actions the app still has to carry out.
pub struct LampService {
    pub ready: bool,
    pub scanning: bool,
    pub devices: Vec<DeviceRow>,
    pub connected_name: Option<String>,
    pub connected_addr: Option<String>,
    pub status: String,
    pub last_frame: String,
    pub connecting: bool,
    pub remembered_addr: Option<String>,
    /// When the last frame was written; `None` when no write needs waiting for.
    pub last_write: Option<u64>,
    pub pending: Pending,
    pub retry_at: Option<u64>,
    pub parked: bool,
    pub close_preference: ClosePreference,
    pub restore_after_shutdown: bool,
    pub shutting_down: bool,
    pub shutdown_quit_at: Option<u64>,
    pub autostart: bool,
    pub off_on_shutdown: bool,
    pub front: Front,
    pub rear: Rear,
    /// What the app still has to carry out, oldest first.
    pub actions: Vec<ServiceAction>,
}

/// The address if it is not empty.
pub open spec fn non_empty(addr: Option<String>) -> Option<String> {
    match addr {
        Some(a) => if a@.len() > 0 {
            Some(a)
        } else {
            None
        },
        None => None,
    }
}

fn non_empty_addr(addr: &Option<String>) -> (r: Option<String>)
    ensures
        r == non_empty(*addr),
{
    match addr {
        Some(a) => if a.as_str().unicode_len() > 0 {
            Some(a.clone())
        } else {
            None
        },
        None => None,
    }
}

impl LampService {
    /// Frames can go out: connected and not shutting down.
    pub open spec fn can_write(&self) -> bool {
        !self.shutting_down && self.connected_addr is Some
    }

    /// The session `persist` saves.
    pub open spec fn spec_session(&self) -> Session {
        Session {
            last_addr: self.remembered_addr,
            last_name: self.connected_name,
            close_preference: self.close_preference,
            restore_after_shutdown: self.restore_after_shutdown,
            autostart: self.autostart,
            off_on_shutdown: self.off_on_shutdown,
            front: FrontSnap { on: self.front.on, level: self.front.level@, kelvin: self.front.cct@ },
            rear: snap_of_rear(self.rear),
        }
    }

    /// Everything but the queued actions, the status line and the last frame.
    pub open spec fn same_state(&self, other: &LampService) -> bool {
        &&& self.same_core(other)
        &&& self.last_write == other.last_write
    }

    /// Everything but the queued actions, the status line, the last frame and
    /// the time of the last write.
    pub open spec fn same_core(&self, other: &LampService) -> bool {
        &&& self.ready == other.ready
        &&& self.scanning == other.scanning
        &&& self.devices@ == other.devices@
        &&& self.connected_name == other.connected_name
        &&& self.connected_addr == other.connected_addr
        &&& self.connecting == other.connecting
        &&& self.remembered_addr == other.remembered_addr
        &&& self.pending@ == other.pending@
        &&& self.retry_at == other.retry_at
        &&& self.parked == other.parked
        &&& self.close_preference == other.close_preference
        &&& self.restore_after_shutdown == other.restore_after_shutdown
        &&& self.shutting_down == other.shutting_down
        &&& self.shutdown_quit_at == other.shutdown_quit_at
        &&& self.autostart == other.autostart
        &&& self.off_on_shutdown == other.off_on_shutdown
        &&& self.front == other.front
        &&& self.rear == other.rear
    }

    /// What `new` starts from `session`.
    pub open spec fn started_from(session: &Session, s: &LampService) -> bool {
                let remembered = non_empty(session.last_addr);
                let reconnecting = remembered is Some;
                &&& !s.ready
                &&& s.scanning == !reconnecting
                &&& s.devices@.len() == 0
                &&& s.connected_name == session.last_name
                &&& s.connected_addr is None
                &&& s.status@ == (if reconnecting { "正在连接…"@ } else { "启动中…"@ })
                &&& s.last_frame@ == "—"@
                &&& s.connecting == reconnecting
                &&& s.remembered_addr == remembered
                &&& s.last_write is None
                &&& none_marked(s.pending@)
                &&& s.retry_at is None
                &&& !s.parked
                &&& s.close_preference == session.close_preference
                &&& s.restore_after_shutdown == session.restore_after_shutdown
                &&& !s.shutting_down
                &&& s.shutdown_quit_at is None
                &&& s.autostart == session.autostart
                &&& s.off_on_shutdown == session.off_on_shutdown
                &&& s.front == restored_front(session.front)
                &&& s.rear == restored_rear(session.rear)
                &&& s.actions@.len() == 1 + (if reconnecting { 0int } else { 1 }) + (if session.autostart { 1int } else { 0 })
                &&& s.actions@[0] == ServiceAction::ShutdownSnapshot {
                    addr: remembered,
                    off_on_shutdown: session.off_on_shutdown,
                    lamp_on: session.front.on || session.rear.on,
                }
                &&& !reconnecting ==> s.actions@[1] == ServiceAction::Send(BleCmd::Scan)
                &&& session.autostart ==> s.actions@.last() == ServiceAction::SyncAutostart(true)
    }

    /// Service for a loaded session. It reconnects to the remembered lamp if
    /// there is one (the app sends the reconnect once the worker is ready),
    /// otherwise it starts a scan.
    pub fn new(session: &Session) -> (s: LampService)
        ensures
            Self::started_from(session, &s),
    {
        let front = session.front_lamp();
        let rear = session.rear_lamp();
        let remembered = non_empty_addr(&session.last_addr);
        let reconnecting = remembered.is_some();
        let mut actions: Vec<ServiceAction> = Vec::new();
        actions.push(
            ServiceAction::ShutdownSnapshot {
                addr: clone_opt(&remembered),
                off_on_shutdown: session.off_on_shutdown,
                lamp_on: front.on || rear.on,
            },
        );
        if !reconnecting {
            actions.push(ServiceAction::Send(BleCmd::Scan));
        }
        if session.autostart {
            actions.push(ServiceAction::SyncAutostart(true));
        }
        LampService {
            ready: false,
            scanning: !reconnecting,
            devices: Vec::new(),
            connected_name: clone_opt(&session.last_name),
            connected_addr: None,
            status: if reconnecting {
                String::from_str("正在连接…")
            } else {
                String::from_str("启动中…")
            },
            last_frame: String::from_str("—"),
            connecting: reconnecting,
            remembered_addr: remembered,
            last_write: None,
            pending: Pending::default(),
            retry_at: None,
            parked: false,
            close_preference: session.close_preference,
            restore_after_shutdown: session.restore_after_shutdown,
            shutting_down: false,
            shutdown_quit_at: None,
            autostart: session.autostart,
            off_on_shutdown: session.off_on_shutdown,
            front,
            rear,
            actions,
        }
    }

    /// How long the app waits before the next tick: slower while parked in
    /// the background, unless shutting down.
    pub fn poll_interval(&self) -> (ms: u64)
        ensures
            ms == (if self.parked && !self.shutting_down { 750u64 } else { 40u64 }),
    {
        if self.shutting_down {
            40
        } else if self.parked {
            750
        } else {
            40
        }
    }

    /// Whether a lamp is connected.
    pub fn connected(&self) -> (b: bool)
        ensures
            b == self.connected_addr is Some,
    {
        self.connected_addr.is_some()
    }

    /// A lamp is remembered (non-empty address) or connected.
    pub fn has_known_device(&self) -> (b: bool)
        ensures
            b == ((self.remembered_addr matches Some(a) && a@.len() > 0) || self.connected_addr is Some),
    {
        let remembered = match &self.remembered_addr {
            Some(a) => a.as_str().unicode_len() > 0,
            None => false,
        };
        remembered || self.connected()
    }

    /// Queues a command for the BLE worker.
    pub fn send(&mut self, cmd: BleCmd)
        ensures
            final(self).same_state(&*old(self)),
            final(self).status == old(self).status,
            final(self).last_frame@ == old(self).last_frame@,
            final(self).actions@ == old(self).actions@.push(ServiceAction::Send(cmd)),
    {
        self.actions.push(ServiceAction::Send(cmd));
    }

    /// The session this state saves.
    pub fn session(&self) -> (s: Session)
        ensures
            s == self.spec_session(),
    {
        Session {
            last_addr: clone_opt(&self.remembered_addr),
            last_name: clone_opt(&self.connected_name),
            close_preference: self.close_preference,
            restore_after_shutdown: self.restore_after_shutdown,
            autostart: self.autostart,
            off_on_shutdown: self.off_on_shutdown,
            front: FrontSnap::from_lamp(&self.front),
            rear: RearSnap::from_lamp(&self.rear),
        }
    }

    /// Saves the current state (and hands it to the shutdown watcher).
    pub fn persist(&mut self)
        ensures
            final(self).same_state(&*old(self)),
            final(self).status == old(self).status,
            final(self).last_frame@ == old(self).last_frame@,
            final(self).actions@ == old(self).actions@.push(ServiceAction::Persist(old(self).spec_session())),
    {
        let s = self.session();
        self.actions.push(ServiceAction::Persist(s));
    }

    /// Writes a frame, unless shutting down or not connected.
    pub fn write(&mut self, frame: Frame, now: u64)
        ensures
            old(self).can_write() ==> {
                &&& final(self).actions@ == old(self).actions@.push(ServiceAction::Send(BleCmd::Write(frame)))
                &&& final(self).last_frame@ == hex_text(frame@)
                &&& final(self).last_write == Some(now)
            },
            !old(self).can_write() ==> {
                &&& final(self).actions@ == old(self).actions@
                &&& final(self).last_frame@ == old(self).last_frame@
                &&& final(self).last_write == old(self).last_write
            },
            final(self).status == old(self).status,
            final(self).same_core(&*old(self)),
    {
        if self.shutting_down || !self.connected() {
            return;
        }
        self.last_frame = frame.hex();
        self.last_write = Some(now);
        self.actions.push(ServiceAction::Send(BleCmd::Write(frame)));
    }

    /// Frame bytes of the write that brings `slot` up to date.
    pub open spec fn encode_bytes(&self, slot: Slot) -> Seq<u8> {
        match slot {
            Slot::FrontLevel => self.front.brightness_bytes(),
            Slot::FrontCct => self.front.cct_bytes(),
            Slot::RearLevel => self.rear.brightness_bytes(),
            Slot::RearLook => self.rear.look_bytes(),
            Slot::RearSpeed => self.rear.speed_bytes(),
        }
    }

    /// The frame that brings `slot` up to date.
    pub fn encode(&self, slot: Slot) -> (f: Frame)
        ensures
            f@ == self.encode_bytes(slot),
    {
        match slot {
            Slot::FrontLevel => self.front.brightness_frame(),
            Slot::FrontCct => self.front.cct_frame(),
            Slot::RearLevel => self.rear.brightness_frame(),
            Slot::RearLook => self.rear.look_frame(),
            Slot::RearSpeed => self.rear.speed_frame(),
        }
    }

    /// Writes the frames in order (nothing when unable to write).
    fn write_all(&mut self, frames: Vec<Frame>, now: u64)
        ensures
            wrote(&*old(self), &*final(self), crate::lamp::front::frame_views(frames@), now),
            final(self).status == old(self).status,
            final(self).same_core(&*old(self)),
    {
        let ghost views = crate::lamp::front::frame_views(frames@);
        proof {
            lemma_appended_nothing(self.actions@);
            assert(views.take(0) =~= Seq::<Seq<u8>>::empty());
        }
        let mut i: usize = 0;
        while i < frames.len()
            invariant
                i <= frames@.len(),
                views == crate::lamp::front::frame_views(frames@),
                self.status == old(self).status,
                self.same_core(&*old(self)),
                wrote(&*old(self), &*self, views.take(i as int), now),
            decreases frames@.len() - i,
        {
            let f = frames[i];
            let ghost before = self.actions@;
            self.write(f, now);
            proof {
                if old(self).can_write() {
                    lemma_appended_push(old(self).actions@, before, views.take(i as int), f);
                    assert(views.take(i as int).push(f@) =~= views.take(i + 1));
                }
            }
            i = i + 1;
        }
        proof {
            assert(views.take(frames@.len() as int) =~= views);
        }
    }

    /// Sends the front power-on frame if the front is on and not yet powered.
    fn arm_front(&mut self, now: u64)
        ensures
            wrote(
                &*old(self),
                &*final(self),
                if old(self).front.on && !old(self).front.lit {
                    seq![old(self).front.power_bytes()]
                } else {
                    Seq::empty()
                },
                now,
            ),
            final(self).front == (Front { lit: old(self).front.on, ..old(self).front }),
            final(self).status == old(self).status,
            final(self).same_core(&LampService { front: final(self).front, ..*old(self) }),
    {
        let mut frames: Vec<Frame> = Vec::new();
        if let Some(frame) = self.front.arm() {
            frames.push(frame);
        }
        proof {
            assert(crate::lamp::front::frame_views(frames@) =~= (if old(self).front.on && !old(self).front.lit {
                seq![old(self).front.power_bytes()]
            } else {
                Seq::empty()
            }));
        }
        self.write_all(frames, now);
    }

    /// Sends the rear power-on frame if the rear is on and not yet powered.
    fn arm_rear(&mut self, now: u64)
        ensures
            wrote(
                &*old(self),
                &*final(self),
                if old(self).rear.on && !old(self).rear.lit {
                    seq![old(self).rear.power_bytes()]
                } else {
                    Seq::empty()
                },
                now,
            ),
            final(self).rear == (Rear { lit: old(self).rear.on, ..old(self).rear }),
            final(self).status == old(self).status,
            final(self).same_core(&LampService { rear: final(self).rear, ..*old(self) }),
    {
        let mut frames: Vec<Frame> = Vec::new();
        if let Some(frame) = self.rear.arm() {
            frames.push(frame);
        }
        proof {
            assert(crate::lamp::front::frame_views(frames@) =~= (if old(self).rear.on && !old(self).rear.lit {
                seq![old(self).rear.power_bytes()]
            } else {
                Seq::empty()
            }));
        }
        self.write_all(frames, now);
    }

    /// Brings the real front lamp to the remembered state.
    fn apply_front(&mut self, now: u64)
        ensures
            wrote(&*old(self), &*final(self), old(self).front.spec_wake(), now),
            final(self).front == (Front { lit: old(self).front.on, ..old(self).front }),
            final(self).status == old(self).status,
            final(self).same_core(&LampService { front: final(self).front, ..*old(self) }),
    {
        let frames = self.front.wake_frames();
        self.write_all(frames, now);
    }

    /// Brings the real rear lamp to the remembered state.
    fn apply_rear(&mut self, now: u64)
        ensures
            wrote(&*old(self), &*final(self), old(self).rear.spec_wake(), now),
            final(self).rear == (Rear { lit: old(self).rear.on, ..old(self).rear }),
            final(self).status == old(self).status,
            final(self).same_core(&LampService { rear: final(self).rear, ..*old(self) }),
    {
        let frames = self.rear.wake_frames();
        self.write_all(frames, now);
    }

    /// `flush_pending` would write (or at least take a slot) from this state.
    pub open spec fn flush_go(&self, now: u64) -> bool {
        !none_marked(self.pending@) && self.connected_addr is Some && gap_ok(self.last_write, now)
    }

    /// What `flush_pending` does from `before` to `after`, returning `b`.
    pub open spec fn flush_step(before: &LampService, after: &LampService, now: u64, b: bool) -> bool {
        &&& b == before.flush_go(now)
        &&& b ==> {
            let i = first_marked(before.pending@);
            &&& after.pending@ == before.pending@.update(i, false)
            &&& wrote(before, after, seq![before.encode_bytes(slot_at(i))], now) || (
            before.shutting_down && after.actions@ == before.actions@ && after.last_frame@
                == before.last_frame@)
            &&& after.last_write == Some(now)
        }
        &&& !b ==> {
            &&& after.pending@ == before.pending@
            &&& after.actions@ == before.actions@
            &&& after.last_write == before.last_write
            &&& after.last_frame@ == before.last_frame@
        }
        &&& after.status == before.status
        &&& after.same_core(&LampService { pending: after.pending, ..*before })
    }

    /// Writes the first pending setting if connected and the write gap has
    /// passed. Returns whether a setting was taken.
    pub fn flush_pending(&mut self, now: u64) -> (b: bool)
        ensures
            Self::flush_step(&*old(self), &*final(self), now, b),
    {
        let empty = self.pending.is_empty();
        if empty || !self.connected() {
            return false;
        }
        let ready = match self.last_write {
            None => true,
            Some(t) => now >= t && now - t >= WRITE_GAP_MS,
        };
        if !ready {
            return false;
        }
        let slot = match self.pending.take_slot() {
            Some(slot) => slot,
            None => {
                return false;
            },
        };
        let frame = self.encode(slot);
        self.last_write = Some(now);
        let mut frames = Vec::new();
        frames.push(frame);
        proof {
            assert(crate::lamp::front::frame_views(frames@) =~= seq![frame@]);
        }
        self.write_all(frames, now);
        proof {
            if old(self).shutting_down {
                assert(self.actions@.subrange(0, old(self).actions@.len() as int) =~= self.actions@);
            }
        }
        true
    }

    /// What one flush from `before` (with the write gap waived) leaves in
    /// `pending`, `actions`, `last_write` and `last_frame`.
    pub open spec fn flushed_once(
        before: &LampService,
        pending: Seq<bool>,
        actions: Seq<ServiceAction>,
        last_write: Option<u64>,
        last_frame: String,
        now: u64,
    ) -> bool {
        let go = !none_marked(before.pending@) && before.connected_addr is Some;
        let i = first_marked(before.pending@);
        let bytes = before.encode_bytes(slot_at(i));
        &&& go ==> pending == before.pending@.update(i, false) && last_write == Some(now)
        &&& !go ==> pending == before.pending@ && last_write is None
        &&& go && !before.shutting_down ==> appended_writes(before.actions@, actions, seq![bytes])
            && last_frame@ == hex_text(bytes)
        &&& !(go && !before.shutting_down) ==> actions == before.actions@ && last_frame@
            == before.last_frame@
    }

    /// Writes what it can right away (the write gap is waived once), then saves.
    pub fn flush_now(&mut self, now: u64)
        ensures
            final(self).actions@.len() > 0,
            final(self).actions@.last() == ServiceAction::Persist(final(self).spec_session()),
            Self::flushed_once(
                &*old(self),
                final(self).pending@,
                final(self).actions@.drop_last(),
                final(self).last_write,
                final(self).last_frame,
                now,
            ),
            final(self).status == old(self).status,
            final(self).same_core(&LampService { pending: final(self).pending, ..*old(self) }),
    {
        self.last_write = None;
        let ghost mut flushed = false;
        loop
            invariant
                self.status == old(self).status,
                self.same_core(&LampService { pending: self.pending, ..*old(self) }),
                !flushed ==> self.pending@ == old(self).pending@ && self.actions@ == old(
                    self,
                ).actions@ && self.last_write is None && self.last_frame@ == old(self).last_frame@,
                flushed ==> Self::flushed_once(
                    &*old(self),
                    self.pending@,
                    self.actions@,
                    self.last_write,
                    self.last_frame,
                    now,
                ) && self.last_write == Some(now) && !none_marked(old(self).pending@)
                    && old(self).connected_addr is Some,
            ensures
                Self::flushed_once(
                    &*old(self),
                    self.pending@,
                    self.actions@,
                    self.last_write,
                    self.last_frame,
                    now,
                ),
                self.status == old(self).status,
                self.same_core(&LampService { pending: self.pending, ..*old(self) }),
            decreases (if flushed { 0int } else { 1int }),
        {
            if !self.flush_pending(now) {
                break;
            }
            proof {
                flushed = true;
            }
        }
        let ghost mid = self.actions@;
        self.persist();
        assert(self.actions@.drop_last() =~= mid);
    }

    /// The effect of arming the light `slot` belongs to, marking `slot`
    /// and flushing, from `before` to `after`.
    pub open spec fn edited(before: &LampService, after: &LampService, slot: Slot, now: u64) -> bool {
        let front_slot = slot == Slot::FrontLevel || slot == Slot::FrontCct;
        let armed = if front_slot {
            before.front.on && !before.front.lit
        } else {
            before.rear.on && !before.rear.lit
        };
        let arm_bytes = if front_slot {
            before.front.power_bytes()
        } else {
            before.rear.power_bytes()
        };
        let cw = before.can_write();
        let lw1 = if armed && cw {
            Some(now)
        } else {
            before.last_write
        };
        let p1 = before.pending@.update(slot_index(slot), true);
        let go = before.connected_addr is Some && gap_ok(lw1, now);
        let i = first_marked(p1);
        let front2 = if front_slot {
            Front { lit: before.front.on, ..before.front }
        } else {
            before.front
        };
        let rear2 = if front_slot {
            before.rear
        } else {
            Rear { lit: before.rear.on, ..before.rear }
        };
        let frames = (if armed {
            seq![arm_bytes]
        } else {
            Seq::empty()
        }) + (if go && !before.shutting_down {
            seq![after.encode_bytes(slot_at(i))]
        } else {
            Seq::empty()
        });
        let sent = if cw {
            frames
        } else {
            Seq::empty()
        };
        &&& after.front == front2
        &&& after.rear == rear2
        &&& after.pending@ == (if go {
            p1.update(i, false)
        } else {
            p1
        })
        &&& after.last_write == (if go {
            Some(now)
        } else {
            lw1
        })
        &&& appended_writes(before.actions@, after.actions@, sent)
        &&& sent.len() > 0 ==> after.last_frame@ == hex_text(sent.last())
        &&& sent.len() == 0 ==> after.last_frame@ == before.last_frame@
        &&& after.status == before.status
        &&& after.same_core(
            &LampService { front: after.front, rear: after.rear, pending: after.pending, ..*before },
        )
    }

    /// Arms the light `slot` belongs to, marks `slot` and flushes.
    fn edit(&mut self, slot: Slot, now: u64)
        ensures
            Self::edited(&*old(self), &*final(self), slot, now),
    {
        let front_slot = match slot {
            Slot::FrontLevel | Slot::FrontCct => true,
            _ => false,
        };
        if front_slot {
            self.arm_front(now);
        } else {
            self.arm_rear(now);
        }
        let ghost s1 = *self;
        self.pending.mark(slot);
        let ghost s2 = *self;
        self.flush_pending(now);
        proof {
            let cw = old(self).can_write();
            assert(s2.pending@[slot_index(slot)]);
            assert(!none_marked(s2.pending@));
            let armed_frames = if front_slot {
                if old(self).front.on && !old(self).front.lit {
                    seq![old(self).front.power_bytes()]
                } else {
                    Seq::empty()
                }
            } else {
                if old(self).rear.on && !old(self).rear.lit {
                    seq![old(self).rear.power_bytes()]
                } else {
                    Seq::empty()
                }
            };
            let a1 = if cw { armed_frames } else { Seq::empty() };
            let go = s2.flush_go(now);
            let i = first_marked(s2.pending@);
            let a2 = if go && !s2.shutting_down {
                seq![self.encode_bytes(slot_at(i))]
            } else {
                Seq::empty()
            };
            if go && !s2.shutting_down {
                lemma_appended_concat(old(self).actions@, s2.actions@, self.actions@, a1, a2);
            } else {
                lemma_appended_nothing(s2.actions@);
                lemma_appended_concat(old(self).actions@, s2.actions@, self.actions@, a1, Seq::empty());
            }
            assert(a1 + Seq::<Seq<u8>>::empty() =~= a1);
            assert(Seq::<Seq<u8>>::empty() + a2 =~= a2);
            if cw {
                assert(a1 + a2 =~= (if old(self).front.on && !old(self).front.lit && front_slot || old(self).rear.on && !old(self).rear.lit && !front_slot {
                    armed_frames
                } else {
                    Seq::empty()
                }) + a2);
            }
        }
    }

    /// Sets the front brightness (turning it on) and writes it when it can.
    pub fn set_front_level(&mut self, level: Level, now: u64)
        ensures
            Self::edited(
                &LampService { front: Front { level, on: true, ..old(self).front }, ..*old(self) },
                &*final(self),
                Slot::FrontLevel,
                now,
            ),
    {
        self.front.set_level(level);
        self.edit(Slot::FrontLevel, now);
    }

    /// Sets the rear brightness (turning it on) and writes it when it can.
    pub fn set_rear_level(&mut self, level: Level, now: u64)
        ensures
            Self::edited(
                &LampService { rear: Rear { level, on: true, ..old(self).rear }, ..*old(self) },
                &*final(self),
                Slot::RearLevel,
                now,
            ),
    {
        self.rear.set_level(level);
        self.edit(Slot::RearLevel, now);
    }

    /// Sets the colour temperature (clamped to what the lamp takes), turns
    /// the front on and writes it when it can.
    pub fn set_cct(&mut self, kelvin: u16, now: u64)
        ensures
            Self::edited(
                &LampService {
                    front: Front { cct: cct_of(kelvin), on: true, ..old(self).front },
                    ..*old(self)
                },
                &*final(self),
                Slot::FrontCct,
                now,
            ),
    {
        self.front.cct = Cct::from_kelvin(kelvin);
        self.front.on = true;
        self.edit(Slot::FrontCct, now);
    }

    /// Shows a solid colour on the rear (remembering it, turning it on) and
    /// writes it when it can.
    pub fn set_rgb(&mut self, rgb: Rgb, now: u64)
        ensures
            Self::edited(
                &LampService {
                    rear: Rear { solid: rgb, look: RearLook::Solid(rgb), on: true, ..old(self).rear },
                    ..*old(self)
                },
                &*final(self),
                Slot::RearLook,
                now,
            ),
    {
        self.rear.set_rgb(rgb);
        self.edit(Slot::RearLook, now);
    }

    /// Sets the effect speed and writes it when it can.
    pub fn set_speed(&mut self, speed: Level, now: u64)
        ensures
            Self::edited(
                &LampService { rear: Rear { speed, ..old(self).rear }, ..*old(self) },
                &*final(self),
                Slot::RearSpeed,
                now,
            ),
    {
        self.rear.speed = speed;
        self.edit(Slot::RearSpeed, now);
    }

    /// Powers both lights back on where they are on (after a restart that
    /// turned them off for a system shutdown).
    fn restore_power(&mut self, now: u64)
        ensures
            wrote(
                &*old(self),
                &*final(self),
                (if old(self).front.on && !old(self).front.lit {
                    seq![old(self).front.power_bytes()]
                } else {
                    Seq::empty()
                }) + (if old(self).rear.on && !old(self).rear.lit {
                    seq![old(self).rear.power_bytes()]
                } else {
                    Seq::empty()
                }),
                now,
            ),
            final(self).front == (Front { lit: old(self).front.on, ..old(self).front }),
            final(self).rear == (Rear { lit: old(self).rear.on, ..old(self).rear }),
            final(self).status == old(self).status,
            final(self).same_core(
                &LampService { front: final(self).front, rear: final(self).rear, ..*old(self) },
            ),
    {
        self.arm_front(now);
        let ghost mid = *self;
        self.arm_rear(now);
        proof {
            lemma_wrote_then(
                &*old(self),
                &mid,
                self.actions@,
                self.last_write,
                self.last_frame@,
                if old(self).front.on && !old(self).front.lit {
                    seq![old(self).front.power_bytes()]
                } else {
                    Seq::empty()
                },
                if old(self).rear.on && !old(self).rear.lit {
                    seq![old(self).rear.power_bytes()]
                } else {
                    Seq::empty()
                },
                now,
            );
        }
    }

    /// Flips the front light, brings the lamp to it and saves.
    pub fn toggle_front(&mut self, now: u64)
        ensures
            ({
                let toggled = old(self).front.spec_toggled();
                &&& final(self).front == (Front { lit: toggled.on, ..toggled })
                &&& wrote_then_saved(
                    &LampService { front: toggled, ..*old(self) },
                    &*final(self),
                    toggled.spec_wake(),
                    now,
                )
            }),
            final(self).status == old(self).status,
            final(self).same_core(&LampService { front: final(self).front, ..*old(self) }),
    {
        self.front.toggle();
        self.apply_front(now);
        let ghost mid = self.actions@;
        self.persist();
        assert(self.actions@.drop_last() =~= mid);
    }

    /// Flips the rear light, brings the lamp to it and saves.
    pub fn toggle_rear(&mut self, now: u64)
        ensures
            ({
                let toggled = old(self).rear.spec_toggled();
                &&& final(self).rear == (Rear { lit: toggled.on, ..toggled })
                &&& wrote_then_saved(
                    &LampService { rear: toggled, ..*old(self) },
                    &*final(self),
                    toggled.spec_wake(),
                    now,
                )
            }),
            final(self).status == old(self).status,
            final(self).same_core(&LampService { rear: final(self).rear, ..*old(self) }),
    {
        self.rear.toggle();
        self.apply_rear(now);
        let ghost mid = self.actions@;
        self.persist();
        assert(self.actions@.drop_last() =~= mid);
    }

    /// Puts a preset on the front light (turning it on), shows its name,
    /// brings the lamp to it and saves.
    pub fn set_scene(&mut self, scene: Scene, now: u64)
        ensures
            ({
                let front = Front { on: true, level: scene.level, cct: scene.cct, ..old(self).front };
                &&& final(self).front == (Front { lit: true, ..front })
                &&& wrote_then_saved(
                    &LampService { front, ..*old(self) },
                    &*final(self),
                    front.spec_wake(),
                    now,
                )
            }),
            final(self).status@ == scene.name@,
            final(self).same_core(&LampService { front: final(self).front, ..*old(self) }),
    {
        self.front.on = true;
        self.front.level = scene.level;
        self.front.cct = scene.cct;
        self.status = String::from_str(scene.name);
        self.apply_front(now);
        let ghost mid = self.actions@;
        self.persist();
        assert(self.actions@.drop_last() =~= mid);
    }

    /// Plays an effect on the rear light (remembering it, turning it on),
    /// shows its name, brings the lamp to it and saves.
    pub fn set_effect(&mut self, effect: Effect, now: u64)
        ensures
            ({
                let rear = Rear { on: true, look: RearLook::Play(effect), effect, ..old(self).rear };
                &&& final(self).rear == (Rear { lit: true, ..rear })
                &&& wrote_then_saved(
                    &LampService { rear, ..*old(self) },
                    &*final(self),
                    rear.spec_wake(),
                    now,
                )
            }),
            final(self).status@ == effect.spec_name(),
            final(self).same_core(&LampService { rear: final(self).rear, ..*old(self) }),
    {
        self.rear.set_effect(effect);
        self.status = String::from_str(effect.name());
        self.apply_rear(now);
        let ghost mid = self.actions@;
        self.persist();
        assert(self.actions@.drop_last() =~= mid);
    }

    /// What `begin_os_shutdown` does from `before` to `after`.
    pub open spec fn shutdown_begun(
        before: &LampService,
        after: &LampService,
        now: u64,
        already_fired: bool,
    ) -> bool {
        &&& before.shutting_down ==> *after == *before
        &&& !before.shutting_down ==> {
            let lamp_was_on = before.off_on_shutdown && (before.front.on || before.rear.on);
            let front = if lamp_was_on {
                Front { lit: false, ..before.front }
            } else {
                before.front
            };
            let rear = if lamp_was_on {
                Rear { lit: false, ..before.rear }
            } else {
                before.rear
            };
            let off = if lamp_was_on && !already_fired {
                seq![ServiceAction::Send(BleCmd::ShutdownOff(before.remembered_addr))]
            } else {
                Seq::empty()
            };
            &&& none_marked(after.pending@)
            &&& after.same_core(
                &LampService {
                    shutting_down: true,
                    parked: true,
                    connecting: false,
                    retry_at: None,
                    pending: after.pending,
                    restore_after_shutdown: lamp_was_on,
                    shutdown_quit_at: Some(
                        now.saturating_add(if lamp_was_on { 4000u64 } else { 120u64 }),
                    ),
                    front,
                    rear,
                    ..*before
                },
            )
            &&& after.status@ == (if lamp_was_on {
                "系统关机，关灯"@
            } else {
                "系统关机"@
            })
            &&& after.actions@ == before.actions@ + off + seq![
                ServiceAction::Persist(after.spec_session()),
            ]
            &&& after.last_write == before.last_write
            &&& after.last_frame@ == before.last_frame@
        }
    }

    /// The system is shutting down: stop reconnecting and writing, drop what
    /// is pending, and quit soon. If a light was on and turning it off at
    /// shutdown is enabled, forget the lit state, remember to power it back
    /// on next time, ask the worker to switch the lamp off (unless the shutdown
    /// handler already did), and allow four seconds before quitting.
    pub fn begin_os_shutdown(&mut self, now: u64, already_fired: bool)
        ensures
            Self::shutdown_begun(&*old(self), &*final(self), now, already_fired),
    {
        if self.shutting_down {
            return;
        }
        let ghost start = self.actions@;
        self.shutting_down = true;
        self.parked = true;
        self.connecting = false;
        self.retry_at = None;
        self.pending = Pending::default();
        let lamp_was_on = self.off_on_shutdown && (self.front.on || self.rear.on);
        if lamp_was_on {
            self.restore_after_shutdown = true;
            self.front.extinguish();
            self.rear.extinguish();
            self.status = String::from_str("系统关机，关灯");
            if !already_fired {
                let addr = clone_opt(&self.remembered_addr);
                self.send(BleCmd::ShutdownOff(addr));
            }
            self.shutdown_quit_at = Some(now.saturating_add(4000));
        } else {
            self.restore_after_shutdown = false;
            self.status = String::from_str("系统关机");
            self.shutdown_quit_at = Some(now.saturating_add(120));
        }
        let ghost mid = self.actions@;
        self.persist();
        proof {
            let off = if lamp_was_on && !already_fired {
                seq![ServiceAction::Send(BleCmd::ShutdownOff(old(self).remembered_addr))]
            } else {
                Seq::empty()
            };
            assert(mid =~= start + off);
            assert(self.actions@ =~= start + off + seq![ServiceAction::Persist(self.spec_session())]);
        }
    }

    /// Goes to the background: stop reconnecting, drop the link, save.
    pub fn park(&mut self)
        ensures
            final(self).same_state(
                &LampService { parked: true, connecting: false, retry_at: None, ..*old(self) },
            ),
            final(self).status@ == "后台"@,
            final(self).last_frame@ == old(self).last_frame@,
            final(self).actions@ == old(self).actions@ + (if old(self).connected_addr is Some {
                seq![ServiceAction::Send(BleCmd::Disconnect)]
            } else {
                Seq::empty()
            }) + seq![ServiceAction::Persist(final(self).spec_session())],
    {
        let ghost start = self.actions@;
        self.parked = true;
        self.connecting = false;
        self.retry_at = None;
        if self.connected() {
            self.send(BleCmd::Disconnect);
        }
        self.status = String::from_str("后台");
        let ghost mid = self.actions@;
        self.persist();
        proof {
            if old(self).connected_addr is Some {
                assert(mid =~= start + seq![ServiceAction::Send(BleCmd::Disconnect)]);
            } else {
                assert(mid =~= start + Seq::empty());
            }
        }
    }

    /// Comes back from the background and reconnects to the remembered lamp.
    pub fn wake(&mut self)
        ensures
            !old(self).parked ==> *final(self) == *old(self),
            old(self).parked ==> {
                let reconnect = old(self).remembered_addr is Some;
                &&& final(self).same_state(
                    &LampService {
                        parked: false,
                        connecting: reconnect || old(self).connecting,
                        ..*old(self)
                    },
                )
                &&& final(self).last_frame@ == old(self).last_frame@
                &&& final(self).status@ == (if reconnect {
                    "正在连接…"@
                } else {
                    "已打开"@
                })
                &&& final(self).actions@ == (match old(self).remembered_addr {
                    Some(addr) => old(self).actions@.push(ServiceAction::Send(BleCmd::Reconnect(addr))),
                    None => old(self).actions@,
                })
            },
    {
        if !self.parked {
            return;
        }
        self.parked = false;
        match clone_opt(&self.remembered_addr) {
            Some(addr) => {
                self.connecting = true;
                self.status = String::from_str("正在连接…");
                self.send(BleCmd::Reconnect(addr));
            },
            None => {
                self.status = String::from_str("已打开");
            },
        }
    }

    /// Sets what closing the window does, and saves.
    pub fn set_close_preference(&mut self, preference: ClosePreference)
        ensures
            final(self).same_state(&LampService { close_preference: preference, ..*old(self) }),
            final(self).status == old(self).status,
            final(self).last_frame@ == old(self).last_frame@,
            final(self).actions@ == old(self).actions@.push(ServiceAction::Persist(final(self).spec_session())),
    {
        self.close_preference = preference;
        self.persist();
    }

    /// Sets whether the lights go off at system shutdown, and saves.
    pub fn set_off_on_shutdown(&mut self, enabled: bool)
        ensures
            final(self).same_state(&LampService { off_on_shutdown: enabled, ..*old(self) }),
            final(self).status == old(self).status,
            final(self).last_frame@ == old(self).last_frame@,
            final(self).actions@ == old(self).actions@.push(ServiceAction::Persist(final(self).spec_session())),
    {
        self.off_on_shutdown = enabled;
        self.persist();
    }

    /// Sets whether the app starts with the session, saves, and asks the app
    /// to write or remove the autostart entry.
    pub fn set_autostart(&mut self, enabled: bool)
        ensures
            final(self).same_state(&LampService { autostart: enabled, ..*old(self) }),
            final(self).status == old(self).status,
            final(self).last_frame@ == old(self).last_frame@,
            final(self).actions@ == old(self).actions@ + seq![
                ServiceAction::Persist(final(self).spec_session()),
                ServiceAction::SyncAutostart(enabled),
            ],
    {
        self.autostart = enabled;
        self.persist();
        self.actions.push(ServiceAction::SyncAutostart(enabled));
        assert(self.actions@ =~= old(self).actions@ + seq![
            ServiceAction::Persist(self.spec_session()),
            ServiceAction::SyncAutostart(enabled),
        ]);
    }

    /// Writing the autostart entry failed with `err`.
    pub fn autostart_failed(&mut self, err: &str)
        ensures
            final(self).same_state(&*old(self)),
            final(self).status@ == "自启动写入失败: "@ + err@,
            final(self).last_frame@ == old(self).last_frame@,
            final(self).actions@ == old(self).actions@,
    {
        self.status = join_text("自启动写入失败: ", err);
    }

    /// Starts a scan, unless parked.
    pub fn scan(&mut self)
        ensures
            old(self).parked ==> *final(self) == *old(self),
            !old(self).parked ==> {
                &&& final(self).same_state(&*old(self))
                &&& final(self).status@ == "扫描中…"@
                &&& final(self).last_frame@ == old(self).last_frame@
                &&& final(self).actions@ == old(self).actions@.push(ServiceAction::Send(BleCmd::Scan))
            },
    {
        if self.parked {
            return;
        }
        self.status = String::from_str("扫描中…");
        self.send(BleCmd::Scan);
    }

    /// Connects to `addr`, remembers it and saves.
    pub fn connect(&mut self, addr: String)
        ensures
            final(self).same_state(
                &LampService {
                    remembered_addr: Some(addr),
                    connecting: true,
                    retry_at: None,
                    ..*old(self)
                },
            ),
            final(self).status@ == "连接中…"@,
            final(self).last_frame@ == old(self).last_frame@,
            final(self).actions@ == old(self).actions@ + seq![
                ServiceAction::Send(BleCmd::Connect(addr)),
                ServiceAction::Persist(final(self).spec_session()),
            ],
    {
        self.remembered_addr = Some(addr.clone());
        self.connecting = true;
        self.retry_at = None;
        self.status = String::from_str("连接中…");
        self.send(BleCmd::Connect(addr));
        self.persist();
        assert(self.actions@ =~= old(self).actions@ + seq![
            ServiceAction::Send(BleCmd::Connect(addr)),
            ServiceAction::Persist(self.spec_session()),
        ]);
    }

    /// Drops the link.
    pub fn disconnect(&mut self)
        ensures
            final(self).same_state(&*old(self)),
            final(self).status == old(self).status,
            final(self).last_frame@ == old(self).last_frame@,
            final(self).actions@ == old(self).actions@.push(ServiceAction::Send(BleCmd::Disconnect)),
    {
        self.send(BleCmd::Disconnect);
    }

    /// The service would retry the connection now.
    pub open spec fn retry_due(&self, now: u64) -> bool {
        &&& self.retry_at matches Some(at) && now >= at
        &&& self.remembered_addr is Some
        &&& !self.parked
        &&& !self.shutting_down
        &&& self.connected_addr is None
        &&& self.connecting
    }

    /// What `flush_retry` does from `before` to `after`, returning `b`.
    pub open spec fn retry_step(before: &LampService, after: &LampService, now: u64, b: bool) -> bool {
        &&& b == before.retry_due(now)
        &&& after.same_state(
            &LampService {
                retry_at: if before.retry_at matches Some(at) && now >= at {
                    None
                } else {
                    before.retry_at
                },
                ..*before
            },
        )
        &&& after.last_frame@ == before.last_frame@
        &&& b ==> after.status@ == "重连中…"@ && after.actions@ == before.actions@.push(
            ServiceAction::Send(BleCmd::Reconnect(before.remembered_addr->0)),
        )
        &&& !b ==> after.status == before.status && after.actions@ == before.actions@
    }

    /// When the retry time has come, clears it and, if still trying to
    /// reach the remembered lamp, reconnects. Returns whether it did.
    pub fn flush_retry(&mut self, now: u64) -> (b: bool)
        ensures
            Self::retry_step(&*old(self), &*final(self), now, b),
    {
        let at = match self.retry_at {
            Some(at) => at,
            None => {
                return false;
            },
        };
        if now < at {
            return false;
        }
        self.retry_at = None;
        let addr = match clone_opt(&self.remembered_addr) {
            Some(addr) => addr,
            None => {
                return false;
            },
        };
        if self.parked || self.shutting_down || self.connected() || !self.connecting {
            return false;
        }
        self.status = String::from_str("重连中…");
        self.send(BleCmd::Reconnect(addr));
        true
    }

    /// Plans a reconnect in two seconds if still trying to reach the
    /// remembered lamp.
    pub fn schedule_retry(&mut self, now: u64)
        ensures
            final(self).same_state(
                &LampService {
                    retry_at: if !old(self).parked && !old(self).shutting_down && old(self).connecting
                        && old(self).remembered_addr is Some && old(self).connected_addr is None {
                        Some(now.saturating_add(2000))
                    } else {
                        old(self).retry_at
                    },
                    ..*old(self)
                },
            ),
            final(self).status == old(self).status,
            final(self).last_frame@ == old(self).last_frame@,
            final(self).actions@ == old(self).actions@,
    {
        if !self.parked && !self.shutting_down && self.connecting && self.remembered_addr.is_some()
            && !self.connected() {
            self.retry_at = Some(now.saturating_add(2000));
        }
    }

    /// What taking in one worker message does, from `before` to `after`.
    pub open spec fn handled(before: &LampService, after: &LampService, msg: BleMsg, now: u64) -> bool {
        match msg {
            BleMsg::Ready => {
                let reconnect = !before.parked && before.remembered_addr is Some
                    && before.connected_addr is None;
                &&& after.same_state(
                    &LampService {
                        ready: true,
                        connecting: reconnect || before.connecting,
                        ..*before
                    },
                )
                &&& after.last_frame@ == before.last_frame@
                &&& after.status@ == (if before.parked {
                    "后台"@
                } else if before.remembered_addr is None {
                    "就绪"@
                } else if reconnect {
                    "正在连接…"@
                } else {
                    before.status@
                })
                &&& after.actions@ == (if reconnect {
                    before.actions@.push(
                        ServiceAction::Send(BleCmd::Reconnect(before.remembered_addr->0)),
                    )
                } else {
                    before.actions@
                })
            },
            BleMsg::AdapterFailed(e) => {
                &&& after.same_state(&LampService { ready: false, ..*before })
                &&& after.status@ == "适配器不可用 "@ + e@
                &&& after.last_frame@ == before.last_frame@
                &&& after.actions@ == before.actions@
            },
            BleMsg::Scanning(on) => {
                &&& after.same_state(&LampService { scanning: on, ..*before })
                &&& after.status@ == (if on {
                    "扫描中"@
                } else {
                    before.status@
                })
                &&& after.last_frame@ == before.last_frame@
                &&& after.actions@ == before.actions@
            },
            BleMsg::Devices(rows) => {
                &&& after.devices@.to_multiset() == rows@.to_multiset()
                &&& rows_sorted(after.devices@)
                &&& same_order_per_key(after.devices@, rows@)
                &&& after.same_state(&LampService { devices: after.devices, ..*before })
                &&& after.status@ == "发现 "@ + decimal_text(rows@.len()) + " 台设备"@
                &&& after.last_frame@ == before.last_frame@
                &&& after.actions@ == before.actions@
            },
            BleMsg::Connected { name, addr } => if before.parked || before.shutting_down {
                &&& after.same_state(before)
                &&& after.status == before.status
                &&& after.last_frame@ == before.last_frame@
                &&& after.actions@ == before.actions@.push(ServiceAction::Send(BleCmd::Disconnect))
            } else {
                let frames = if before.restore_after_shutdown {
                    (if before.front.on && !before.front.lit {
                        seq![before.front.power_bytes()]
                    } else {
                        Seq::empty()
                    }) + (if before.rear.on && !before.rear.lit {
                        seq![before.rear.power_bytes()]
                    } else {
                        Seq::empty()
                    })
                } else {
                    Seq::empty()
                };
                &&& after.same_core(
                    &LampService {
                        connecting: false,
                        retry_at: None,
                        remembered_addr: Some(addr),
                        connected_name: Some(name),
                        connected_addr: Some(addr),
                        restore_after_shutdown: false,
                        front: Front { lit: before.front.on, ..before.front },
                        rear: Rear { lit: before.rear.on, ..before.rear },
                        ..*before
                    },
                )
                &&& after.status@ == "已连接 "@ + name@
                &&& after.actions@.len() > 0
                &&& after.actions@.last() == ServiceAction::Persist(after.spec_session())
                &&& appended_writes(
                    before.actions@.push(ServiceAction::Send(BleCmd::Handshake)),
                    after.actions@.drop_last(),
                    frames,
                )
                &&& after.last_write == (if frames.len() > 0 {
                    Some(now)
                } else {
                    before.last_write
                })
                &&& frames.len() > 0 ==> after.last_frame@ == hex_text(frames.last())
                &&& frames.len() == 0 ==> after.last_frame@ == before.last_frame@
            },
            BleMsg::Disconnected => {
                &&& after.same_state(
                    &LampService {
                        connecting: false,
                        retry_at: None,
                        connected_addr: None,
                        front: Front { lit: false, ..before.front },
                        rear: Rear { lit: false, ..before.rear },
                        ..*before
                    },
                )
                &&& after.status@ == "已断开"@
                &&& after.last_frame@ == before.last_frame@
                &&& after.actions@ == before.actions@.push(ServiceAction::Persist(after.spec_session()))
            },
            BleMsg::Written(frame) => {
                &&& after.same_state(before)
                &&& after.status == before.status
                &&& after.last_frame@ == hex_text(frame@)
                &&& after.actions@ == before.actions@
            },
            BleMsg::Error(e) => {
                &&& after.same_state(
                    &LampService {
                        retry_at: if !before.parked && !before.shutting_down && before.connecting
                            && before.remembered_addr is Some && before.connected_addr is None {
                            Some(now.saturating_add(2000))
                        } else {
                            before.retry_at
                        },
                        ..*before
                    },
                )
                &&& after.status@ == e@
                &&& after.last_frame@ == before.last_frame@
                &&& after.actions@ == before.actions@
            },
        }
    }

    /// Takes in one message from the BLE worker.
    pub fn handle(&mut self, msg: BleMsg, now: u64)
        ensures
            Self::handled(&*old(self), &*final(self), msg, now),
    {
        match msg {
            BleMsg::Ready => self.on_ready(),
            BleMsg::AdapterFailed(e) => self.on_adapter_failed(e),
            BleMsg::Scanning(on) => self.on_scanning(on),
            BleMsg::Devices(rows) => self.on_devices(rows),
            BleMsg::Connected { name, addr } => self.on_connected(name, addr, now),
            BleMsg::Disconnected => self.on_disconnected(),
            BleMsg::Written(frame) => {
                self.last_frame = frame.hex();
            },
            BleMsg::Error(e) => {
                self.status = e;
                self.schedule_retry(now);
            },
        }
    }

    fn on_ready(&mut self)
        ensures
            Self::handled(&*old(self), &*final(self), BleMsg::Ready, 0),
    {
        self.ready = true;
        if self.parked {
            self.status = String::from_str("后台");
        } else {
            match clone_opt(&self.remembered_addr) {
                Some(addr) => {
                    if !self.connected() {
                        self.connecting = true;
                        self.status = String::from_str("正在连接…");
                        self.send(BleCmd::Reconnect(addr));
                    }
                },
                None => {
                    self.status = String::from_str("就绪");
                },
            }
        }
    }

    fn on_adapter_failed(&mut self, e: String)
        ensures
            Self::handled(&*old(self), &*final(self), BleMsg::AdapterFailed(e), 0),
    {
        self.ready = false;
        self.status = join_text("适配器不可用 ", e.as_str());
    }

    fn on_scanning(&mut self, on: bool)
        ensures
            Self::handled(&*old(self), &*final(self), BleMsg::Scanning(on), 0),
    {
        self.scanning = on;
        if on {
            self.status = String::from_str("扫描中");
        }
    }

    fn on_devices(&mut self, rows: Vec<DeviceRow>)
        ensures
            Self::handled(&*old(self), &*final(self), BleMsg::Devices(rows), 0),
    {
        let ghost given = rows@;
        let mut rows = rows;
        sort_devices(&mut rows);
        let n = rows.len();
        proof {
            vstd::seq_lib::to_multiset_len(given);
            vstd::seq_lib::to_multiset_len(rows@);
        }
        self.devices = rows;
        let mut status = String::from_str("发现 ");
        push_decimal(&mut status, n);
        status.append(" 台设备");
        self.status = status;
    }

    fn on_connected(&mut self, name: String, addr: String, now: u64)
        ensures
            Self::handled(&*old(self), &*final(self), BleMsg::Connected { name, addr }, now),
    {
        if self.parked || self.shutting_down {
            self.send(BleCmd::Disconnect);
            return;
        }
        self.connecting = false;
        self.retry_at = None;
        self.remembered_addr = Some(addr.clone());
        self.connected_name = Some(name.clone());
        self.connected_addr = Some(addr);
        self.status = join_text("已连接 ", name.as_str());
        self.send(BleCmd::Handshake);
        if self.restore_after_shutdown {
            self.restore_after_shutdown = false;
            self.restore_power(now);
        } else {
            self.front.sync_lit();
            self.rear.sync_lit();
            proof {
                lemma_appended_nothing(self.actions@);
            }
        }
        let ghost mid = self.actions@;
        self.persist();
        assert(self.actions@.drop_last() =~= mid);
    }

    fn on_disconnected(&mut self)
        ensures
            Self::handled(&*old(self), &*final(self), BleMsg::Disconnected, 0),
    {
        self.connecting = false;
        self.retry_at = None;
        self.connected_addr = None;
        self.front.extinguish();
        self.rear.extinguish();
        self.status = String::from_str("已断开");
        self.persist();
    }

    /// Taking in `msgs` one after another leads from `before` to `after`.
    pub open spec fn handled_all(
        before: &LampService,
        after: &LampService,
        msgs: Seq<BleMsg>,
        now: u64,
    ) -> bool {
        exists|states: Seq<LampService>|
            {
                &&& states.len() == msgs.len() + 1
                &&& states[0] == *before
                &&& states.last() == *after
                &&& forall|i: int|
                    0 <= i < msgs.len() ==> #[trigger] Self::handled(
                        &states[i],
                        &states[i + 1],
                        msgs[i],
                        now,
                    )
            }
    }

    /// Takes in the worker's messages in order. Returns whether there were any.
    pub fn drain(&mut self, msgs: Vec<BleMsg>, now: u64) -> (b: bool)
        ensures
            b == (msgs@.len() > 0),
            Self::handled_all(&*old(self), &*final(self), msgs@, now),
    {
        let ghost given = msgs@;
        let ghost mut states: Seq<LampService> = seq![*self];
        let n = msgs.len();
        let dirty = n > 0;
        let mut msgs = msgs;
        let mut k: usize = 0;
        while msgs.len() > 0
            invariant
                k + msgs@.len() == given.len(),
                given.len() == n,
                msgs@ == given.skip(k as int),
                states.len() == k + 1,
                states[0] == *old(self),
                states.last() == *self,
                forall|i: int| 0 <= i < k ==> #[trigger] Self::handled(&states[i], &states[i + 1], given[i], now),
            decreases msgs@.len(),
        {
            let msg = msgs.remove(0);
            proof {
                assert(msg == given[k as int]);
                assert(msgs@ =~= given.skip(k + 1));
            }
            self.handle(msg, now);
            proof {
                let prev = states;
                states = states.push(*self);
                assert forall|i: int| 0 <= i < k + 1 implies #[trigger] Self::handled(&states[i], &states[i + 1], given[i], now) by {
                    if i < k {
                        assert(states[i] == prev[i]);
                        assert(states[i + 1] == prev[i + 1]);
                    }
                }
            }
            k = k + 1;
        }
        assert(Self::handled_all(&*old(self), &*self, given, now));
        dirty
    }

    /// What the quit check does: once the quit time has come, save and quit.
    pub open spec fn quit_step(before: &LampService, after: &LampService, now: u64) -> bool {
        if before.shutdown_quit_at matches Some(at) && now >= at {
            &&& after.same_state(before)
            &&& after.status == before.status
            &&& after.last_frame@ == before.last_frame@
            &&& after.actions@ == before.actions@ + seq![
                ServiceAction::Persist(before.spec_session()),
                ServiceAction::Quit,
            ]
        } else {
            *after == *before
        }
    }

    /// Once the quit time set at shutdown has come, saves and asks the app
    /// to quit.
    pub fn quit_if_due(&mut self, now: u64)
        ensures
            Self::quit_step(&*old(self), &*final(self), now),
    {
        let due = match self.shutdown_quit_at {
            Some(at) => now >= at,
            None => false,
        };
        if due {
            self.persist();
            self.actions.push(ServiceAction::Quit);
            assert(self.actions@ =~= old(self).actions@ + seq![
                ServiceAction::Persist(old(self).spec_session()),
                ServiceAction::Quit,
            ]);
        }
    }

    /// The wait `poll_interval` gives.
    pub open spec fn poll_ms(&self) -> u64 {
        if self.parked && !self.shutting_down {
            750
        } else {
            40
        }
    }

    /// One tick of the service loop, from `before` to `after`: begin the
    /// shutdown if one was requested, quit when due, retry the connection,
    /// write one pending setting, and take in the worker's messages.
    /// `changed` tells whether any of the last three did something.
    pub open spec fn ticked(
        before: &LampService,
        after: &LampService,
        now: u64,
        shutdown_requested: bool,
        already_fired: bool,
        msgs: Seq<BleMsg>,
        changed: bool,
    ) -> bool {
        exists|s1: LampService, s2: LampService, s3: LampService, s4: LampService, retried: bool, flushed: bool|
            #![trigger Self::quit_step(&s1, &s2, now), Self::retry_step(&s2, &s3, now, retried), Self::flush_step(&s3, &s4, now, flushed)]
            {
                &&& (if shutdown_requested {
                    Self::shutdown_begun(before, &s1, now, already_fired)
                } else {
                    s1 == *before
                })
                &&& Self::quit_step(&s1, &s2, now)
                &&& Self::retry_step(&s2, &s3, now, retried)
                &&& Self::flush_step(&s3, &s4, now, flushed)
                &&& Self::handled_all(&s4, after, msgs, now)
                &&& changed == (retried || flushed || msgs.len() > 0)
            }
    }

    /// One tick of the service loop. Returns whether anything changed (so
    /// views redraw) and how many milliseconds to wait before the next tick.
    pub fn tick(&mut self, now: u64, shutdown_requested: bool, already_fired: bool, msgs: Vec<BleMsg>) -> (r: (bool, u64))
        ensures
            Self::ticked(&*old(self), &*final(self), now, shutdown_requested, already_fired, msgs@, r.0),
            r.1 == final(self).poll_ms(),
    {
        let ghost m = msgs@;
        if shutdown_requested {
            self.begin_os_shutdown(now, already_fired);
        }
        let ghost s1 = *self;
        self.quit_if_due(now);
        let ghost s2 = *self;
        let retried = self.flush_retry(now);
        let ghost s3 = *self;
        let flushed = self.flush_pending(now);
        let ghost s4 = *self;
        let drained = self.drain(msgs, now);
        let changed = retried || flushed || drained;
        assert(Self::quit_step(&s1, &s2, now));
        assert(Self::retry_step(&s2, &s3, now, retried));
        assert(Self::flush_step(&s3, &s4, now, flushed));
        assert(Self::ticked(&*old(self), &*self, now, shutdown_requested, already_fired, m, changed));
        (changed, self.poll_interval())
    }
}

/// Appending an action that is not a frame write adds no write.
proof fn lemma_writes_push_other(a: Seq<ServiceAction>, x: ServiceAction)
    requires
        !(x matches ServiceAction::Send(BleCmd::Write(_))),
    ensures
        writes(a.push(x)) == writes(a),
{
    assert(a.push(x).drop_last() =~= a);
    assert(writes(a) + Seq::<Seq<u8>>::empty() =~= writes(a));
}

/// A worker message taken in while shutting down keeps the service shutting
/// down and writes no frame.
proof fn lemma_handled_while_shutting_down(
    before: &LampService,
    after: &LampService,
    msg: BleMsg,
    now: u64,
)
    requires
        before.shutting_down,
        LampService::handled(before, after, msg, now),
    ensures
        after.shutting_down,
        writes(after.actions@) == writes(before.actions@),
{
    match msg {
        BleMsg::Ready => {
            if !before.parked && before.remembered_addr is Some && before.connected_addr is None {
                lemma_writes_push_other(
                    before.actions@,
                    ServiceAction::Send(BleCmd::Reconnect(before.remembered_addr->0)),
                );
            }
        },
        BleMsg::Connected { name, addr } => {
            lemma_writes_push_other(before.actions@, ServiceAction::Send(BleCmd::Disconnect));
        },
        BleMsg::Disconnected => {
            lemma_writes_push_other(before.actions@, ServiceAction::Persist(after.spec_session()));
        },
        _ => {},
    }
}

proof fn lemma_chain_while_shutting_down(
    states: Seq<LampService>,
    msgs: Seq<BleMsg>,
    k: int,
    now: u64,
    base: Seq<Seq<u8>>,
)
    requires
        0 <= k <= msgs.len(),
        states.len() == msgs.len() + 1,
        forall|i: int|
            0 <= i < msgs.len() ==> #[trigger] LampService::handled(
                &states[i],
                &states[i + 1],
                msgs[i],
                now,
            ),
        states[k].shutting_down,
        writes(states[k].actions@) == base,
    ensures
        states.last().shutting_down,
        writes(states.last().actions@) == base,
    decreases msgs.len() - k,
{
    if k < msgs.len() {
        assert(LampService::handled(&states[k], &states[k + 1], msgs[k], now));
        lemma_handled_while_shutting_down(&states[k], &states[k + 1], msgs[k], now);
        lemma_chain_while_shutting_down(states, msgs, k + 1, now, base);
    }
}

/// Law: once a system shutdown has begun, a tick of the service loop leaves
/// it shutting down and writes no frame to the lamp, whatever the worker
/// reports and whatever the user had pending.
pub proof fn lemma_no_writes_after_shutdown(
    before: &LampService,
    after: &LampService,
    now: u64,
    shutdown_requested: bool,
    already_fired: bool,
    msgs: Seq<BleMsg>,
    changed: bool,
)
    requires
        before.shutting_down,
        LampService::ticked(before, after, now, shutdown_requested, already_fired, msgs, changed),
    ensures
        after.shutting_down,
        writes(after.actions@) == writes(before.actions@),
{
    let (s1, s2, s3, s4, retried, flushed) = choose|
        s1: LampService,
        s2: LampService,
        s3: LampService,
        s4: LampService,
        retried: bool,
        flushed: bool,
    |
        {
            &&& (if shutdown_requested {
                LampService::shutdown_begun(before, &s1, now, already_fired)
            } else {
                s1 == *before
            })
            &&& LampService::quit_step(&s1, &s2, now)
            &&& LampService::retry_step(&s2, &s3, now, retried)
            &&& LampService::flush_step(&s3, &s4, now, flushed)
            &&& LampService::handled_all(&s4, after, msgs, now)
            &&& changed == (retried || flushed || msgs.len() > 0)
        };
    assert(s1 == *before);
    if s1.shutdown_quit_at matches Some(at) && now >= at {
        lemma_writes_push_other(s1.actions@, ServiceAction::Persist(s1.spec_session()));
        lemma_writes_push_other(
            s1.actions@.push(ServiceAction::Persist(s1.spec_session())),
            ServiceAction::Quit,
        );
        assert(s2.actions@ =~= s1.actions@.push(ServiceAction::Persist(s1.spec_session())).push(
            ServiceAction::Quit,
        ));
    }
    assert(s2.shutting_down);
    assert(s3.actions@ == s2.actions@);
    if flushed {
        if s3.can_write() {
        } else {
            assert(s4.actions@.subrange(0, s3.actions@.len() as int) =~= s4.actions@);
        }
    }
    assert(s4.actions@ == s3.actions@);
    let states = choose|states: Seq<LampService>|
        {
            &&& states.len() == msgs.len() + 1
            &&& states[0] == s4
            &&& states.last() == *after
            &&& forall|i: int|
                0 <= i < msgs.len() ==> #[trigger] LampService::handled(
                    &states[i],
                    &states[i + 1],
                    msgs[i],
                    now,
                )
        };
    lemma_chain_while_shutting_down(states, msgs, 0, now, writes(before.actions@));
}

/// Law: what the service saves is what a restart starts from: both lamps
/// with the same power, level, colour temperature, look, speed and
/// memories (not yet lit), the same preferences, and the remembered lamp.
/// This needs the rear look to agree with the remembered colour and effect.
pub proof fn lemma_restart_restores_saved_state(before: &LampService, after: &LampService)
    requires
        LampService::started_from(&before.spec_session(), after),
        before.rear.memory_consistent(),
        1 <= before.front.level@ <= 100,
        3000 <= before.front.cct@ <= 6000,
        1 <= before.rear.level@ <= 100,
        1 <= before.rear.speed@ <= 100,
    ensures
        after.front == (Front { lit: false, ..before.front }),
        after.rear == (Rear { lit: false, ..before.rear }),
        after.remembered_addr == non_empty(before.remembered_addr),
        after.connected_name == before.connected_name,
        after.close_preference == before.close_preference,
        after.restore_after_shutdown == before.restore_after_shutdown,
        after.autostart == before.autostart,
        after.off_on_shutdown == before.off_on_shutdown,
{
    crate::session::lemma_front_snapshot_roundtrip(before.front);
    crate::session::lemma_rear_snapshot_roundtrip(before.rear);
}

proof fn lemma_appended_writes_add(a: Seq<ServiceAction>, b: Seq<ServiceAction>, frames: Seq<Seq<u8>>)
    requires
        appended_writes(a, b, frames),
    ensures
        writes(b) == writes(a) + frames,
{
    assert(b =~= a + b.skip(a.len() as int));
    lemma_writes_concat(a, b.skip(a.len() as int));
}

/// Law: a light that was on when the system shut down (with turning off at
/// shutdown enabled) is powered on again at the first connection after the
/// restart: the frames written are exactly the power-on frames of the lights
/// that were on, front first, and the restore is then done.
pub proof fn lemma_lights_return_after_shutdown(
    before: &LampService,
    down: &LampService,
    now: u64,
    already_fired: bool,
    restarted: &LampService,
    up: &LampService,
    name: String,
    addr: String,
    later: u64,
)
    requires
        !before.shutting_down,
        before.off_on_shutdown,
        before.front.on || before.rear.on,
        LampService::shutdown_begun(before, down, now, already_fired),
        LampService::started_from(&down.spec_session(), restarted),
        LampService::handled(restarted, up, BleMsg::Connected { name, addr }, later),
    ensures
        writes(up.actions@) == writes(restarted.actions@) + (if before.front.on {
            seq![framed(power_payload(Channel::Front, true))]
        } else {
            Seq::empty()
        }) + (if before.rear.on {
            seq![framed(power_payload(Channel::Rear, true))]
        } else {
            Seq::empty()
        }),
        !up.restore_after_shutdown,
        up.front.lit == before.front.on,
        up.rear.lit == before.rear.on,
{
    assert(down.restore_after_shutdown);
    assert(restarted.restore_after_shutdown);
    assert(!restarted.parked && !restarted.shutting_down);
    let frames = (if restarted.front.on && !restarted.front.lit {
        seq![restarted.front.power_bytes()]
    } else {
        Seq::empty()
    }) + (if restarted.rear.on && !restarted.rear.lit {
        seq![restarted.rear.power_bytes()]
    } else {
        Seq::empty()
    });
    let with_handshake = restarted.actions@.push(ServiceAction::Send(BleCmd::Handshake));
    lemma_appended_writes_add(with_handshake, up.actions@.drop_last(), frames);
    lemma_writes_push_other(restarted.actions@, ServiceAction::Send(BleCmd::Handshake));
    assert(up.actions@ =~= up.actions@.drop_last().push(up.actions@.last()));
    lemma_writes_push_other(up.actions@.drop_last(), up.actions@.last());
}

/// Law: a setting changed while no lamp is connected is not lost. It stays
/// pending through the connection, and once the write gap has passed the
/// first flush after connecting writes the first pending setting.
pub proof fn lemma_offline_edit_is_kept(
    before: &LampService,
    edited: &LampService,
    slot: Slot,
    now: u64,
    up: &LampService,
    name: String,
    addr: String,
    later: u64,
    after: &LampService,
    t: u64,
    b: bool,
)
    requires
        before.pending@.len() == 5,
        before.connected_addr is None,
        !before.parked,
        !before.shutting_down,
        LampService::edited(before, edited, slot, now),
        LampService::handled(edited, up, BleMsg::Connected { name, addr }, later),
        LampService::flush_step(up, after, t, b),
        gap_ok(up.last_write, t),
    ensures
        up.pending@[slot_index(slot)],
        b,
        writes(after.actions@) == writes(up.actions@) + seq![
            up.encode_bytes(slot_at(first_marked(up.pending@))),
        ],
{
    assert(edited.pending@ == before.pending@.update(slot_index(slot), true));
    assert(up.pending@ == edited.pending@);
    assert(!none_marked(up.pending@)) by {
        assert(up.pending@[slot_index(slot)]);
    }
    assert(up.can_write());
    lemma_appended_writes_add(
        up.actions@,
        after.actions@,
        seq![up.encode_bytes(slot_at(first_marked(up.pending@)))],
    );
}

/// Law: the write that brings a setting up to date is that setting's own
/// command: front and rear brightness go on their own channel, the colour
/// temperature is the front's colour-temperature command, the rear look is the
/// colour, effect or black scroll it shows, and the speed is the speed command.
pub proof fn lemma_encode_is_slot_command(s: &LampService)
    ensures
        s.encode_bytes(Slot::FrontLevel) == framed(
            Brightness { channel: Channel::Front, level: s.front.level }.payload(),
        ),
        s.encode_bytes(Slot::FrontCct) == framed(s.front.cct.payload()),
        s.encode_bytes(Slot::RearLevel) == framed(
            Brightness { channel: Channel::Rear, level: s.rear.level }.payload(),
        ),
        s.encode_bytes(Slot::RearLook) == match s.rear.look {
            RearLook::Solid(c) => framed(c.payload()),
            RearLook::Play(e) => framed(e.payload()),
            RearLook::Audio => framed(Rgb { r: 0, g: 0, b: 0 }.scroll_payload()),
        },
        s.encode_bytes(Slot::RearSpeed) == framed(Speed(s.rear.speed).payload()),
{
}

/// Law: on a connected service whose front light is already powered, once the
/// write gap has passed and no front brightness is waiting, setting the colour
/// temperature writes exactly one frame, the colour-temperature command of the
/// clamped kelvin, and shows it as the last frame.
pub proof fn lemma_set_cct_writes_cct(before: &LampService, after: &LampService, kelvin: u16, now: u64)
    requires
        before.pending@.len() == 5,
        before.can_write(),
        before.front.lit,
        gap_ok(before.last_write, now),
        !before.pending@[slot_index(Slot::FrontLevel)],
        LampService::edited(
            &LampService { front: Front { cct: cct_of(kelvin), on: true, ..before.front }, ..*before },
            after,
            Slot::FrontCct,
            now,
        ),
    ensures
        writes(after.actions@.skip(before.actions@.len() as int)) == seq![framed(cct_of(kelvin).payload())],
        after.last_frame@ == hex_text(framed(cct_of(kelvin).payload())),
{
    let p1 = before.pending@.update(slot_index(Slot::FrontCct), true);
    assert(!p1[0] && p1[1]);
    assert(p1.drop_first()[0]);
    assert(first_marked(p1.drop_first()) == 0);
    assert(first_marked(p1) == 1);
    assert(slot_at(1) == Slot::FrontCct);
    assert(after.front.cct == cct_of(kelvin));
}

} // verus!

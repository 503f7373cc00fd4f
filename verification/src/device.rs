//! What the BLE layer reports of a device and of its characteristics.

use vstd::prelude::*;
use vstd::arithmetic::power::pow;
use vstd::string::StringExecFns;

use crate::text::hex_digit;

verus! {

/// A discovered peripheral. The address is in its usual text form
/// (`AA:BB:CC:DD:EE:FF`).
#[derive(Debug, Clone)]
pub struct DeviceInfo {
    pub address: String,
    pub name: Option<String>,
    pub rssi: Option<i16>,
}

impl DeviceInfo {
    /// The advertised name, or `未知 (<address>)` without one.
    pub open spec fn spec_display_name(&self) -> Seq<char> {
        match self.name {
            Some(n) => n@,
            None => "未知 ("@ + self.address@ + ")"@,
        }
    }

    /// Name to show for the device.
    pub fn display_name(&self) -> (s: String)
        ensures
            s@ == self.spec_display_name(),
    {
        match &self.name {
            Some(n) => n.clone(),
            None => {
                let mut s = String::from_str("未知 (");
                s.append(self.address.as_str());
                s.append(")");
                s
            },
        }
    }
}

/// Hex digit `k` (from the most significant end) of a 128-bit value.
pub open spec fn uuid_nibble(u: u128, k: int) -> int {
    ((u as int) / pow(16, (31 - k) as nat)) % 16
}

/// The 32 lower-case hex digits of a 128-bit value, most significant first.
pub open spec fn uuid_hex(u: u128) -> Seq<char> {
    Seq::new(32, |k: int| hex_digit(uuid_nibble(u, k)))
}

/// A UUID in its lower-case hyphenated form: 8-4-4-4-12 hex digits.
pub open spec fn uuid_text(u: u128) -> Seq<char> {
    let h = uuid_hex(u);
    h.subrange(0, 8) + seq!['-'] + h.subrange(8, 12) + seq!['-'] + h.subrange(12, 16) + seq!['-']
        + h.subrange(16, 20) + seq!['-'] + h.subrange(20, 32)
}

/// Trusted: formats the UUID with the bits `u` (most significant first) by
/// `uuid::Uuid::from_u128` and its `Display`, which the crate writes as the
/// lower-case hyphenated form; the contract states that form digit by digit.
#[verifier::external_body]
pub(crate) fn uuid_string(u: u128) -> (s: String)
    ensures
        s@ == uuid_text(u),
{
    uuid::Uuid::from_u128(u).to_string()
}

/// Property bits of a characteristic, as the BLE stack numbers them.
pub const PROP_READ: u8 = 0x02;

pub const PROP_WRITE_WITHOUT_RESPONSE: u8 = 0x04;

pub const PROP_WRITE: u8 = 0x08;

pub const PROP_NOTIFY: u8 = 0x10;

pub const PROP_INDICATE: u8 = 0x20;

/// A GATT characteristic of the connected device: its UUID (as 128 bits)
/// and its property bits.
#[derive(Debug, Clone, Copy)]
pub struct CharacteristicInfo {
    pub uuid: u128,
    pub properties: u8,
}

/// `name` if the bit `bit` is set in `props`, else nothing.
pub open spec fn flag_if(props: u8, bit: u8, name: Seq<char>) -> Seq<Seq<char>> {
    if props & bit != 0 {
        seq![name]
    } else {
        Seq::empty()
    }
}

/// Short names of the read, write, write-without-response, notify and
/// indicate properties that are set, in that order.
pub open spec fn flag_names(props: u8) -> Seq<Seq<char>> {
    flag_if(props, PROP_READ, "R"@) + flag_if(props, PROP_WRITE, "W"@) + flag_if(
        props,
        PROP_WRITE_WITHOUT_RESPONSE,
        "Ww/o"@,
    ) + flag_if(props, PROP_NOTIFY, "N"@) + flag_if(props, PROP_INDICATE, "I"@)
}

/// The names separated by `, `.
pub open spec fn comma_joined(names: Seq<Seq<char>>) -> Seq<char>
    decreases names.len(),
{
    if names.len() == 0 {
        Seq::empty()
    } else if names.len() == 1 {
        names[0]
    } else {
        comma_joined(names.drop_last()) + ", "@ + names.last()
    }
}

fn push_flag(s: &mut String, first: &mut bool, props: u8, bit: u8, name: &str, names: Ghost<Seq<Seq<char>>>)
    requires
        *old(first) == (names@.len() == 0),
        old(s)@ == comma_joined(names@),
    ensures
        *final(first) == ((names@ + flag_if(props, bit, name@)).len() == 0),
        final(s)@ == comma_joined(names@ + flag_if(props, bit, name@)),
{
    if props & bit != 0 {
        if !*first {
            s.append(", ");
        }
        s.append(name);
        *first = false;
        proof {
            let all = names@ + seq![name@];
            assert(all.drop_last() =~= names@);
            assert(all.last() == name@);
            if names@.len() == 0 {
                assert(s@ =~= comma_joined(all));
            }
        }
    } else {
        assert(names@ + flag_if(props, bit, name@) =~= names@);
    }
}

impl CharacteristicInfo {
    /// `<uuid> [<flags>]`, as the device view lists it.
    pub open spec fn spec_summary(&self) -> Seq<char> {
        uuid_text(self.uuid) + " ["@ + comma_joined(flag_names(self.properties)) + "]"@
    }

    /// One line describing the characteristic.
    pub fn summary(&self) -> (s: String)
        ensures
            s@ == self.spec_summary(),
    {
        let p = self.properties;
        let mut flags = String::new();
        let mut first = true;
        let ghost n0: Seq<Seq<char>> = Seq::empty();
        push_flag(&mut flags, &mut first, p, PROP_READ, "R", Ghost(n0));
        let ghost n1 = n0 + flag_if(p, PROP_READ, "R"@);
        push_flag(&mut flags, &mut first, p, PROP_WRITE, "W", Ghost(n1));
        let ghost n2 = n1 + flag_if(p, PROP_WRITE, "W"@);
        push_flag(&mut flags, &mut first, p, PROP_WRITE_WITHOUT_RESPONSE, "Ww/o", Ghost(n2));
        let ghost n3 = n2 + flag_if(p, PROP_WRITE_WITHOUT_RESPONSE, "Ww/o"@);
        push_flag(&mut flags, &mut first, p, PROP_NOTIFY, "N", Ghost(n3));
        let ghost n4 = n3 + flag_if(p, PROP_NOTIFY, "N"@);
        push_flag(&mut flags, &mut first, p, PROP_INDICATE, "I", Ghost(n4));
        proof {
            assert(n0 + flag_if(p, PROP_READ, "R"@) =~= flag_if(p, PROP_READ, "R"@));
            assert(n4 + flag_if(p, PROP_INDICATE, "I"@) =~= flag_names(p));
        }
        let mut s = uuid_string(self.uuid);
        s.append(" [");
        s.append(flags.as_str());
        s.append("]");
        s
    }
}

} // verus!

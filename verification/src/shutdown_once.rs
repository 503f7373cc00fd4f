//! Small decisions of the system-shutdown turn-off: the restore flag a save
//! writes, which lamp to turn off, and when to act.

use vstd::prelude::*;

use vstd::string::{StrSliceExecFns, StringExecFns};

use crate::text::{trim, trim_str};

verus! {

/// The restore flag an ordinary save writes. The shutdown path may already
/// have set it on disk while memory still says false, so a save keeps it;
/// only a successful relight (`clear`) resets it.
pub fn restore_flag_to_write(disk: bool, memory: bool, clear: bool) -> (b: bool)
    ensures
        b == (!clear && (memory || disk)),
{
    if clear {
        false
    } else {
        memory || disk
    }
}

/// The address an optional text names: trimmed, and only when not empty.
pub open spec fn usable_addr(addr: Option<&str>) -> Option<Seq<char>> {
    match addr {
        Some(a) => if trim(a@).len() > 0 {
            Some(trim(a@))
        } else {
            None
        },
        None => None,
    }
}

fn usable(addr: Option<&str>) -> (r: Option<String>)
    ensures
        match r {
            Some(s) => usable_addr(addr) == Some(s@),
            None => usable_addr(addr) is None,
        },
{
    match addr {
        Some(a) => {
            let t = trim_str(a);
            if t.unicode_len() > 0 {
                Some(String::from_str(t))
            } else {
                None
            }
        },
        None => None,
    }
}

/// Lamp to turn off: the snapshot's address, or, when it has none (long in
/// the background, binding lost), the one the session remembers.
pub fn turn_off_addr(snap_addr: Option<&str>, session_addr: Option<&str>) -> (r: Option<String>)
    ensures
        match r {
            Some(s) => if usable_addr(snap_addr) is Some {
                usable_addr(snap_addr) == Some(s@)
            } else {
                usable_addr(session_addr) == Some(s@)
            },
            None => usable_addr(snap_addr) is None && usable_addr(session_addr) is None,
        },
{
    match usable(snap_addr) {
        Some(a) => Some(a),
        None => usable(session_addr),
    }
}

/// When the D-Bus signal stream ends the watcher reconnects to get a new
/// inhibitor; it never gives up.
pub fn logind_should_reconnect(signal_stream_ended: bool) -> (b: bool)
    ensures
        b == signal_stream_ended,
{
    signal_stream_ended
}

/// With the preference on, the lamp is turned off whatever the UI believes:
/// after a disconnect or in the tray the snapshot often says "off" while the
/// real lamp is still lit.
pub fn should_turn_off(pref_enabled: bool) -> (b: bool)
    ensures
        b == pref_enabled,
{
    pref_enabled
}

} // verus!

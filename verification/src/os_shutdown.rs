//! Decisions of the system-shutdown watcher: what the shared snapshot holds
//! and what a shutdown request does. The statics, signal handling and D-Bus
//! watching live in the app.

use vstd::prelude::*;

use crate::desktop::{join_path, joined, opt_view};
use crate::bridge::BleCmd;
use crate::session::{Session, session_dir, spec_session_dir};
use crate::shutdown_once::turn_off_addr;
use crate::text::trim;

verus! {

/// What the shutdown path knows of the UI: how to reach the BLE worker, the
/// lamp to turn off, the preference and whether the UI thinks a light is on.
pub struct ShutdownSnapshot<C> {
    pub cmd: C,
    pub addr: Option<String>,
    pub off_on_shutdown: bool,
    pub lamp_on: bool,
}

/// Hands the shutdown path a way to reach the BLE worker. A first binding
/// starts with no address, the preference on, and the lamp taken as lit.
pub fn bind<C>(snap: &mut Option<ShutdownSnapshot<C>>, cmd: C)
    ensures
        match *old(snap) {
            Some(s) => *final(snap) == Some(ShutdownSnapshot { cmd, ..s }),
            None => *final(snap) == Some(
                ShutdownSnapshot { cmd, addr: None, off_on_shutdown: true, lamp_on: true },
            ),
        },
{
    match snap {
        Some(s) => {
            s.cmd = cmd;
        },
        None => {
            *snap = Some(ShutdownSnapshot { cmd, addr: None, off_on_shutdown: true, lamp_on: true });
        },
    }
}

/// Records the UI's latest state; nothing happens before the first binding.
/// Returns whether a shutdown inhibitor is wanted (the preference).
pub fn update_snapshot<C>(
    snap: &mut Option<ShutdownSnapshot<C>>,
    addr: Option<String>,
    off_on_shutdown: bool,
    lamp_on: bool,
) -> (want_inhibit: bool)
    ensures
        want_inhibit == off_on_shutdown,
        match *old(snap) {
            Some(s) => *final(snap) == Some(
                ShutdownSnapshot { cmd: s.cmd, addr, off_on_shutdown, lamp_on },
            ),
            None => *final(snap) is None,
        },
{
    match snap {
        Some(s) => {
            s.addr = addr;
            s.off_on_shutdown = off_on_shutdown;
            s.lamp_on = lamp_on;
        },
        None => {},
    }
    off_on_shutdown
}

/// What a shutdown request does.
#[derive(Clone, Copy, Debug, PartialEq, Eq, Structural)]
pub enum RequestOutcome {
    /// An earlier request already ran (or is running); nothing more to do.
    AlreadyStarted,
    /// No UI state was bound yet; nothing can be done, and a later request may still act.
    Unbound,
    /// The preference is off: mark the turn-off as done without touching the lamp.
    Disabled,
    /// Mark started, save the restore flag, and turn the lamp off.
    TurnOff,
}

/// Decides a shutdown request from whether one already started, whether UI
/// state is bound, and the preference in that state.
pub fn request(already_started: bool, bound: bool, off_on_shutdown: bool) -> (o: RequestOutcome)
    ensures
        o == spec_request(already_started, bound, off_on_shutdown),
{
    if already_started {
        RequestOutcome::AlreadyStarted
    } else if !bound {
        RequestOutcome::Unbound
    } else if !crate::shutdown_once::should_turn_off(off_on_shutdown) {
        RequestOutcome::Disabled
    } else {
        RequestOutcome::TurnOff
    }
}

impl RequestOutcome {
    /// Whether this outcome marks the turn-off as started.
    pub fn marks_started(self) -> (b: bool)
        ensures
            b == (self == RequestOutcome::Disabled || self == RequestOutcome::TurnOff),
    {
        match self {
            RequestOutcome::Disabled | RequestOutcome::TurnOff => true,
            _ => false,
        }
    }

    /// Line written to the shutdown log for this outcome, if any.
    pub fn log_message(self) -> (m: Option<&'static str>)
        ensures
            match self {
                RequestOutcome::Unbound => m matches Some(s) && s@ == "收到关机信号，但还没绑定设备状态"@,
                RequestOutcome::Disabled => m matches Some(s) && s@ == "收到关机信号，设置里关灯已关"@,
                _ => m is None,
            },
    {
        match self {
            RequestOutcome::Unbound => Some("收到关机信号，但还没绑定设备状态"),
            RequestOutcome::Disabled => Some("收到关机信号，设置里关灯已关"),
            _ => None,
        }
    }
}

/// Wait before reconnecting to logind after `failures` lost connections:
/// 100 ms per failure, at most one second.
pub fn reconnect_delay_ms(failures: u32) -> (ms: u64)
    ensures
        ms == 100 * (if failures < 10 { failures as int } else { 10 }),
{
    let f: u64 = if failures < 10 {
        failures as u64
    } else {
        10
    };
    100 * f
}

/// The outcome `request` gives.
pub open spec fn spec_request(already_started: bool, bound: bool, off_on_shutdown: bool) -> RequestOutcome {
    if already_started {
        RequestOutcome::AlreadyStarted
    } else if !bound {
        RequestOutcome::Unbound
    } else if !off_on_shutdown {
        RequestOutcome::Disabled
    } else {
        RequestOutcome::TurnOff
    }
}

/// How many of a run of requests `(bound, preference)` turn the lamp off,
/// starting from the given started flag and carrying it along.
pub open spec fn turn_offs(started: bool, requests: Seq<(bool, bool)>) -> nat
    decreases requests.len(),
{
    if requests.len() == 0 {
        0
    } else {
        let o = spec_request(started, requests[0].0, requests[0].1);
        let next = started || o == RequestOutcome::Disabled || o == RequestOutcome::TurnOff;
        (if o == RequestOutcome::TurnOff {
            1nat
        } else {
            0nat
        }) + turn_offs(next, requests.drop_first())
    }
}

/// However many shutdown requests arrive (signal, logind, session end), the
/// lamp is turned off at most once, and never after the turn-off started.
pub proof fn lemma_turn_off_at_most_once(started: bool, requests: Seq<(bool, bool)>)
    ensures
        turn_offs(started, requests) <= 1,
        started ==> turn_offs(started, requests) == 0,
    decreases requests.len(),
{
    if requests.len() > 0 {
        let o = spec_request(started, requests[0].0, requests[0].1);
        let next = started || o == RequestOutcome::Disabled || o == RequestOutcome::TurnOff;
        lemma_turn_off_at_most_once(next, requests.drop_first());
    }
}

/// The shutdown log: `shutdown.log` beside the session file.
pub fn log_path(xdg_data_home: Option<&str>, home: Option<&str>) -> (p: String)
    ensures
        p@ == joined(spec_session_dir(opt_view(xdg_data_home), opt_view(home)), "shutdown.log"@),
{
    let dir = session_dir(xdg_data_home, home);
    join_path(dir.as_str(), "shutdown.log")
}

/// The characters of an optional string.
pub open spec fn opt_chars(o: Option<String>) -> Option<Seq<char>> {
    match o {
        Some(s) => Some(s@),
        None => None,
    }
}

/// An address trimmed, when something is left.
pub open spec fn usable_chars(addr: Option<Seq<char>>) -> Option<Seq<char>> {
    match addr {
        Some(a) => if trim(a).len() > 0 {
            Some(trim(a))
        } else {
            None
        },
        None => None,
    }
}

/// The lamp a shutdown turns off: the snapshot's address, or else the one
/// the saved session remembers.
pub open spec fn turn_off_target(snap_addr: Option<Seq<char>>, saved_addr: Option<Seq<char>>) -> Option<
    Seq<char>,
> {
    if usable_chars(snap_addr) is Some {
        usable_chars(snap_addr)
    } else {
        usable_chars(saved_addr)
    }
}

/// What acting on a shutdown request does.
#[derive(Debug)]
pub struct TurnOffPlan {
    /// The session to save: as loaded, marked to power the lights back on
    /// at the next connection.
    pub save: Session,
    /// The command for the BLE worker.
    pub send: BleCmd,
    /// The lamp to turn off directly, if an address is known.
    pub addr: Option<String>,
}

/// The work a request with `outcome` leads to. Only a request that turns
/// the lamp off does any: it saves the loaded session with the restore flag
/// set, sends the worker one `ShutdownOff` for the lamp, and names that lamp
/// for the direct turn-off.
pub fn turn_off_plan(outcome: RequestOutcome, snap_addr: Option<&str>, session: Session) -> (p: Option<
    TurnOffPlan,
>)
    ensures
        outcome != RequestOutcome::TurnOff ==> p is None,
        outcome == RequestOutcome::TurnOff ==> (p matches Some(plan) && {
            &&& plan.save == (Session { restore_after_shutdown: true, ..session })
            &&& plan.send == BleCmd::ShutdownOff(plan.addr)
            &&& opt_chars(plan.addr) == turn_off_target(opt_view(snap_addr), opt_chars(session.last_addr))
        }),
{
    match outcome {
        RequestOutcome::TurnOff => {},
        _ => {
            return None;
        },
    }
    let addr = {
        let saved: Option<&str> = match &session.last_addr {
            Some(a) => Some(a.as_str()),
            None => None,
        };
        turn_off_addr(snap_addr, saved)
    };
    let mut save = session;
    save.restore_after_shutdown = true;
    let send = BleCmd::ShutdownOff(crate::text::clone_opt(&addr));
    Some(TurnOffPlan { save, send, addr })
}

} // verus!

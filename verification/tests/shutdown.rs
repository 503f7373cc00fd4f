use hi_my_light::os_shutdown::{
    bind, reconnect_delay_ms, request, turn_off_plan, update_snapshot, RequestOutcome,
    ShutdownSnapshot,
};
use hi_my_light::bridge::BleCmd;
use hi_my_light::session::Session;
use hi_my_light::shutdown_once::{
    logind_should_reconnect, restore_flag_to_write, should_turn_off, turn_off_addr,
};

#[test]
fn unbound_attempt_does_not_block_later_turn_off() {
    let first = request(false, false, true);
    assert_eq!(first, RequestOutcome::Unbound);
    assert!(!first.marks_started());
    let later = request(first.marks_started(), true, true);
    assert_eq!(later, RequestOutcome::TurnOff);
    assert!(later.marks_started());
    assert_eq!(request(later.marks_started(), true, true), RequestOutcome::AlreadyStarted);
}

#[test]
fn persist_must_not_clobber_shutdown_restore_flag() {
    assert!(
        restore_flag_to_write(true, false, false),
        "GUI persist with memory=false must keep disk restore=true"
    );
    assert!(restore_flag_to_write(false, true, false));
    assert!(!restore_flag_to_write(true, false, true));
    assert!(!restore_flag_to_write(false, false, false));
}

#[test]
fn pref_on_turns_off_even_if_ui_thinks_lamp_is_off() {
    assert!(should_turn_off(true));
    assert!(!should_turn_off(false));
}

#[test]
fn empty_snapshot_falls_back_to_session_addr() {
    assert_eq!(
        turn_off_addr(None, Some("BE:28:69:00:00:DF")).as_deref(),
        Some("BE:28:69:00:00:DF")
    );
    assert_eq!(
        turn_off_addr(Some(""), Some("BE:28:69:00:00:DF")).as_deref(),
        Some("BE:28:69:00:00:DF")
    );
    assert_eq!(turn_off_addr(Some("AA:BB"), Some("CC:DD")).as_deref(), Some("AA:BB"));
    assert_eq!(turn_off_addr(None, None), None);
}

#[test]
fn turn_off_addr_trims_white_space() {
    assert_eq!(turn_off_addr(Some("  AA:BB \t"), None).as_deref(), Some("AA:BB"));
    assert_eq!(turn_off_addr(Some(" \u{3000} "), Some(" CC:DD\n")).as_deref(), Some("CC:DD"));
    assert_eq!(turn_off_addr(Some("   "), Some("")), None);
}

#[test]
fn logind_stream_end_must_reconnect() {
    assert!(logind_should_reconnect(true));
}

#[test]
fn first_bind_starts_with_defaults() {
    let mut snap: Option<ShutdownSnapshot<u32>> = None;
    assert!(!update_snapshot(&mut snap, Some("AA".to_string()), false, false));
    assert!(snap.is_none());
    bind(&mut snap, 7);
    let s = snap.as_ref().unwrap();
    assert_eq!(s.cmd, 7);
    assert_eq!(s.addr, None);
    assert!(s.off_on_shutdown);
    assert!(s.lamp_on);
    assert!(update_snapshot(&mut snap, Some("AA".to_string()), true, false));
    bind(&mut snap, 9);
    let s = snap.as_ref().unwrap();
    assert_eq!(s.cmd, 9);
    assert_eq!(s.addr.as_deref(), Some("AA"));
    assert!(!s.lamp_on);
}

#[test]
fn request_outcomes() {
    assert_eq!(request(true, true, true), RequestOutcome::AlreadyStarted);
    assert_eq!(request(false, false, true), RequestOutcome::Unbound);
    assert_eq!(request(false, true, false), RequestOutcome::Disabled);
    assert_eq!(request(false, true, true), RequestOutcome::TurnOff);
    assert!(RequestOutcome::TurnOff.marks_started());
    assert!(RequestOutcome::Disabled.marks_started());
    assert!(!RequestOutcome::Unbound.marks_started());
    assert_eq!(RequestOutcome::Unbound.log_message(), Some("收到关机信号，但还没绑定设备状态"));
    assert_eq!(RequestOutcome::TurnOff.log_message(), None);
}

#[test]
fn requests_turn_off_once() {
    let mut started = false;
    let mut offs = 0;
    for (bound, pref) in [(false, true), (true, true), (true, true), (true, false)] {
        let o = request(started, bound, pref);
        if o == RequestOutcome::TurnOff {
            offs += 1;
        }
        started = started || o.marks_started();
    }
    assert_eq!(offs, 1);
}

#[test]
fn reconnect_backoff() {
    assert_eq!(reconnect_delay_ms(0), 0);
    assert_eq!(reconnect_delay_ms(3), 300);
    assert_eq!(reconnect_delay_ms(10), 1000);
    assert_eq!(reconnect_delay_ms(u32::MAX), 1000);
}

#[test]
fn turn_off_saves_restore_flag_and_sends_one_off() {
    let session = Session { last_addr: Some("CC:DD".to_string()), ..Session::default() };
    let plan = turn_off_plan(RequestOutcome::TurnOff, Some(" AA:BB "), session.clone()).unwrap();
    assert!(plan.save.restore_after_shutdown);
    assert_eq!(plan.save.last_addr.as_deref(), Some("CC:DD"));
    assert_eq!(plan.addr.as_deref(), Some("AA:BB"));
    assert!(matches!(&plan.send, BleCmd::ShutdownOff(Some(a)) if a == "AA:BB"));
    let fallback = turn_off_plan(RequestOutcome::TurnOff, None, session.clone()).unwrap();
    assert_eq!(fallback.addr.as_deref(), Some("CC:DD"));
    let none = turn_off_plan(RequestOutcome::TurnOff, Some("  "), Session::default()).unwrap();
    assert!(matches!(none.send, BleCmd::ShutdownOff(None)));
    assert!(turn_off_plan(RequestOutcome::Disabled, Some("AA:BB"), session.clone()).is_none());
    assert!(turn_off_plan(RequestOutcome::AlreadyStarted, Some("AA:BB"), session.clone()).is_none());
    assert!(turn_off_plan(RequestOutcome::Unbound, None, session).is_none());
}

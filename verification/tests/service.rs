use hi_my_light::bridge::{BleCmd, BleMsg, DeviceRow};
use hi_my_light::lamp::Scene;
use hi_my_light::service::{LampService, ServiceAction};
use hi_my_light::session::Session;
use hi_my_light::{Effect, Level};

fn written(actions: &[ServiceAction]) -> Vec<String> {
    actions
        .iter()
        .filter_map(|a| match a {
            ServiceAction::Send(BleCmd::Write(f)) => Some(f.hex()),
            _ => None,
        })
        .collect()
}

fn remembered(addr: &str) -> Session {
    Session { last_addr: Some(addr.to_string()), ..Session::default() }
}

fn connected(addr: &str) -> LampService {
    let mut s = LampService::new(&remembered(addr));
    s.handle(BleMsg::Connected { name: "L2".to_string(), addr: addr.to_string() }, 0);
    s.actions.clear();
    s
}

#[test]
fn new_without_address_scans() {
    let s = LampService::new(&Session::default());
    assert_eq!(s.status, "启动中…");
    assert!(s.scanning);
    assert!(!s.connecting);
    assert_eq!(s.last_frame, "—");
    assert_eq!(s.actions.len(), 2);
    assert!(matches!(
        &s.actions[0],
        ServiceAction::ShutdownSnapshot { addr: None, off_on_shutdown: true, lamp_on: true }
    ));
    assert!(matches!(&s.actions[1], ServiceAction::Send(BleCmd::Scan)));
}

#[test]
fn new_with_address_reconnects() {
    let session = Session { autostart: true, ..remembered("AA:BB") };
    let s = LampService::new(&session);
    assert_eq!(s.status, "正在连接…");
    assert!(s.connecting);
    assert!(!s.scanning);
    assert_eq!(s.remembered_addr.as_deref(), Some("AA:BB"));
    assert_eq!(s.actions.len(), 2);
    assert!(matches!(&s.actions[1], ServiceAction::SyncAutostart(true)));
}

#[test]
fn empty_address_is_not_remembered() {
    let s = LampService::new(&remembered(""));
    assert_eq!(s.remembered_addr, None);
    assert!(s.scanning);
    assert!(!s.has_known_device());
}

#[test]
fn connect_then_connected_handshakes_and_saves() {
    let mut s = LampService::new(&Session::default());
    s.connect("AA".to_string());
    assert_eq!(s.status, "连接中…");
    assert!(s.connecting);
    assert!(matches!(s.actions.last(), Some(ServiceAction::Persist(_))));
    s.handle(BleMsg::Connected { name: "L2".to_string(), addr: "AA".to_string() }, 5);
    assert_eq!(s.status, "已连接 L2");
    assert!(s.connected());
    assert!(!s.connecting);
    assert!(s.front.lit);
    assert!(!s.rear.lit);
    assert!(s.actions.iter().any(|a| matches!(a, ServiceAction::Send(BleCmd::Handshake))));
    match s.actions.last() {
        Some(ServiceAction::Persist(saved)) => {
            assert_eq!(saved.last_addr.as_deref(), Some("AA"));
            assert_eq!(saved.last_name.as_deref(), Some("L2"));
        }
        other => panic!("expected a save, got {:?}", other),
    }
    assert!(written(&s.actions).is_empty());
}

#[test]
fn level_edit_writes_at_most_every_gap() {
    let mut s = connected("AA");
    s.set_front_level(Level::from_byte(0x32), 1000);
    assert_eq!(written(&s.actions), vec!["7e 04 01 32 05 ff 02 01 ef".to_string()]);
    assert_eq!(s.last_frame, "7e 04 01 32 05 ff 02 01 ef");
    assert!(s.pending.is_empty());
    s.set_front_level(Level::from_byte(0x40), 1010);
    assert_eq!(written(&s.actions).len(), 1);
    assert!(!s.pending.is_empty());
    assert!(!s.flush_pending(1030));
    assert!(s.flush_pending(1055));
    assert_eq!(written(&s.actions)[1], "7e 04 01 40 05 ff 02 01 ef");
    assert!(s.pending.is_empty());
}

#[test]
fn edits_while_disconnected_wait_for_the_link() {
    let mut s = LampService::new(&Session::default());
    s.actions.clear();
    s.set_rear_level(Level::from_byte(0x20), 10);
    s.set_speed(Level::from_byte(0x10), 10);
    assert!(s.actions.is_empty());
    assert!(s.rear.on);
    assert!(!s.pending.is_empty());
    s.handle(BleMsg::Connected { name: "L2".to_string(), addr: "AA".to_string() }, 20);
    s.actions.clear();
    assert!(s.flush_pending(100));
    assert!(s.flush_pending(200));
    assert!(!s.flush_pending(300));
    assert_eq!(
        written(&s.actions),
        vec!["7e 04 01 20 01 ff 02 01 ef".to_string(), "7e 07 02 10 ff ff ff 00 ef".to_string()]
    );
}

#[test]
fn flush_now_writes_one_and_saves() {
    let mut s = connected("AA");
    s.set_cct(3000, 0);
    s.set_front_level(Level::from_byte(0x20), 1);
    let before = written(&s.actions).len();
    s.flush_now(2);
    assert_eq!(written(&s.actions).len(), before + 1);
    assert!(matches!(s.actions.last(), Some(ServiceAction::Persist(_))));
}

#[test]
fn toggle_front_sends_wake_frames_and_saves() {
    let mut s = connected("AA");
    s.toggle_front(0);
    assert!(!s.front.on);
    assert_eq!(written(&s.actions), vec!["7e 07 04 00 05 00 02 01 ef".to_string()]);
    assert!(matches!(s.actions.last(), Some(ServiceAction::Persist(_))));
    s.actions.clear();
    s.toggle_front(100);
    assert!(s.front.on);
    assert_eq!(written(&s.actions).len(), 3);
}

#[test]
fn scene_sets_front_and_status() {
    let mut s = connected("AA");
    let scenes = Scene::scenes();
    s.set_scene(scenes[0], 0);
    assert_eq!(s.status, "夜航");
    assert_eq!(s.front.level.byte(), 16);
    assert_eq!(s.front.cct.kelvin(), 3000);
    assert_eq!(
        written(&s.actions),
        vec!["7e 04 01 10 05 ff 02 01 ef".to_string(), "7e 07 05 02 64 00 02 01 ef".to_string()]
    );
}

#[test]
fn effect_names_itself() {
    let mut s = connected("AA");
    s.set_effect(Effect::RgbJump, 0);
    assert_eq!(s.status, Effect::RgbJump.name());
    assert!(s.rear.on);
    assert!(s.rear.lit);
    assert_eq!(written(&s.actions).len(), 4);
}

#[test]
fn restore_after_shutdown_powers_lamp_on_connect() {
    let session = Session { restore_after_shutdown: true, ..remembered("AA") };
    let mut s = LampService::new(&session);
    s.actions.clear();
    s.handle(BleMsg::Connected { name: "L2".to_string(), addr: "AA".to_string() }, 0);
    assert!(!s.restore_after_shutdown);
    assert_eq!(written(&s.actions), vec!["7e 07 04 ff 05 01 02 01 ef".to_string()]);
    assert!(matches!(s.actions[0], ServiceAction::Send(BleCmd::Handshake)));
    assert!(matches!(s.actions.last(), Some(ServiceAction::Persist(_))));
}

#[test]
fn shutdown_with_lamp_on_turns_it_off() {
    let mut s = connected("AA");
    s.set_front_level(Level::from_byte(0x20), 1);
    s.set_front_level(Level::from_byte(0x21), 2);
    s.actions.clear();
    s.begin_os_shutdown(1000, false);
    assert_eq!(s.status, "系统关机，关灯");
    assert!(s.shutting_down && s.parked && s.restore_after_shutdown);
    assert!(!s.front.lit);
    assert!(s.pending.is_empty());
    assert_eq!(s.shutdown_quit_at, Some(5000));
    assert_eq!(s.actions.len(), 2);
    assert!(matches!(&s.actions[0], ServiceAction::Send(BleCmd::ShutdownOff(Some(a))) if a == "AA"));
    assert!(matches!(&s.actions[1], ServiceAction::Persist(p) if p.restore_after_shutdown));
    s.actions.clear();
    s.begin_os_shutdown(2000, false);
    assert!(s.actions.is_empty());
    assert_eq!(s.shutdown_quit_at, Some(5000));
}

#[test]
fn shutdown_already_handled_sends_no_off() {
    let mut s = connected("AA");
    s.begin_os_shutdown(0, true);
    assert_eq!(s.actions.len(), 1);
    assert!(matches!(&s.actions[0], ServiceAction::Persist(_)));
}

#[test]
fn shutdown_with_lamp_off_quits_soon() {
    let mut s = connected("AA");
    s.toggle_front(0);
    s.actions.clear();
    s.begin_os_shutdown(100, false);
    assert_eq!(s.status, "系统关机");
    assert!(!s.restore_after_shutdown);
    assert_eq!(s.shutdown_quit_at, Some(220));
    assert_eq!(s.actions.len(), 1);
}

#[test]
fn nothing_is_written_after_shutdown() {
    let mut s = connected("AA");
    s.begin_os_shutdown(0, false);
    s.actions.clear();
    s.set_front_level(Level::from_byte(0x50), 100);
    s.toggle_rear(200);
    let (_, _) = s.tick(
        300,
        false,
        false,
        vec![BleMsg::Connected { name: "L2".to_string(), addr: "AA".to_string() }],
    );
    assert!(written(&s.actions).is_empty());
    assert!(s.shutting_down);
    assert!(s.actions.iter().any(|a| matches!(a, ServiceAction::Send(BleCmd::Disconnect))));
}

#[test]
fn tick_quits_when_due() {
    let mut s = connected("AA");
    s.begin_os_shutdown(0, false);
    s.actions.clear();
    let (changed, wait) = s.tick(3999, false, false, vec![]);
    assert!(!changed);
    assert_eq!(wait, 40);
    assert!(s.actions.is_empty());
    let (_, _) = s.tick(4000, false, false, vec![]);
    assert_eq!(s.actions.len(), 2);
    assert!(matches!(s.actions[0], ServiceAction::Persist(_)));
    assert!(matches!(s.actions[1], ServiceAction::Quit));
}

#[test]
fn tick_begins_requested_shutdown() {
    let mut s = connected("AA");
    let (changed, _) = s.tick(10, true, false, vec![]);
    assert!(!changed);
    assert!(s.shutting_down);
    assert_eq!(s.status, "系统关机，关灯");
}

#[test]
fn tick_reports_messages() {
    let mut s = LampService::new(&Session::default());
    let (changed, wait) = s.tick(0, false, false, vec![BleMsg::Scanning(true)]);
    assert!(changed);
    assert_eq!(wait, 40);
    assert!(s.scanning);
    assert_eq!(s.status, "扫描中");
}

#[test]
fn devices_are_sorted_and_counted() {
    let mut s = LampService::new(&Session::default());
    let rows = vec![
        DeviceRow { name: "Other".to_string(), addr: "1".to_string(), rssi: Some(-40) },
        DeviceRow { name: "Thunderobot L2".to_string(), addr: "2".to_string(), rssi: Some(-90) },
    ];
    assert!(s.drain(vec![BleMsg::Devices(rows)], 0));
    assert_eq!(s.status, "发现 2 台设备");
    assert_eq!(s.devices[0].addr, "2");
    assert_eq!(s.devices[1].addr, "1");
    assert!(!s.drain(vec![], 0));
}

#[test]
fn ready_reconnects_or_waits() {
    let mut s = LampService::new(&remembered("AA"));
    s.actions.clear();
    s.handle(BleMsg::Ready, 0);
    assert!(s.ready);
    assert_eq!(s.status, "正在连接…");
    assert!(matches!(&s.actions[0], ServiceAction::Send(BleCmd::Reconnect(a)) if a == "AA"));

    let mut fresh = LampService::new(&Session::default());
    fresh.handle(BleMsg::Ready, 0);
    assert_eq!(fresh.status, "就绪");

    let mut parked = LampService::new(&Session::default());
    parked.park();
    parked.handle(BleMsg::Ready, 0);
    assert_eq!(parked.status, "后台");
}

#[test]
fn adapter_failure_and_written_frames() {
    let mut s = LampService::new(&Session::default());
    s.handle(BleMsg::AdapterFailed("no adapter".to_string()), 0);
    assert!(!s.ready);
    assert_eq!(s.status, "适配器不可用 no adapter");
    let frame = hi_my_light::Frame::pack([1, 2, 3, 4, 5, 6, 7]);
    s.handle(BleMsg::Written(frame), 0);
    assert_eq!(s.last_frame, "7e 01 02 03 04 05 06 07 ef");
}

#[test]
fn error_schedules_a_retry() {
    let mut s = LampService::new(&remembered("AA"));
    s.actions.clear();
    s.handle(BleMsg::Error("link lost".to_string()), 100);
    assert_eq!(s.status, "link lost");
    assert_eq!(s.retry_at, Some(2100));
    assert!(!s.flush_retry(2099));
    assert!(s.flush_retry(2100));
    assert_eq!(s.status, "重连中…");
    assert_eq!(s.retry_at, None);
    assert!(matches!(&s.actions[0], ServiceAction::Send(BleCmd::Reconnect(a)) if a == "AA"));
}

#[test]
fn disconnect_forgets_lit_state() {
    let mut s = connected("AA");
    s.handle(BleMsg::Disconnected, 0);
    assert!(!s.connected());
    assert!(!s.front.lit);
    assert_eq!(s.status, "已断开");
    assert!(matches!(s.actions.last(), Some(ServiceAction::Persist(_))));
}

#[test]
fn park_and_wake() {
    let mut s = connected("AA");
    s.park();
    assert!(s.parked);
    assert_eq!(s.status, "后台");
    assert_eq!(s.poll_interval(), 750);
    assert!(matches!(s.actions[0], ServiceAction::Send(BleCmd::Disconnect)));
    s.handle(BleMsg::Disconnected, 0);
    s.actions.clear();
    s.scan();
    assert!(s.actions.is_empty());
    s.wake();
    assert!(!s.parked);
    assert!(s.connecting);
    assert_eq!(s.status, "正在连接…");
    assert!(matches!(&s.actions[0], ServiceAction::Send(BleCmd::Reconnect(a)) if a == "AA"));
    assert_eq!(s.poll_interval(), 40);
}

#[test]
fn settings_are_saved() {
    let mut s = LampService::new(&Session::default());
    s.actions.clear();
    s.set_off_on_shutdown(false);
    assert!(matches!(&s.actions[0], ServiceAction::Persist(p) if !p.off_on_shutdown));
    s.set_autostart(true);
    assert!(matches!(&s.actions[1], ServiceAction::Persist(p) if p.autostart));
    assert!(matches!(&s.actions[2], ServiceAction::SyncAutostart(true)));
    s.autostart_failed("denied");
    assert_eq!(s.status, "自启动写入失败: denied");
}

#[test]
fn restart_restores_what_was_saved() {
    let mut s = connected("AA");
    s.set_cct(5200, 0);
    s.set_front_level(Level::from_byte(0x21), 100);
    s.set_effect(Effect::RgbJump, 200);
    s.set_speed(Level::from_byte(0x30), 300);
    s.set_close_preference(hi_my_light::session::ClosePreference::Background);
    let saved = match s.actions.last() {
        Some(ServiceAction::Persist(p)) => p.clone(),
        other => panic!("expected a save, got {:?}", other),
    };
    let again = LampService::new(&saved);
    assert_eq!(again.front.on, s.front.on);
    assert_eq!(again.front.level, s.front.level);
    assert_eq!(again.front.cct, s.front.cct);
    assert!(!again.front.lit);
    assert_eq!(again.rear.look, s.rear.look);
    assert_eq!(again.rear.effect, Effect::RgbJump);
    assert_eq!(again.rear.speed, s.rear.speed);
    assert_eq!(again.rear.solid, s.rear.solid);
    assert_eq!(again.remembered_addr.as_deref(), Some("AA"));
    assert_eq!(again.close_preference, hi_my_light::session::ClosePreference::Background);
}

#[test]
fn lights_return_after_shutdown() {
    let mut s = connected("AA");
    s.set_rgb(hi_my_light::Rgb::new(1, 2, 3), 0);
    s.begin_os_shutdown(1000, false);
    let saved = match s.actions.last() {
        Some(ServiceAction::Persist(p)) => p.clone(),
        other => panic!("expected a save, got {:?}", other),
    };
    assert!(saved.restore_after_shutdown);
    let mut again = LampService::new(&saved);
    again.actions.clear();
    again.handle(BleMsg::Connected { name: "L2".to_string(), addr: "AA".to_string() }, 0);
    assert_eq!(
        written(&again.actions),
        vec!["7e 07 04 ff 05 01 02 01 ef".to_string(), "7e 07 04 ff 01 01 02 01 ef".to_string()]
    );
    assert!(!again.restore_after_shutdown);
}

use hi_my_light::bridge::{sort_devices, BleMsg, DeviceRow};
use hi_my_light::cli::{command, pick, wants_quit, CliCommand, PickInput};
use hi_my_light::desktop::{
    autostart_path, bin_path, config_home, data_home, icon_png_path, icon_png_sizes,
    icon_svg_path, is_menu_installed, join_path, menu_entry_path, start_hidden, sync_autostart,
    win_bat_step, win_bin_path, win_icon_ico_path, win_is_menu_installed, win_join_path,
    win_local_app_data, win_menu_bat_body, win_menu_bat_path, win_menu_entry_path,
    win_roaming_app_data, win_run_value, win_run_value_removed, win_shortcut_script,
    AutostartStep, BatStep,
};
use hi_my_light::device::{CharacteristicInfo, DeviceInfo};
use hi_my_light::os_shutdown::log_path;
use hi_my_light::session::{session_dir, Session};
use hi_my_light::ui::{rear_glow, rear_label, track_id, RearPane, Track};
use hi_my_light::worker::{
    adapter_failed, connect_reply, device_rows, disconnect_reply, discovered,
    find_characteristic, handshake_frames, pick_peripheral, power_off_frames,
    quiet_connect_result, scan_reply, shutdown_off_after_connect, shutdown_off_start,
    turn_off_retry, write_reply, AdapterStep, ConnectOutcome, OffStep,
};
use hi_my_light::{BleError, Clock, Frame};

const LAMP_CHAR: u128 = 0x0000fff3_0000_1000_8000_00805f9b34fb;

fn device(addr: &str, name: Option<&str>, rssi: Option<i16>) -> DeviceInfo {
    DeviceInfo { address: addr.to_string(), name: name.map(|n| n.to_string()), rssi }
}

#[test]
fn paths_join_like_the_platform() {
    assert_eq!(join_path("/home/a", ".config"), "/home/a/.config");
    assert_eq!(join_path("/home/a/", ".config"), "/home/a/.config");
    assert_eq!(join_path("", "x"), "x");
    assert_eq!(join_path("/home/a", "/etc"), "/etc");
}

#[test]
fn install_paths_follow_xdg() {
    assert_eq!(bin_path(Some("/home/a")), "/home/a/.local/bin/hi-my-light");
    assert_eq!(bin_path(None), "./.local/bin/hi-my-light");
    assert_eq!(data_home(None, Some("/home/a")), "/home/a/.local/share");
    assert_eq!(data_home(Some("/xdg/data"), Some("/home/a")), "/xdg/data");
    assert_eq!(config_home(None, Some("/home/a")), "/home/a/.config");
    assert_eq!(config_home(Some("/c"), None), "/c");
    assert_eq!(
        menu_entry_path("/home/a/.local/share"),
        "/home/a/.local/share/applications/hi-my-light.desktop"
    );
    assert_eq!(autostart_path("/home/a/.config"), "/home/a/.config/autostart/hi-my-light.desktop");
    assert_eq!(icon_svg_path("/d"), "/d/icons/hicolor/scalable/apps/hi-my-light.svg");
    assert_eq!(icon_png_path("/d", 64), "/d/icons/hicolor/64x64/apps/hi-my-light.png");
    assert_eq!(icon_png_sizes(), [32, 64, 128, 256]);
}

#[test]
fn session_and_log_live_together() {
    assert_eq!(Session::path(None, Some("/home/a")), "/home/a/.local/share/hi-my-light/session.json");
    assert_eq!(Session::path(Some("/x"), Some("/home/a")), "/x/hi-my-light/session.json");
    assert_eq!(Session::path(None, None), "./hi-my-light/session.json");
    assert_eq!(log_path(None, Some("/home/a")), "/home/a/.local/share/hi-my-light/shutdown.log");
    assert_eq!(session_dir(Some("/x/"), None), "/x/hi-my-light");
}

#[test]
fn autostart_steps() {
    assert_eq!(sync_autostart(true, true, false), AutostartStep::Write);
    assert_eq!(sync_autostart(true, false, true), AutostartStep::InstallThenWrite);
    assert_eq!(sync_autostart(false, true, true), AutostartStep::Remove);
    assert_eq!(sync_autostart(false, true, false), AutostartStep::Nothing);
    assert!(is_menu_installed(true, true));
    assert!(!is_menu_installed(true, false));
}

#[test]
fn hidden_start_flags() {
    let args = |v: &[&str]| v.iter().map(|s| s.to_string()).collect::<Vec<String>>();
    assert!(start_hidden(&args(&["hml", "--tray"])));
    assert!(start_hidden(&args(&["hml", "--background"])));
    assert!(start_hidden(&args(&["--hidden"])));
    assert!(!start_hidden(&args(&["hml", "--install"])));
    assert!(!start_hidden(&args(&[])));
}

#[test]
fn track_ids() {
    assert_eq!(track_id(Track::FrontLevel), "track-front-level");
    assert_eq!(track_id(Track::SatVal), "track-sat-val");
}

#[test]
fn display_name_falls_back_to_address() {
    assert_eq!(device("AA:BB", Some("L2"), None).display_name(), "L2");
    assert_eq!(device("AA:BB", None, None).display_name(), "未知 (AA:BB)");
}

#[test]
fn characteristic_summary() {
    let c = CharacteristicInfo { uuid: LAMP_CHAR, properties: 0x02 | 0x08 | 0x04 | 0x10 };
    assert_eq!(c.summary(), "0000fff3-0000-1000-8000-00805f9b34fb [R, W, Ww/o, N]");
    let none = CharacteristicInfo { uuid: 0xABCDEF, properties: 0x01 };
    assert_eq!(none.summary(), "00000000-0000-0000-0000-000000abcdef []");
    let indicate = CharacteristicInfo { uuid: 1, properties: 0x20 };
    assert_eq!(indicate.summary(), "00000000-0000-0000-0000-000000000001 [I]");
}

#[test]
fn adapter_retries_then_gives_up() {
    assert!(matches!(adapter_failed(0, "x".to_string()), AdapterStep::Retry(500)));
    assert!(matches!(adapter_failed(10, "x".to_string()), AdapterStep::Retry(500)));
    match adapter_failed(11, "no bluez".to_string()) {
        AdapterStep::GiveUp(BleMsg::AdapterFailed(e)) => assert_eq!(e, "no bluez"),
        other => panic!("unexpected {:?}", other),
    }
}

#[test]
fn discovered_keeps_devices_with_properties() {
    let found = vec![Some(device("A", Some("a"), None)), None, Some(device("B", None, Some(-3)))];
    let devices = discovered(found);
    assert_eq!(devices.len(), 2);
    assert_eq!(devices[1].address, "B");
    let rows = device_rows(&devices);
    assert_eq!(rows[1].name, "未知 (B)");
    assert_eq!(rows[1].rssi, Some(-3));
}

#[test]
fn scan_replies() {
    let devices = vec![
        device("1", Some("Other"), Some(-40)),
        device("2", Some("THUNDEROBOT L2"), Some(-90)),
    ];
    let msgs = scan_reply(Ok(devices));
    assert_eq!(msgs.len(), 2);
    match &msgs[0] {
        BleMsg::Devices(rows) => {
            assert_eq!(rows[0].addr, "2");
            assert_eq!(rows[1].addr, "1");
        }
        other => panic!("unexpected {:?}", other),
    }
    assert!(matches!(msgs[1], BleMsg::Scanning(false)));
    let failed = scan_reply(Err("busy".to_string()));
    assert!(matches!(&failed[0], BleMsg::Error(e) if e == "busy"));
}

#[test]
fn connect_replies() {
    let (drop, msg) = connect_reply("zz", ConnectOutcome::BadAddress);
    assert!(!drop);
    assert!(matches!(&msg, BleMsg::Error(e) if e == "地址无效: zz"));
    let (drop, msg) = connect_reply("A", ConnectOutcome::NoCharacteristic("gone".to_string()));
    assert!(drop);
    assert!(matches!(&msg, BleMsg::Error(e) if e == "已连接但未找到灯控特征值: gone"));
    let (drop, msg) = connect_reply("A", ConnectOutcome::Failed("timeout".to_string()));
    assert!(!drop);
    assert!(matches!(&msg, BleMsg::Error(e) if e == "timeout"));
    let (_, msg) = connect_reply("A", ConnectOutcome::Ready(device("A", None, None)));
    assert!(matches!(&msg, BleMsg::Connected { name, addr } if name == "未知 (A)" && addr == "A"));
    assert_eq!(quiet_connect_result(&ConnectOutcome::Ready(device("A", None, None))), (true, false));
    assert_eq!(quiet_connect_result(&ConnectOutcome::NoCharacteristic(String::new())), (false, true));
    assert_eq!(quiet_connect_result(&ConnectOutcome::BadAddress), (false, false));
}

#[test]
fn write_and_disconnect_replies() {
    let frame = Frame::pack([1, 2, 3, 4, 5, 6, 7]);
    assert!(matches!(write_reply(frame, Ok(())), BleMsg::Written(_)));
    assert!(matches!(write_reply(frame, Err("no".to_string())), BleMsg::Error(_)));
    assert!(matches!(disconnect_reply(Ok(())), BleMsg::Disconnected));
    assert!(matches!(disconnect_reply(Err("x".to_string())), BleMsg::Error(e) if e == "x"));
}

#[test]
fn handshake_and_off_frames() {
    let frames = handshake_frames(Clock { hour: 12, minute: 34, second: 56 });
    let hex: Vec<String> = frames.iter().map(|f| f.hex()).collect();
    assert_eq!(hex[0], "7e 07 ea 02 01 ff ff 00 ef");
    assert_eq!(hex[1], hex[0]);
    assert_eq!(hex[2], "7e 06 83 0c 22 38 06 00 ef");
    assert_eq!(hex[3], hex[2]);
    let off = power_off_frames();
    assert_eq!(off[0].hex(), "7e 07 04 00 05 00 02 01 ef");
    assert_eq!(off[1].hex(), "7e 07 04 00 01 00 02 01 ef");
}

#[test]
fn shutdown_off_steps() {
    assert!(matches!(shutdown_off_start(true, None), OffStep::WriteOffs));
    assert!(matches!(shutdown_off_start(false, None), OffStep::Stop));
    assert!(matches!(shutdown_off_start(false, Some("A".to_string())), OffStep::Connect(a) if a == "A"));
    assert!(matches!(shutdown_off_after_connect(true, false), OffStep::ScanThenConnect));
    assert!(matches!(shutdown_off_after_connect(false, false), OffStep::Stop));
    assert!(matches!(shutdown_off_after_connect(false, true), OffStep::WriteOffs));
    assert_eq!(turn_off_retry(0), Some(150));
    assert_eq!(turn_off_retry(1), None);
}

#[test]
fn peripherals_and_characteristics_are_found() {
    let devices = vec![device("A", None, None), device("B", None, None), device("B", Some("x"), None)];
    assert_eq!(pick_peripheral(false, &devices, "B").unwrap(), 1);
    assert!(matches!(pick_peripheral(true, &devices, "B"), Err(BleError::AlreadyConnected)));
    assert!(matches!(pick_peripheral(false, &devices, "C"), Err(BleError::PeripheralNotFound(a)) if a == "C"));
    let chars = vec![
        CharacteristicInfo { uuid: 7, properties: 0 },
        CharacteristicInfo { uuid: LAMP_CHAR, properties: 0x08 },
    ];
    assert_eq!(find_characteristic(&chars, LAMP_CHAR).unwrap().properties, 0x08);
    match find_characteristic(&chars, 9) {
        Err(BleError::CharacteristicNotFound(u)) => {
            assert_eq!(u, "00000000-0000-0000-0000-000000000009")
        }
        other => panic!("unexpected {:?}", other.map(|c| c.uuid)),
    }
}

#[test]
fn command_lines() {
    assert!(matches!(command(" q "), CliCommand::Quit));
    assert!(matches!(command("quit"), CliCommand::Quit));
    assert!(matches!(command("chars"), CliCommand::ListCharacteristics));
    assert!(matches!(command("characteristics\n"), CliCommand::ListCharacteristics));
    match command("  ") {
        CliCommand::Send(bytes) => assert_eq!(bytes, vec![0x7e, 0x07, 0x04, 0x00, 0x05, 0x00, 0x02, 0x01, 0xef]),
        other => panic!("unexpected {:?}", other),
    }
    match command("7e 07 04 ff 05 01 02 01 ef") {
        CliCommand::Send(bytes) => assert_eq!(bytes.len(), 9),
        other => panic!("unexpected {:?}", other),
    }
    assert!(matches!(command("zz"), CliCommand::Invalid(m) if m == "无法解析十六进制数: 'zz'"));
    assert!(wants_quit(" quit\n"));
    assert!(!wants_quit("qq"));
}

#[test]
fn device_prompt_lines() {
    assert_eq!(pick("q", 3), PickInput::Quit);
    assert_eq!(pick("", 3), PickInput::Refresh);
    assert_eq!(pick(" 2 ", 3), PickInput::Choose(1));
    assert_eq!(pick("+3", 3), PickInput::Choose(2));
    assert_eq!(pick("1", 3), PickInput::Choose(0));
    assert_eq!(pick("0", 3), PickInput::Invalid);
    assert_eq!(pick("4", 3), PickInput::Invalid);
    assert_eq!(pick("+", 3), PickInput::Invalid);
    assert_eq!(pick("-1", 3), PickInput::Invalid);
    assert_eq!(pick("1x", 3), PickInput::Invalid);
    assert_eq!(pick("99999999999999999999999", 3), PickInput::Invalid);
    assert_eq!(pick("003", 3), PickInput::Choose(2));
}

#[test]
fn printed_frames_read_back() {
    let frame = Frame::pack([0x07, 0x04, 0xff, 0x05, 0x01, 0x02, 0x01]);
    assert_eq!(
        hi_my_light::cli::parse_hex_bytes(&frame.hex()),
        Ok(vec![0x7e, 0x07, 0x04, 0xff, 0x05, 0x01, 0x02, 0x01, 0xef])
    );
}

#[test]
fn equal_keys_keep_their_order() {
    let row = |name: &str, addr: &str| DeviceRow { name: name.to_string(), addr: addr.to_string(), rssi: Some(-50) };
    let mut rows = vec![row("lamp", "3"), row("Zed", "9"), row("Lamp", "1"), row("LAMP", "2")];
    sort_devices(&mut rows);
    let order: Vec<&str> = rows.iter().map(|r| r.addr.as_str()).collect();
    assert_eq!(order, vec!["3", "1", "2", "9"]);
}

#[test]
fn windows_install_paths() {
    assert_eq!(win_join_path(r"C:\Users\a", "x"), r"C:\Users\a\x");
    assert_eq!(win_join_path(r"C:\", "x"), r"C:\x");
    assert_eq!(win_join_path("C:", "x"), "C:x");
    assert_eq!(win_local_app_data(Some(r"D:\L"), Some(r"C:\Users\a")), r"D:\L");
    assert_eq!(win_local_app_data(None, Some(r"C:\Users\a")), r"C:\Users\a\AppData\Local");
    assert_eq!(win_roaming_app_data(None, Some(r"C:\Users\a")), r"C:\Users\a\AppData\Roaming");
    assert_eq!(win_roaming_app_data(None, None), ".");
    assert_eq!(win_bin_path(r"C:\L"), r"C:\L\hi-my-light\hi-my-light.exe");
    assert_eq!(win_icon_ico_path(r"C:\L"), r"C:\L\hi-my-light\hi-my-light.ico");
    assert_eq!(
        win_menu_entry_path(r"C:\R"),
        r"C:\R\Microsoft/Windows/Start Menu/Programs\HML.lnk"
    );
    assert_eq!(win_menu_bat_path(r"C:\R"), r"C:\R\Microsoft/Windows/Start Menu/Programs\HML.bat");
    assert!(win_is_menu_installed(true, false, true));
    assert!(!win_is_menu_installed(false, true, true));
    assert!(!win_is_menu_installed(true, false, false));
}

#[test]
fn windows_install_texts() {
    assert_eq!(win_menu_bat_body(r"C:\a b\x.exe"), "@echo off\r\nstart \"\" \"C:\\a b\\x.exe\"\r\n");
    assert_eq!(win_run_value(r"C:\x.exe"), "\"C:\\x.exe\" --background");
    assert_eq!(win_bat_step(false, false), BatStep::Write);
    assert_eq!(win_bat_step(true, true), BatStep::Remove);
    assert_eq!(win_bat_step(true, false), BatStep::Keep);
    assert!(win_run_value_removed(0) && win_run_value_removed(2) && !win_run_value_removed(5));
    assert_eq!(
        win_shortcut_script("l'nk", "t", "w", "i"),
        "$s = (New-Object -ComObject WScript.Shell).CreateShortcut('l''nk'); $s.TargetPath = 't'; \
         $s.WorkingDirectory = 'w'; $s.IconLocation = 'i'; $s.Save()"
    );
}

#[test]
fn rear_page_readout() {
    let c = hi_my_light::Rgb::new(0x12, 0xab, 0x0f);
    assert_eq!(rear_glow(false, RearPane::Solid, true, "", c), 0x3F3F46);
    assert_eq!(rear_glow(true, RearPane::Solid, false, "", c), 0x12ab0f);
    assert_eq!(rear_glow(true, RearPane::Motion, false, "", c), 0xFAFAFA);
    assert_eq!(rear_glow(true, RearPane::Audio, true, "暂缓", c), 0xFAFAFA);
    assert_eq!(rear_glow(true, RearPane::Audio, false, "暂缓", c), 0xD6D6DA);
    assert_eq!(rear_glow(true, RearPane::Audio, false, "静音", c), 0x3F3F46);
    assert_eq!(rear_label(RearPane::Solid, hi_my_light::Effect::AutoLoop, "", c), "12AB0F");
    assert_eq!(rear_label(RearPane::Motion, hi_my_light::Effect::AutoLoop, "", c), "自动循环");
    assert_eq!(rear_label(RearPane::Audio, hi_my_light::Effect::AutoLoop, "静音", c), "静音");
}

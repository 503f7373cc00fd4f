use hi_my_light::audio::{loud_rgb, Error as AudioError};
use hi_my_light::bridge::{sort_devices, DeviceRow};
use hi_my_light::cli::parse_hex_bytes;
use hi_my_light::desktop::{
    autostart_body, desktop_body, install_hint, install_title, ps_single_quote, shell_escape,
    Platform,
};
use hi_my_light::pending::{Pending, Slot};
use hi_my_light::preview::{horse_color, palette, wrap_index};
use hi_my_light::tray::rgba_to_argb;
use hi_my_light::{BleError, Effect, Rgb};

fn row(name: &str, rssi: Option<i16>) -> DeviceRow {
    DeviceRow { name: name.to_string(), addr: format!("addr-{name}"), rssi }
}

#[test]
fn preferred_lamp_sorts_first() {
    let mut rows = vec![
        row("Phone", Some(-40)),
        row("thunderobot l2 lamp", Some(-90)),
        row("Alpha", Some(-60)),
        row("beta", Some(-60)),
    ];
    sort_devices(&mut rows);
    let names: Vec<&str> = rows.iter().map(|r| r.name.as_str()).collect();
    assert_eq!(names, vec!["thunderobot l2 lamp", "Phone", "Alpha", "beta"]);
    assert!(rows[0].is_preferred());
    assert!(!rows[1].is_preferred());
}

#[test]
fn sort_key_parts() {
    let k = row("My THUNDEROBOT L2", Some(-55)).sort_key();
    assert_eq!(k, (0, 55, "my thunderobot l2".to_string()));
    let k = row("Other", None).sort_key();
    assert_eq!(k, (1, i16::MAX, "other".to_string()));
}

#[test]
fn parse_hex_bytes_reads_frames() {
    assert_eq!(
        parse_hex_bytes("7e 07 04 ff 05 01 02 01 ef"),
        Ok(vec![0x7e, 0x07, 0x04, 0xff, 0x05, 0x01, 0x02, 0x01, 0xef])
    );
    assert_eq!(parse_hex_bytes("  A \t +0f\n00ff "), Ok(vec![0x0a, 0x0f, 0xff]));
    assert_eq!(parse_hex_bytes("   "), Err("输入为空".to_string()));
    assert_eq!(parse_hex_bytes(""), Err("输入为空".to_string()));
    assert_eq!(parse_hex_bytes("7e zz 01"), Err("无法解析十六进制数: 'zz'".to_string()));
    assert_eq!(parse_hex_bytes("100"), Err("无法解析十六进制数: '100'".to_string()));
    assert_eq!(parse_hex_bytes("+"), Err("无法解析十六进制数: '+'".to_string()));
    assert_eq!(parse_hex_bytes("-1"), Err("无法解析十六进制数: '-1'".to_string()));
}

#[test]
fn pending_takes_in_write_order() {
    let mut p = Pending::default();
    assert!(p.is_empty());
    p.mark(Slot::RearSpeed);
    p.mark(Slot::FrontCct);
    p.mark(Slot::FrontCct);
    assert!(!p.is_empty());
    assert!(p.take_slot() == Some(Slot::FrontCct));
    assert!(p.take_slot() == Some(Slot::RearSpeed));
    assert!(p.take_slot().is_none());
    assert!(p.is_empty());
}

#[test]
fn desktop_entry_texts() {
    assert_eq!(install_title(true), "重新安装到开始菜单");
    assert_eq!(install_title(false), "安装到开始菜单");
    assert_eq!(install_hint(false, Platform::Linux), "复制到 ~/.local/bin，并加入应用菜单");
    assert_eq!(install_hint(true, Platform::Windows), "已加入本机开始菜单，点这里可覆盖更新");
    assert_eq!(shell_escape("/home/u/.local/bin/hi-my-light"), "/home/u/.local/bin/hi-my-light");
    assert_eq!(shell_escape("/home/my user/x"), "\"/home/my user/x\"");
    assert_eq!(shell_escape("/a\"b"), "\"/a\\\"b\"");
    assert_eq!(ps_single_quote("C:\\it's"), "C:\\it''s");
    let body = desktop_body("/opt/x");
    assert!(body.starts_with("[Desktop Entry]\nType=Application\n"));
    assert!(body.contains("\nExec=/opt/x\nIcon=hi-my-light\n"));
    assert!(body.ends_with("X-KDE-StartupNotify=false\n"));
    let auto = autostart_body("/opt/x y");
    assert!(auto.contains("\nExec=\"/opt/x y\" --background\n"));
    assert!(auto.contains("X-GNOME-Autostart-enabled=true\n"));
}

#[test]
fn preview_palettes() {
    assert_eq!(palette(Effect::RgbJump).len(), 3);
    assert_eq!(palette(Effect::RedYellowFade), vec![Rgb::new(0xFF, 0x8A, 0x78), Rgb::new(0xFF, 0xD6, 0x6A)]);
    assert_eq!(palette(Effect::AutoLoop).len(), 7);
    assert_eq!(horse_color(Effect::GreenHorse), Rgb::new(0x6A, 0xE0, 0xA4));
    assert_eq!(horse_color(Effect::AutoLoop), Rgb::new(0x7F, 0xB4, 0xFF));
    assert_eq!(wrap_index(-1, 7), 6);
    assert_eq!(wrap_index(-7, 7), 0);
    assert_eq!(wrap_index(15, 7), 1);
    assert_eq!(wrap_index(0, 3), 0);
}

#[test]
fn argb_reorders_pixels() {
    assert_eq!(rgba_to_argb(&[1, 2, 3, 4, 5, 6, 7, 8, 9]), vec![4, 1, 2, 3, 8, 5, 6, 7]);
    assert!(rgba_to_argb(&[1, 2]).is_empty());
}

#[test]
fn error_messages() {
    assert_eq!(BleError::NoAdapter.message(), "没有找到 BLE 适配器");
    assert_eq!(BleError::WriteFailed("x".to_string()).message(), "写入失败: x");
    assert_eq!(AudioError::Unsupported.message(), "这一系统还没有电脑音频抓取");
    assert_eq!(AudioError::Backend("boom".to_string()).message(), "boom");
    assert_eq!(loud_rgb(), Rgb::white());
}

#[test]
fn missing_signal_sorts_last() {
    let mut rows = vec![row("Quiet", None), row("Far", Some(-95)), row("Near", Some(-30))];
    sort_devices(&mut rows);
    let names: Vec<&str> = rows.iter().map(|r| r.name.as_str()).collect();
    assert_eq!(names, vec!["Near", "Far", "Quiet"]);
}

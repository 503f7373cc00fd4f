use hi_my_light::lamp::{Front, Rear, RearLook};
use hi_my_light::{Cct, Effect, Level, Rgb};

#[test]
fn front_arm_powers_once() {
    let mut front = Front::new(true, Level::from_byte(50), Cct::from_kelvin(4500));
    let first = front.arm();
    assert_eq!(first.map(|f| f.hex()), Some("7e 07 04 ff 05 01 02 01 ef".to_string()));
    assert!(front.lit);
    assert!(front.arm().is_none());
    front.extinguish();
    assert!(front.arm().is_some());
}

#[test]
fn front_arm_when_off_sends_nothing() {
    let mut front = Front::new(false, Level::from_byte(50), Cct::from_kelvin(4500));
    assert!(front.arm().is_none());
    assert!(!front.lit);
}

#[test]
fn front_wake_frames() {
    let mut front = Front::new(true, Level::from_byte(0x32), Cct::from_kelvin(4500));
    let frames: Vec<String> = front.wake_frames().into_iter().map(|f| f.hex()).collect();
    assert_eq!(
        frames,
        vec![
            "7e 07 04 ff 05 01 02 01 ef".to_string(),
            "7e 04 01 32 05 ff 02 01 ef".to_string(),
            "7e 07 05 02 32 32 02 01 ef".to_string(),
        ]
    );
    let again: Vec<String> = front.wake_frames().into_iter().map(|f| f.hex()).collect();
    assert_eq!(again.len(), 2);
    front.toggle();
    let off: Vec<String> = front.wake_frames().into_iter().map(|f| f.hex()).collect();
    assert_eq!(off, vec!["7e 07 04 00 05 00 02 01 ef".to_string()]);
    assert!(!front.lit);
}

#[test]
fn toggle_on_from_dim_comes_back_at_40() {
    let mut front = Front::new(false, Level::from_byte(5), Cct::from_kelvin(4500));
    front.toggle();
    assert!(front.on);
    assert_eq!(front.level.byte(), 40);
    front.toggle();
    assert!(!front.on);
    assert_eq!(front.level.byte(), 40);
    let mut bright = Front::new(false, Level::from_byte(8), Cct::from_kelvin(4500));
    bright.toggle();
    assert_eq!(bright.level.byte(), 8);
}

#[test]
fn set_level_turns_on() {
    let mut rear = Rear::new(false, Level::from_byte(10), RearLook::Audio, Level::from_byte(10));
    rear.set_level(Level::from_byte(77));
    assert!(rear.on);
    assert_eq!(rear.level.byte(), 77);
}

#[test]
fn rear_wake_frames_with_effect() {
    let mut rear = Rear::new(
        true,
        Level::from_byte(0x40),
        RearLook::Play(Effect::RainbowFwd),
        Level::from_byte(0x5a),
    );
    let frames: Vec<String> = rear.wake_frames().into_iter().map(|f| f.hex()).collect();
    assert_eq!(
        frames,
        vec![
            "7e 07 04 ff 01 01 02 01 ef".to_string(),
            "7e 07 03 01 06 ff ff 00 ef".to_string(),
            "7e 04 01 40 01 ff 02 01 ef".to_string(),
            "7e 07 02 5a ff ff ff 00 ef".to_string(),
        ]
    );
    rear.show_solid();
    assert_eq!(rear.look, RearLook::Solid(Rgb::new(0xE0, 0xA8, 0x5C)));
    let frames: Vec<String> = rear.wake_frames().into_iter().map(|f| f.hex()).collect();
    assert_eq!(
        frames,
        vec!["7e 07 05 03 e0 a8 5c 10 ef".to_string(), "7e 04 01 40 01 ff 02 01 ef".to_string()]
    );
}

#[test]
fn rear_audio_look_scrolls_black() {
    let mut rear = Rear::new(true, Level::from_byte(0x40), RearLook::Audio, Level::from_byte(1));
    assert_eq!(rear.look_frame().hex(), "7e 07 05 03 00 00 00 20 ef");
    rear.show_effect();
    assert_eq!(rear.look, RearLook::Play(Effect::RainbowFwd));
    assert_eq!(rear.speed_frame().hex(), "7e 07 02 01 ff ff ff 00 ef");
    assert_eq!(rear.brightness_frame().hex(), "7e 04 01 40 01 ff 02 01 ef");
}

#[test]
fn rear_memories_survive_look_switches() {
    let mut rear = Rear::new(
        true,
        Level::from_byte(40),
        RearLook::Solid(Rgb::new(1, 2, 3)),
        Level::from_byte(50),
    );
    rear.set_effect(Effect::CyanHorse);
    rear.show_solid();
    assert_eq!(rear.look, RearLook::Solid(Rgb::new(1, 2, 3)));
    rear.show_effect();
    assert_eq!(rear.look, RearLook::Play(Effect::CyanHorse));
    rear.sync_lit();
    assert!(rear.lit);
    rear.extinguish();
    assert!(!rear.lit);
}

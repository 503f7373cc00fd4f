use hi_my_light::lamp::{Front, Rear, RearLook, Scene};
use hi_my_light::session::{effect_from_byte, ClosePreference, FrontSnap, RearSnap, Session};
use hi_my_light::{Cct, Effect, Level, Rgb};

#[test]
fn solid_keeps_last_effect() {
    let mut rear = Rear::new(
        true,
        Level::from_byte(40),
        RearLook::Play(Effect::RgbJump),
        Level::from_byte(0x5a),
    )
    .with_memory(Rgb::new(0x11, 0x22, 0x33), Effect::RgbJump);
    rear.set_rgb(Rgb::new(0xAA, 0xBB, 0xCC));
    let snap = RearSnap::from_lamp(&rear);
    assert_eq!(snap.rgb, [0xAA, 0xBB, 0xCC]);
    assert_eq!(snap.effect, Some(Effect::RgbJump.byte()));
    assert_eq!(snap.playing, Some(false));
    let restored = Session { rear: snap, ..Session::default() }.rear_lamp();
    assert_eq!(restored.look, RearLook::Solid(Rgb::new(0xAA, 0xBB, 0xCC)));
    assert_eq!(restored.effect, Effect::RgbJump);
    assert_eq!(restored.solid, Rgb::new(0xAA, 0xBB, 0xCC));
}

#[test]
fn effect_keeps_last_solid() {
    let mut rear = Rear::new(
        true,
        Level::from_byte(40),
        RearLook::Solid(Rgb::new(0x11, 0x22, 0x33)),
        Level::from_byte(0x5a),
    );
    rear.set_effect(Effect::BlueHorse);
    let snap = RearSnap::from_lamp(&rear);
    assert_eq!(snap.rgb, [0x11, 0x22, 0x33]);
    assert_eq!(snap.effect, Some(Effect::BlueHorse.byte()));
    assert_eq!(snap.playing, Some(true));
    let restored = Session { rear: snap, ..Session::default() }.rear_lamp();
    assert_eq!(restored.look, RearLook::Play(Effect::BlueHorse));
    assert_eq!(restored.solid, Rgb::new(0x11, 0x22, 0x33));
}

fn field_u8(v: &serde_json::Value, key: &str, default: u8) -> u8 {
    v.get(key).and_then(|x| x.as_u64()).map(|x| x as u8).unwrap_or(default)
}

#[test]
fn legacy_effect_without_playing_is_motion() {
    let json = r#"{"on":true,"level":48,"rgb":[1,2,3],"effect":193,"speed":90}"#;
    let v: serde_json::Value = serde_json::from_str(json).unwrap();
    let defaults = RearSnap::default();
    let rgb: Vec<u8> = v["rgb"].as_array().unwrap().iter().map(|x| x.as_u64().unwrap() as u8).collect();
    let snap = RearSnap {
        on: v["on"].as_bool().unwrap(),
        level: field_u8(&v, "level", defaults.level),
        rgb: [rgb[0], rgb[1], rgb[2]],
        effect: v.get("effect").and_then(|x| x.as_u64()).map(|x| x as u8),
        playing: v.get("playing").and_then(|x| x.as_bool()),
        speed: field_u8(&v, "speed", defaults.speed),
        audio: v.get("audio").and_then(|x| x.as_bool()).unwrap_or(false),
        audio_sensitivity: field_u8(&v, "audio_sensitivity", defaults.audio_sensitivity),
        audio_dynamic: v.get("audio_dynamic").and_then(|x| x.as_bool()).unwrap_or(false),
    };
    let restored = Session { rear: snap, ..Session::default() }.rear_lamp();
    assert_eq!(restored.look, RearLook::Play(Effect::RainbowJump));
    assert_eq!(restored.solid, Rgb::new(1, 2, 3));
}

#[test]
fn audio_look_roundtrip() {
    let mut rear = Rear::new(
        true,
        Level::from_byte(40),
        RearLook::Solid(Rgb::new(0x11, 0x22, 0x33)),
        Level::from_byte(0x5a),
    );
    rear.show_audio();
    let snap = RearSnap::from_lamp(&rear);
    assert!(snap.audio);
    assert_eq!(snap.playing, Some(false));
    let restored = Session { rear: snap, ..Session::default() }.rear_lamp();
    assert_eq!(restored.look, RearLook::Audio);
    assert_eq!(restored.solid, Rgb::new(0x11, 0x22, 0x33));
}

#[test]
fn front_snapshot_roundtrip() {
    let mut front = Front::new(true, Level::from_byte(70), Cct::from_kelvin(5200));
    front.toggle();
    let snap = FrontSnap::from_lamp(&front);
    assert_eq!(snap, FrontSnap { on: false, level: 70, kelvin: 5200 });
    let restored = Session { front: snap, ..Session::default() }.front_lamp();
    assert_eq!(restored.on, false);
    assert_eq!(restored.level, Level::from_byte(70));
    assert_eq!(restored.cct, Cct::from_kelvin(5200));
    assert!(!restored.lit);
}

#[test]
fn defaults_match_first_run() {
    let s = Session::default();
    assert_eq!(s.last_addr, None);
    assert_eq!(s.close_preference, ClosePreference::Ask);
    assert!(s.off_on_shutdown);
    assert_eq!(s.front, FrontSnap { on: true, level: 48, kelvin: 4500 });
    assert_eq!(s.rear.rgb, [0xE0, 0xA8, 0x5C]);
    assert_eq!(s.rear.speed, 0x5a);
    let rear = s.rear_lamp();
    assert_eq!(rear.look, RearLook::Solid(Rgb::new(0xE0, 0xA8, 0x5C)));
    assert_eq!(rear.effect, Effect::RainbowFwd);
    assert_eq!(rear.speed.byte(), 0x5a);
    assert_eq!(ClosePreference::default(), ClosePreference::Ask);
}

#[test]
fn unknown_effect_byte_falls_back_to_rainbow() {
    assert_eq!(effect_from_byte(0x03), None);
    assert_eq!(effect_from_byte(0xc1), Some(Effect::RainbowJump));
    let snap = RearSnap { effect: Some(0x03), playing: Some(true), ..RearSnap::default() };
    let rear = Session { rear: snap, ..Session::default() }.rear_lamp();
    assert_eq!(rear.look, RearLook::Play(Effect::RainbowFwd));
}

#[test]
fn scenes_presets() {
    let scenes = Scene::scenes();
    assert_eq!(scenes[0].id, "night");
    assert_eq!(scenes[1].level.byte(), 62);
    assert_eq!(scenes[2].cct.kelvin(), 5000);
}

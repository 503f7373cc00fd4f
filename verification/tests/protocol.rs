use hi_my_light::protocol::cct::WhiteMix;
use hi_my_light::{
    Brightness, Cct, Channel, Clock, Command, Effect, EffectGroup, Frame, Level, Power, Query,
    Rgb, Speed, Switch,
};

#[test]
fn wraps_head_and_tail() {
    let frame = Frame::pack([0x04, 0x01, 0x64, 0x05, 0xff, 0x02, 0x01]);
    assert_eq!(frame.bytes()[0], 0x7e);
    assert_eq!(frame.bytes()[8], 0xef);
    assert_eq!(frame.hex(), "7e 04 01 64 05 ff 02 01 ef");
}

#[test]
fn bytes_match_capture() {
    assert_eq!(Channel::Rear.byte(), 0x01);
    assert_eq!(Channel::Front.byte(), 0x05);
}

#[test]
fn brightness_captured_extrema() {
    assert_eq!(
        Brightness::new(Channel::Front, Level::min_level()).frame().hex(),
        "7e 04 01 01 05 ff 02 01 ef"
    );
    assert_eq!(
        Brightness::new(Channel::Front, Level::max_level()).frame().hex(),
        "7e 04 01 64 05 ff 02 01 ef"
    );
    assert_eq!(
        Brightness::new(Channel::Rear, Level::min_level()).frame().hex(),
        "7e 04 01 01 01 ff 02 01 ef"
    );
    assert_eq!(
        Brightness::new(Channel::Rear, Level::max_level()).frame().hex(),
        "7e 04 01 64 01 ff 02 01 ef"
    );
}

#[test]
fn speed_captured_extrema() {
    assert_eq!(Speed::new(Level::min_level()).frame().hex(), "7e 07 02 01 ff ff ff 00 ef");
    assert_eq!(Speed::new(Level::max_level()).frame().hex(), "7e 07 02 64 ff ff ff 00 ef");
}

#[test]
fn captured_front_and_rear() {
    assert_eq!(Power::off(Channel::Front).frame().hex(), "7e 07 04 00 05 00 02 01 ef");
    assert_eq!(Power::on(Channel::Front).frame().hex(), "7e 07 04 ff 05 01 02 01 ef");
    assert_eq!(Power::off(Channel::Rear).frame().hex(), "7e 07 04 00 01 00 02 01 ef");
    assert_eq!(Power::on(Channel::Rear).frame().hex(), "7e 07 04 ff 01 01 02 01 ef");
}

#[test]
fn cct_captured_presets() {
    assert_eq!(Cct::from_kelvin(3000).frame().hex(), "7e 07 05 02 64 00 02 01 ef");
    assert_eq!(Cct::from_kelvin(4000).frame().hex(), "7e 07 05 02 4b 19 02 01 ef");
    assert_eq!(Cct::from_kelvin(4500).frame().hex(), "7e 07 05 02 32 32 02 01 ef");
    assert_eq!(Cct::from_kelvin(5000).frame().hex(), "7e 07 05 02 19 4b 02 01 ef");
    assert_eq!(Cct::from_kelvin(6000).frame().hex(), "7e 07 05 02 00 64 02 01 ef");
}

#[test]
fn mix_always_sums_to_100() {
    for k in (3000..=6000).step_by(50) {
        let mix = Cct::from_kelvin(k).mix();
        assert_eq!(mix.warm() + mix.cool(), 0x64);
    }
}

#[test]
fn rgb_captured_presets() {
    assert_eq!(Rgb::red().frame().hex(), "7e 07 05 03 ff 00 00 10 ef");
    assert_eq!(Rgb::green().frame().hex(), "7e 07 05 03 00 ff 00 10 ef");
    assert_eq!(Rgb::blue().frame().hex(), "7e 07 05 03 00 00 ff 10 ef");
    assert_eq!(Rgb::cyan().frame().hex(), "7e 07 05 03 00 ff ff 10 ef");
    assert_eq!(Rgb::yellow().frame().hex(), "7e 07 05 03 ff ff 00 10 ef");
    assert_eq!(Rgb::white().frame().hex(), "7e 07 05 03 ff ff ff 10 ef");
}

#[test]
fn captured_rainbow() {
    assert_eq!(Effect::RainbowFwd.frame().hex(), "7e 07 03 01 06 ff ff 00 ef");
    assert_eq!(Effect::RainbowRev.frame().hex(), "7e 07 03 02 06 ff ff 00 ef");
    assert_eq!(Effect::AutoLoop.frame().hex(), "7e 07 03 00 06 ff ff 00 ef");
}

#[test]
fn all_unique() {
    let mut bytes: Vec<u8> = Effect::all().iter().map(|e| e.byte()).collect();
    bytes.sort();
    bytes.dedup();
    assert_eq!(bytes.len(), Effect::all().len());
}

#[test]
fn query_matches_capture() {
    assert_eq!(Query.frame().hex(), "7e 07 ea 02 01 ff ff 00 ef");
}

#[test]
fn clock_layout() {
    let clock = Clock { hour: 0x17, minute: 0x2c, second: 0x00 };
    assert_eq!(clock.frame().hex(), "7e 06 83 17 2c 00 06 00 ef");
}

#[test]
fn clock_fields_are_capped() {
    let clock = Clock { hour: 99, minute: 200, second: 60 };
    assert_eq!(clock.frame().hex(), "7e 06 83 17 3b 3b 06 00 ef");
}

#[test]
fn level_clamps_bytes() {
    assert_eq!(Level::from_byte(0).byte(), 0x01);
    assert_eq!(Level::from_byte(1).byte(), 0x01);
    assert_eq!(Level::from_byte(0x64).byte(), 0x64);
    assert_eq!(Level::from_byte(0x65).byte(), 0x64);
    assert_eq!(Level::from_byte(255).byte(), 0x64);
    assert_eq!(Level::from_byte(Level::from_byte(37).byte()).byte(), 37);
    assert_eq!(Level::default().byte(), 48);
}

#[test]
fn cct_clamps_and_interpolates() {
    assert_eq!(Cct::from_kelvin(0).kelvin(), 3000);
    assert_eq!(Cct::from_kelvin(9000).kelvin(), 6000);
    assert_eq!(Cct::from_kelvin(3020).mix().warm(), 100);
    assert_eq!(Cct::from_kelvin(3060).mix().warm(), 99);
    assert_eq!(Cct::from_kelvin(5540).mix().warm(), 11);
    assert_eq!(Cct::from_kelvin(5580).mix().warm(), 11);
    assert_eq!(Cct::from_kelvin(5500).mix().warm(), 13);
    assert_eq!(Cct::from_kelvin(4250).mix().cool(), 100 - 63);
}

#[test]
fn white_mix_caps_warm_share() {
    let mix = WhiteMix::from_warm(200);
    assert_eq!(mix.warm(), 0x64);
    assert_eq!(mix.cool(), 0);
    assert_eq!(WhiteMix::from_warm(0x30).frame().hex(), "7e 07 05 02 30 34 02 01 ef");
}

#[test]
fn scroll_frame_layout() {
    assert_eq!(Rgb::black().scroll_frame().hex(), "7e 07 05 03 00 00 00 20 ef");
    assert_eq!(Rgb::new(1, 2, 3).scroll_frame().hex(), "7e 07 05 03 01 02 03 20 ef");
}

#[test]
fn packed_is_rrggbb() {
    assert_eq!(Rgb::new(0x12, 0x34, 0x56).packed(), 0x123456);
    assert_eq!(Rgb::purple().packed(), 0xc000ff);
}

#[test]
fn command_dispatches_to_frames() {
    assert_eq!(Command::front_on().frame().hex(), "7e 07 04 ff 05 01 02 01 ef");
    assert_eq!(Command::rear_off().frame().hex(), "7e 07 04 00 01 00 02 01 ef");
    assert_eq!(Command::power(Channel::Rear, true).frame().hex(), "7e 07 04 ff 01 01 02 01 ef");
    assert_eq!(
        Command::brightness(Channel::Front, Level::from_byte(0x32)).frame().hex(),
        "7e 04 01 32 05 ff 02 01 ef"
    );
    assert_eq!(Command::Effect(Effect::RgbJump).frame().hex(), "7e 07 03 c2 06 ff ff 00 ef");
    assert_eq!(Command::Query(Query).frame().hex(), Query.frame().hex());
    assert_eq!(Command::front_off(), Command::Power(Power::off(Channel::Front)));
    assert_eq!(Command::rear_on(), Command::Power(Power::on(Channel::Rear)));
}

#[test]
fn switch_bytes() {
    assert_eq!(Switch::On.xx(), 0xff);
    assert_eq!(Switch::Off.xx(), 0x00);
    assert_eq!(Switch::On.yy(), 0x01);
    assert!(Switch::On.is_on());
    assert!(!Switch::Off.is_on());
}

#[test]
fn effect_groups_and_names() {
    assert_eq!(Effect::BlueHorse.group(), EffectGroup::Horse);
    assert_eq!(Effect::YcmBrushOpen.group(), EffectGroup::Brush);
    assert_eq!(Effect::AutoLoop.name(), "自动循环");
    assert_eq!(Effect::RainbowJump.byte(), 193);
    assert_eq!(EffectGroup::Drift.name(), "飘动");
    assert_eq!(EffectGroup::all().len(), 6);
    assert_eq!(Effect::all()[0], Effect::AutoLoop);
    assert_eq!(Effect::all()[46], Effect::YcmBrushOpen);
}

#[test]
fn rgb_presets_listed() {
    let presets = Rgb::presets();
    assert_eq!(presets.len(), 6);
    assert_eq!(presets[1], ("琥珀", Rgb::new(0xE0, 0xA8, 0x5C)));
    assert_eq!(presets[5].1, Rgb::white());
}

#[test]
fn effect_names_are_distinct() {
    let all = Effect::all();
    for (i, a) in all.iter().enumerate() {
        assert!(!a.name().is_empty());
        for b in &all[i + 1..] {
            assert_ne!(a.name(), b.name());
        }
    }
    assert_eq!(Effect::AutoLoop.name(), "自动循环");
    assert_eq!(Effect::RainbowJump.name(), "七彩跳变");
}

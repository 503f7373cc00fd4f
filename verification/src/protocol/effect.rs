use vstd::prelude::*;

use super::Frame;
use super::frame::framed;

verus! {

/// Families the basic effects are grouped into.
#[derive(Clone, Copy, Debug, PartialEq, Eq, Hash, Structural)]
pub enum EffectGroup {
    Rainbow,
    Jump,
    Horse,
    Follow,
    Drift,
    Brush,
}

impl EffectGroup {
    /// Display label of the group.
    pub open spec fn spec_name(self) -> Seq<char> {
        match self {
            EffectGroup::Rainbow => "幻彩"@,
            EffectGroup::Jump => "跳变"@,
            EffectGroup::Horse => "跑马"@,
            EffectGroup::Follow => "追光"@,
            EffectGroup::Drift => "飘动"@,
            EffectGroup::Brush => "刷色"@,
        }
    }

    /// Every group, in display order.
    pub fn all() -> (v: Vec<EffectGroup>)
        ensures
            v@ == seq![EffectGroup::Rainbow, EffectGroup::Jump, EffectGroup::Horse, EffectGroup::Follow, EffectGroup::Drift, EffectGroup::Brush],
    {
        let mut v = Vec::new();
        v.push(EffectGroup::Rainbow);
        v.push(EffectGroup::Jump);
        v.push(EffectGroup::Horse);
        v.push(EffectGroup::Follow);
        v.push(EffectGroup::Drift);
        v.push(EffectGroup::Brush);
        v
    }

    pub fn name(self) -> (s: &'static str)
        ensures
            s@ == self.spec_name(),
    {
        match self {
            EffectGroup::Rainbow => "幻彩",
            EffectGroup::Jump => "跳变",
            EffectGroup::Horse => "跑马",
            EffectGroup::Follow => "追光",
            EffectGroup::Drift => "飘动",
            EffectGroup::Brush => "刷色",
        }
    }
}

/// Basic rear effects. The mode byte is written third in the payload; the fourth byte is always `06`.
#[derive(Clone, Copy, Debug, PartialEq, Eq, Hash, Structural)]
pub enum Effect {
    AutoLoop,
    RainbowFwd,
    RainbowRev,
    RainbowEnergy,
    RainbowJump,
    RgbJump,
    YcmJump,
    RainbowStrobe,
    RgbStrobe,
    YcmStrobe,
    SevenFade,
    RedYellowFade,
    RedPurpleFade,
    GreenCyanFade,
    GreenYellowFade,
    BluePurpleFade,
    RedHorse,
    GreenHorse,
    BlueHorse,
    YellowHorse,
    CyanHorse,
    PurpleHorse,
    WhiteHorse,
    RainbowFollowFwd,
    RainbowFollowRev,
    RgbFollowFwd,
    RgbFollowRev,
    YcmFollowFwd,
    YcmFollowRev,
    RainbowDriftFwd,
    RainbowDriftRev,
    RgbDriftFwd,
    RgbDriftRev,
    YcmDriftFwd,
    YcmDriftRev,
    RainbowBrushFwd,
    RainbowBrushRev,
    RgbBrushFwd,
    RgbBrushRev,
    YcmBrushFwd,
    YcmBrushRev,
    RainbowBrushClose,
    RainbowBrushOpen,
    RgbBrushClose,
    RgbBrushOpen,
    YcmBrushClose,
    YcmBrushOpen,
}

/// The effect whose mode byte is `byte`, if any.
pub open spec fn effect_with_byte(byte: u8) -> Option<Effect> {
    if byte == 0x00 {
        Some(Effect::AutoLoop)
    } else if byte == 0x01 {
        Some(Effect::RainbowFwd)
    } else if byte == 0x02 {
        Some(Effect::RainbowRev)
    } else if byte == 0xd4 {
        Some(Effect::RainbowEnergy)
    } else if byte == 0xc1 {
        Some(Effect::RainbowJump)
    } else if byte == 0xc2 {
        Some(Effect::RgbJump)
    } else if byte == 0xc3 {
        Some(Effect::YcmJump)
    } else if byte == 0xc4 {
        Some(Effect::RainbowStrobe)
    } else if byte == 0xc5 {
        Some(Effect::RgbStrobe)
    } else if byte == 0xc6 {
        Some(Effect::YcmStrobe)
    } else if byte == 0xc7 {
        Some(Effect::SevenFade)
    } else if byte == 0xc8 {
        Some(Effect::RedYellowFade)
    } else if byte == 0xc9 {
        Some(Effect::RedPurpleFade)
    } else if byte == 0xca {
        Some(Effect::GreenCyanFade)
    } else if byte == 0xcb {
        Some(Effect::GreenYellowFade)
    } else if byte == 0xcc {
        Some(Effect::BluePurpleFade)
    } else if byte == 0xcd {
        Some(Effect::RedHorse)
    } else if byte == 0xce {
        Some(Effect::GreenHorse)
    } else if byte == 0xcf {
        Some(Effect::BlueHorse)
    } else if byte == 0xd0 {
        Some(Effect::YellowHorse)
    } else if byte == 0xd1 {
        Some(Effect::CyanHorse)
    } else if byte == 0xd2 {
        Some(Effect::PurpleHorse)
    } else if byte == 0xd3 {
        Some(Effect::WhiteHorse)
    } else if byte == 0x4d {
        Some(Effect::RainbowFollowFwd)
    } else if byte == 0x4e {
        Some(Effect::RainbowFollowRev)
    } else if byte == 0x4f {
        Some(Effect::RgbFollowFwd)
    } else if byte == 0x50 {
        Some(Effect::RgbFollowRev)
    } else if byte == 0x51 {
        Some(Effect::YcmFollowFwd)
    } else if byte == 0x52 {
        Some(Effect::YcmFollowRev)
    } else if byte == 0x53 {
        Some(Effect::RainbowDriftFwd)
    } else if byte == 0x54 {
        Some(Effect::RainbowDriftRev)
    } else if byte == 0x55 {
        Some(Effect::RgbDriftFwd)
    } else if byte == 0x56 {
        Some(Effect::RgbDriftRev)
    } else if byte == 0x57 {
        Some(Effect::YcmDriftFwd)
    } else if byte == 0x58 {
        Some(Effect::YcmDriftRev)
    } else if byte == 0xb5 {
        Some(Effect::RainbowBrushFwd)
    } else if byte == 0xb6 {
        Some(Effect::RainbowBrushRev)
    } else if byte == 0xb7 {
        Some(Effect::RgbBrushFwd)
    } else if byte == 0xb8 {
        Some(Effect::RgbBrushRev)
    } else if byte == 0xb9 {
        Some(Effect::YcmBrushFwd)
    } else if byte == 0xba {
        Some(Effect::YcmBrushRev)
    } else if byte == 0xbb {
        Some(Effect::RainbowBrushClose)
    } else if byte == 0xbc {
        Some(Effect::RainbowBrushOpen)
    } else if byte == 0xbd {
        Some(Effect::RgbBrushClose)
    } else if byte == 0xbe {
        Some(Effect::RgbBrushOpen)
    } else if byte == 0xbf {
        Some(Effect::YcmBrushClose)
    } else if byte == 0xc0 {
        Some(Effect::YcmBrushOpen)
    } else {
        None
    }
}

impl Effect {
    /// Mode byte of the effect.
    pub open spec fn spec_byte(self) -> u8 {
        match self {
            Effect::AutoLoop => 0x00,
            Effect::RainbowFwd => 0x01,
            Effect::RainbowRev => 0x02,
            Effect::RainbowEnergy => 0xd4,
            Effect::RainbowJump => 0xc1,
            Effect::RgbJump => 0xc2,
            Effect::YcmJump => 0xc3,
            Effect::RainbowStrobe => 0xc4,
            Effect::RgbStrobe => 0xc5,
            Effect::YcmStrobe => 0xc6,
            Effect::SevenFade => 0xc7,
            Effect::RedYellowFade => 0xc8,
            Effect::RedPurpleFade => 0xc9,
            Effect::GreenCyanFade => 0xca,
            Effect::GreenYellowFade => 0xcb,
            Effect::BluePurpleFade => 0xcc,
            Effect::RedHorse => 0xcd,
            Effect::GreenHorse => 0xce,
            Effect::BlueHorse => 0xcf,
            Effect::YellowHorse => 0xd0,
            Effect::CyanHorse => 0xd1,
            Effect::PurpleHorse => 0xd2,
            Effect::WhiteHorse => 0xd3,
            Effect::RainbowFollowFwd => 0x4d,
            Effect::RainbowFollowRev => 0x4e,
            Effect::RgbFollowFwd => 0x4f,
            Effect::RgbFollowRev => 0x50,
            Effect::YcmFollowFwd => 0x51,
            Effect::YcmFollowRev => 0x52,
            Effect::RainbowDriftFwd => 0x53,
            Effect::RainbowDriftRev => 0x54,
            Effect::RgbDriftFwd => 0x55,
            Effect::RgbDriftRev => 0x56,
            Effect::YcmDriftFwd => 0x57,
            Effect::YcmDriftRev => 0x58,
            Effect::RainbowBrushFwd => 0xb5,
            Effect::RainbowBrushRev => 0xb6,
            Effect::RgbBrushFwd => 0xb7,
            Effect::RgbBrushRev => 0xb8,
            Effect::YcmBrushFwd => 0xb9,
            Effect::YcmBrushRev => 0xba,
            Effect::RainbowBrushClose => 0xbb,
            Effect::RainbowBrushOpen => 0xbc,
            Effect::RgbBrushClose => 0xbd,
            Effect::RgbBrushOpen => 0xbe,
            Effect::YcmBrushClose => 0xbf,
            Effect::YcmBrushOpen => 0xc0,
        }
    }

    pub open spec fn spec_group(self) -> EffectGroup {
        match self {
            Effect::AutoLoop => EffectGroup::Rainbow,
            Effect::RainbowFwd => EffectGroup::Rainbow,
            Effect::RainbowRev => EffectGroup::Rainbow,
            Effect::RainbowEnergy => EffectGroup::Rainbow,
            Effect::RainbowJump => EffectGroup::Jump,
            Effect::RgbJump => EffectGroup::Jump,
            Effect::YcmJump => EffectGroup::Jump,
            Effect::RainbowStrobe => EffectGroup::Jump,
            Effect::RgbStrobe => EffectGroup::Jump,
            Effect::YcmStrobe => EffectGroup::Jump,
            Effect::SevenFade => EffectGroup::Jump,
            Effect::RedYellowFade => EffectGroup::Jump,
            Effect::RedPurpleFade => EffectGroup::Jump,
            Effect::GreenCyanFade => EffectGroup::Jump,
            Effect::GreenYellowFade => EffectGroup::Jump,
            Effect::BluePurpleFade => EffectGroup::Jump,
            Effect::RedHorse => EffectGroup::Horse,
            Effect::GreenHorse => EffectGroup::Horse,
            Effect::BlueHorse => EffectGroup::Horse,
            Effect::YellowHorse => EffectGroup::Horse,
            Effect::CyanHorse => EffectGroup::Horse,
            Effect::PurpleHorse => EffectGroup::Horse,
            Effect::WhiteHorse => EffectGroup::Horse,
            Effect::RainbowFollowFwd => EffectGroup::Follow,
            Effect::RainbowFollowRev => EffectGroup::Follow,
            Effect::RgbFollowFwd => EffectGroup::Follow,
            Effect::RgbFollowRev => EffectGroup::Follow,
            Effect::YcmFollowFwd => EffectGroup::Follow,
            Effect::YcmFollowRev => EffectGroup::Follow,
            Effect::RainbowDriftFwd => EffectGroup::Drift,
            Effect::RainbowDriftRev => EffectGroup::Drift,
            Effect::RgbDriftFwd => EffectGroup::Drift,
            Effect::RgbDriftRev => EffectGroup::Drift,
            Effect::YcmDriftFwd => EffectGroup::Drift,
            Effect::YcmDriftRev => EffectGroup::Drift,
            Effect::RainbowBrushFwd => EffectGroup::Brush,
            Effect::RainbowBrushRev => EffectGroup::Brush,
            Effect::RgbBrushFwd => EffectGroup::Brush,
            Effect::RgbBrushRev => EffectGroup::Brush,
            Effect::YcmBrushFwd => EffectGroup::Brush,
            Effect::YcmBrushRev => EffectGroup::Brush,
            Effect::RainbowBrushClose => EffectGroup::Brush,
            Effect::RainbowBrushOpen => EffectGroup::Brush,
            Effect::RgbBrushClose => EffectGroup::Brush,
            Effect::RgbBrushOpen => EffectGroup::Brush,
            Effect::YcmBrushClose => EffectGroup::Brush,
            Effect::YcmBrushOpen => EffectGroup::Brush,
        }
    }

    /// Display label of the effect.
    pub open spec fn spec_name(self) -> Seq<char> {
        match self {
            Effect::AutoLoop => "自动循环"@,
            Effect::RainbowFwd => "正向幻彩"@,
            Effect::RainbowRev => "反向幻彩"@,
            Effect::RainbowEnergy => "七彩能量"@,
            Effect::RainbowJump => "七彩跳变"@,
            Effect::RgbJump => "红绿蓝跳变"@,
            Effect::YcmJump => "黄青紫跳变"@,
            Effect::RainbowStrobe => "七彩频闪"@,
            Effect::RgbStrobe => "红绿蓝频闪"@,
            Effect::YcmStrobe => "黄青紫频闪"@,
            Effect::SevenFade => "七色渐变"@,
            Effect::RedYellowFade => "红黄交替渐变"@,
            Effect::RedPurpleFade => "红紫交替渐变"@,
            Effect::GreenCyanFade => "绿青交替渐变"@,
            Effect::GreenYellowFade => "绿黄交替渐变"@,
            Effect::BluePurpleFade => "蓝紫交替渐变"@,
            Effect::RedHorse => "红色跑马"@,
            Effect::GreenHorse => "绿色跑马"@,
            Effect::BlueHorse => "蓝色跑马"@,
            Effect::YellowHorse => "黄色跑马"@,
            Effect::CyanHorse => "青色跑马"@,
            Effect::PurpleHorse => "紫色跑马"@,
            Effect::WhiteHorse => "白色跑马"@,
            Effect::RainbowFollowFwd => "正向七彩追光"@,
            Effect::RainbowFollowRev => "反向七彩追光"@,
            Effect::RgbFollowFwd => "正向红绿蓝追光"@,
            Effect::RgbFollowRev => "反向红绿蓝追光"@,
            Effect::YcmFollowFwd => "正向黄青紫追光"@,
            Effect::YcmFollowRev => "反向黄青紫追光"@,
            Effect::RainbowDriftFwd => "正向七彩飘动"@,
            Effect::RainbowDriftRev => "反向七彩飘动"@,
            Effect::RgbDriftFwd => "正向红绿蓝飘动"@,
            Effect::RgbDriftRev => "反向红绿蓝飘动"@,
            Effect::YcmDriftFwd => "正向黄青紫飘动"@,
            Effect::YcmDriftRev => "反向黄青紫飘动"@,
            Effect::RainbowBrushFwd => "正向七彩刷色"@,
            Effect::RainbowBrushRev => "反向七彩刷色"@,
            Effect::RgbBrushFwd => "正向红绿蓝刷色"@,
            Effect::RgbBrushRev => "反向红绿蓝刷色"@,
            Effect::YcmBrushFwd => "正向黄青紫刷色"@,
            Effect::YcmBrushRev => "反向黄青紫刷色"@,
            Effect::RainbowBrushClose => "七彩刷色闭幕"@,
            Effect::RainbowBrushOpen => "七彩刷色拉幕"@,
            Effect::RgbBrushClose => "红绿蓝刷色闭幕"@,
            Effect::RgbBrushOpen => "红绿蓝刷色拉幕"@,
            Effect::YcmBrushClose => "黄青紫刷色闭幕"@,
            Effect::YcmBrushOpen => "黄青紫刷色拉幕"@,
        }
    }

    /// Every effect, in display order.
    pub open spec fn spec_all() -> Seq<Effect> {
        seq![
            Effect::AutoLoop,
            Effect::RainbowFwd,
            Effect::RainbowRev,
            Effect::RainbowEnergy,
            Effect::RainbowJump,
            Effect::RgbJump,
            Effect::YcmJump,
            Effect::RainbowStrobe,
            Effect::RgbStrobe,
            Effect::YcmStrobe,
            Effect::SevenFade,
            Effect::RedYellowFade,
            Effect::RedPurpleFade,
            Effect::GreenCyanFade,
            Effect::GreenYellowFade,
            Effect::BluePurpleFade,
            Effect::RedHorse,
            Effect::GreenHorse,
            Effect::BlueHorse,
            Effect::YellowHorse,
            Effect::CyanHorse,
            Effect::PurpleHorse,
            Effect::WhiteHorse,
            Effect::RainbowFollowFwd,
            Effect::RainbowFollowRev,
            Effect::RgbFollowFwd,
            Effect::RgbFollowRev,
            Effect::YcmFollowFwd,
            Effect::YcmFollowRev,
            Effect::RainbowDriftFwd,
            Effect::RainbowDriftRev,
            Effect::RgbDriftFwd,
            Effect::RgbDriftRev,
            Effect::YcmDriftFwd,
            Effect::YcmDriftRev,
            Effect::RainbowBrushFwd,
            Effect::RainbowBrushRev,
            Effect::RgbBrushFwd,
            Effect::RgbBrushRev,
            Effect::YcmBrushFwd,
            Effect::YcmBrushRev,
            Effect::RainbowBrushClose,
            Effect::RainbowBrushOpen,
            Effect::RgbBrushClose,
            Effect::RgbBrushOpen,
            Effect::YcmBrushClose,
            Effect::YcmBrushOpen,
        ]
    }

    pub fn all() -> (v: [Effect; 47])
        ensures
            v@ == Self::spec_all(),
    {
        let v = [
            Effect::AutoLoop,
            Effect::RainbowFwd,
            Effect::RainbowRev,
            Effect::RainbowEnergy,
            Effect::RainbowJump,
            Effect::RgbJump,
            Effect::YcmJump,
            Effect::RainbowStrobe,
            Effect::RgbStrobe,
            Effect::YcmStrobe,
            Effect::SevenFade,
            Effect::RedYellowFade,
            Effect::RedPurpleFade,
            Effect::GreenCyanFade,
            Effect::GreenYellowFade,
            Effect::BluePurpleFade,
            Effect::RedHorse,
            Effect::GreenHorse,
            Effect::BlueHorse,
            Effect::YellowHorse,
            Effect::CyanHorse,
            Effect::PurpleHorse,
            Effect::WhiteHorse,
            Effect::RainbowFollowFwd,
            Effect::RainbowFollowRev,
            Effect::RgbFollowFwd,
            Effect::RgbFollowRev,
            Effect::YcmFollowFwd,
            Effect::YcmFollowRev,
            Effect::RainbowDriftFwd,
            Effect::RainbowDriftRev,
            Effect::RgbDriftFwd,
            Effect::RgbDriftRev,
            Effect::YcmDriftFwd,
            Effect::YcmDriftRev,
            Effect::RainbowBrushFwd,
            Effect::RainbowBrushRev,
            Effect::RgbBrushFwd,
            Effect::RgbBrushRev,
            Effect::YcmBrushFwd,
            Effect::YcmBrushRev,
            Effect::RainbowBrushClose,
            Effect::RainbowBrushOpen,
            Effect::RgbBrushClose,
            Effect::RgbBrushOpen,
            Effect::YcmBrushClose,
            Effect::YcmBrushOpen,
        ];
        assert(v@ =~= Self::spec_all());
        v
    }

    pub fn byte(self) -> (b: u8)
        ensures
            b == self.spec_byte(),
    {
        match self {
            Effect::AutoLoop => 0x00,
            Effect::RainbowFwd => 0x01,
            Effect::RainbowRev => 0x02,
            Effect::RainbowEnergy => 0xd4,
            Effect::RainbowJump => 0xc1,
            Effect::RgbJump => 0xc2,
            Effect::YcmJump => 0xc3,
            Effect::RainbowStrobe => 0xc4,
            Effect::RgbStrobe => 0xc5,
            Effect::YcmStrobe => 0xc6,
            Effect::SevenFade => 0xc7,
            Effect::RedYellowFade => 0xc8,
            Effect::RedPurpleFade => 0xc9,
            Effect::GreenCyanFade => 0xca,
            Effect::GreenYellowFade => 0xcb,
            Effect::BluePurpleFade => 0xcc,
            Effect::RedHorse => 0xcd,
            Effect::GreenHorse => 0xce,
            Effect::BlueHorse => 0xcf,
            Effect::YellowHorse => 0xd0,
            Effect::CyanHorse => 0xd1,
            Effect::PurpleHorse => 0xd2,
            Effect::WhiteHorse => 0xd3,
            Effect::RainbowFollowFwd => 0x4d,
            Effect::RainbowFollowRev => 0x4e,
            Effect::RgbFollowFwd => 0x4f,
            Effect::RgbFollowRev => 0x50,
            Effect::YcmFollowFwd => 0x51,
            Effect::YcmFollowRev => 0x52,
            Effect::RainbowDriftFwd => 0x53,
            Effect::RainbowDriftRev => 0x54,
            Effect::RgbDriftFwd => 0x55,
            Effect::RgbDriftRev => 0x56,
            Effect::YcmDriftFwd => 0x57,
            Effect::YcmDriftRev => 0x58,
            Effect::RainbowBrushFwd => 0xb5,
            Effect::RainbowBrushRev => 0xb6,
            Effect::RgbBrushFwd => 0xb7,
            Effect::RgbBrushRev => 0xb8,
            Effect::YcmBrushFwd => 0xb9,
            Effect::YcmBrushRev => 0xba,
            Effect::RainbowBrushClose => 0xbb,
            Effect::RainbowBrushOpen => 0xbc,
            Effect::RgbBrushClose => 0xbd,
            Effect::RgbBrushOpen => 0xbe,
            Effect::YcmBrushClose => 0xbf,
            Effect::YcmBrushOpen => 0xc0,
        }
    }

    pub fn group(self) -> (g: EffectGroup)
        ensures
            g == self.spec_group(),
    {
        match self {
            Effect::AutoLoop => EffectGroup::Rainbow,
            Effect::RainbowFwd => EffectGroup::Rainbow,
            Effect::RainbowRev => EffectGroup::Rainbow,
            Effect::RainbowEnergy => EffectGroup::Rainbow,
            Effect::RainbowJump => EffectGroup::Jump,
            Effect::RgbJump => EffectGroup::Jump,
            Effect::YcmJump => EffectGroup::Jump,
            Effect::RainbowStrobe => EffectGroup::Jump,
            Effect::RgbStrobe => EffectGroup::Jump,
            Effect::YcmStrobe => EffectGroup::Jump,
            Effect::SevenFade => EffectGroup::Jump,
            Effect::RedYellowFade => EffectGroup::Jump,
            Effect::RedPurpleFade => EffectGroup::Jump,
            Effect::GreenCyanFade => EffectGroup::Jump,
            Effect::GreenYellowFade => EffectGroup::Jump,
            Effect::BluePurpleFade => EffectGroup::Jump,
            Effect::RedHorse => EffectGroup::Horse,
            Effect::GreenHorse => EffectGroup::Horse,
            Effect::BlueHorse => EffectGroup::Horse,
            Effect::YellowHorse => EffectGroup::Horse,
            Effect::CyanHorse => EffectGroup::Horse,
            Effect::PurpleHorse => EffectGroup::Horse,
            Effect::WhiteHorse => EffectGroup::Horse,
            Effect::RainbowFollowFwd => EffectGroup::Follow,
            Effect::RainbowFollowRev => EffectGroup::Follow,
            Effect::RgbFollowFwd => EffectGroup::Follow,
            Effect::RgbFollowRev => EffectGroup::Follow,
            Effect::YcmFollowFwd => EffectGroup::Follow,
            Effect::YcmFollowRev => EffectGroup::Follow,
            Effect::RainbowDriftFwd => EffectGroup::Drift,
            Effect::RainbowDriftRev => EffectGroup::Drift,
            Effect::RgbDriftFwd => EffectGroup::Drift,
            Effect::RgbDriftRev => EffectGroup::Drift,
            Effect::YcmDriftFwd => EffectGroup::Drift,
            Effect::YcmDriftRev => EffectGroup::Drift,
            Effect::RainbowBrushFwd => EffectGroup::Brush,
            Effect::RainbowBrushRev => EffectGroup::Brush,
            Effect::RgbBrushFwd => EffectGroup::Brush,
            Effect::RgbBrushRev => EffectGroup::Brush,
            Effect::YcmBrushFwd => EffectGroup::Brush,
            Effect::YcmBrushRev => EffectGroup::Brush,
            Effect::RainbowBrushClose => EffectGroup::Brush,
            Effect::RainbowBrushOpen => EffectGroup::Brush,
            Effect::RgbBrushClose => EffectGroup::Brush,
            Effect::RgbBrushOpen => EffectGroup::Brush,
            Effect::YcmBrushClose => EffectGroup::Brush,
            Effect::YcmBrushOpen => EffectGroup::Brush,
        }
    }

    pub fn name(self) -> (s: &'static str)
        ensures
            s@ == self.spec_name(),
    {
        match self {
            Effect::AutoLoop => "自动循环",
            Effect::RainbowFwd => "正向幻彩",
            Effect::RainbowRev => "反向幻彩",
            Effect::RainbowEnergy => "七彩能量",
            Effect::RainbowJump => "七彩跳变",
            Effect::RgbJump => "红绿蓝跳变",
            Effect::YcmJump => "黄青紫跳变",
            Effect::RainbowStrobe => "七彩频闪",
            Effect::RgbStrobe => "红绿蓝频闪",
            Effect::YcmStrobe => "黄青紫频闪",
            Effect::SevenFade => "七色渐变",
            Effect::RedYellowFade => "红黄交替渐变",
            Effect::RedPurpleFade => "红紫交替渐变",
            Effect::GreenCyanFade => "绿青交替渐变",
            Effect::GreenYellowFade => "绿黄交替渐变",
            Effect::BluePurpleFade => "蓝紫交替渐变",
            Effect::RedHorse => "红色跑马",
            Effect::GreenHorse => "绿色跑马",
            Effect::BlueHorse => "蓝色跑马",
            Effect::YellowHorse => "黄色跑马",
            Effect::CyanHorse => "青色跑马",
            Effect::PurpleHorse => "紫色跑马",
            Effect::WhiteHorse => "白色跑马",
            Effect::RainbowFollowFwd => "正向七彩追光",
            Effect::RainbowFollowRev => "反向七彩追光",
            Effect::RgbFollowFwd => "正向红绿蓝追光",
            Effect::RgbFollowRev => "反向红绿蓝追光",
            Effect::YcmFollowFwd => "正向黄青紫追光",
            Effect::YcmFollowRev => "反向黄青紫追光",
            Effect::RainbowDriftFwd => "正向七彩飘动",
            Effect::RainbowDriftRev => "反向七彩飘动",
            Effect::RgbDriftFwd => "正向红绿蓝飘动",
            Effect::RgbDriftRev => "反向红绿蓝飘动",
            Effect::YcmDriftFwd => "正向黄青紫飘动",
            Effect::YcmDriftRev => "反向黄青紫飘动",
            Effect::RainbowBrushFwd => "正向七彩刷色",
            Effect::RainbowBrushRev => "反向七彩刷色",
            Effect::RgbBrushFwd => "正向红绿蓝刷色",
            Effect::RgbBrushRev => "反向红绿蓝刷色",
            Effect::YcmBrushFwd => "正向黄青紫刷色",
            Effect::YcmBrushRev => "反向黄青紫刷色",
            Effect::RainbowBrushClose => "七彩刷色闭幕",
            Effect::RainbowBrushOpen => "七彩刷色拉幕",
            Effect::RgbBrushClose => "红绿蓝刷色闭幕",
            Effect::RgbBrushOpen => "红绿蓝刷色拉幕",
            Effect::YcmBrushClose => "黄青紫刷色闭幕",
            Effect::YcmBrushOpen => "黄青紫刷色拉幕",
        }
    }

    /// The seven payload bytes of the effect command.
    pub open spec fn payload(self) -> Seq<u8> {
        seq![0x07u8, 0x03u8, self.spec_byte(), 0x06u8, 0xffu8, 0xffu8, 0x00u8]
    }

    /// `7e 07 03 MODE 06 ff ff 00 ef`
    pub fn frame(self) -> (f: Frame)
        ensures
            f@ == framed(self.payload()),
    {
        let payload = [0x07u8, 0x03, self.byte(), 0x06, 0xff, 0xff, 0x00];
        assert(payload@ =~= self.payload());
        Frame::pack(payload)
    }
}

/// The lamp's table of effect mode bytes, as captured, in display order.
pub open spec fn effect_mode_table() -> Seq<(Effect, u8)> {
    seq![
        (Effect::AutoLoop, 0x00u8),
        (Effect::RainbowFwd, 0x01u8),
        (Effect::RainbowRev, 0x02u8),
        (Effect::RainbowEnergy, 0xd4u8),
        (Effect::RainbowJump, 0xc1u8),
        (Effect::RgbJump, 0xc2u8),
        (Effect::YcmJump, 0xc3u8),
        (Effect::RainbowStrobe, 0xc4u8),
        (Effect::RgbStrobe, 0xc5u8),
        (Effect::YcmStrobe, 0xc6u8),
        (Effect::SevenFade, 0xc7u8),
        (Effect::RedYellowFade, 0xc8u8),
        (Effect::RedPurpleFade, 0xc9u8),
        (Effect::GreenCyanFade, 0xcau8),
        (Effect::GreenYellowFade, 0xcbu8),
        (Effect::BluePurpleFade, 0xccu8),
        (Effect::RedHorse, 0xcdu8),
        (Effect::GreenHorse, 0xceu8),
        (Effect::BlueHorse, 0xcfu8),
        (Effect::YellowHorse, 0xd0u8),
        (Effect::CyanHorse, 0xd1u8),
        (Effect::PurpleHorse, 0xd2u8),
        (Effect::WhiteHorse, 0xd3u8),
        (Effect::RainbowFollowFwd, 0x4du8),
        (Effect::RainbowFollowRev, 0x4eu8),
        (Effect::RgbFollowFwd, 0x4fu8),
        (Effect::RgbFollowRev, 0x50u8),
        (Effect::YcmFollowFwd, 0x51u8),
        (Effect::YcmFollowRev, 0x52u8),
        (Effect::RainbowDriftFwd, 0x53u8),
        (Effect::RainbowDriftRev, 0x54u8),
        (Effect::RgbDriftFwd, 0x55u8),
        (Effect::RgbDriftRev, 0x56u8),
        (Effect::YcmDriftFwd, 0x57u8),
        (Effect::YcmDriftRev, 0x58u8),
        (Effect::RainbowBrushFwd, 0xb5u8),
        (Effect::RainbowBrushRev, 0xb6u8),
        (Effect::RgbBrushFwd, 0xb7u8),
        (Effect::RgbBrushRev, 0xb8u8),
        (Effect::YcmBrushFwd, 0xb9u8),
        (Effect::YcmBrushRev, 0xbau8),
        (Effect::RainbowBrushClose, 0xbbu8),
        (Effect::RainbowBrushOpen, 0xbcu8),
        (Effect::RgbBrushClose, 0xbdu8),
        (Effect::RgbBrushOpen, 0xbeu8),
        (Effect::YcmBrushClose, 0xbfu8),
        (Effect::YcmBrushOpen, 0xc0u8),
    ]
}

/// Law: each effect sends the mode byte the lamp's table gives it, and that
/// byte looks the effect up again; the table lists the effects in display order.
pub proof fn lemma_effect_mode_table(i: int)
    requires
        0 <= i < 47,
    ensures
        effect_mode_table().len() == 47,
        effect_mode_table()[i].0 == Effect::spec_all()[i],
        effect_mode_table()[i].0.spec_byte() == effect_mode_table()[i].1,
        effect_with_byte(effect_mode_table()[i].1) == Some(effect_mode_table()[i].0),
{
    let t = effect_mode_table();
    let a = Effect::spec_all();
    assert(t.len() == 47);
    assert(a.len() == 47);
    assert(t[0] == (Effect::AutoLoop, 0x00u8) && a[0] == Effect::AutoLoop);
    assert(t[1] == (Effect::RainbowFwd, 0x01u8) && a[1] == Effect::RainbowFwd);
    assert(t[2] == (Effect::RainbowRev, 0x02u8) && a[2] == Effect::RainbowRev);
    assert(t[3] == (Effect::RainbowEnergy, 0xd4u8) && a[3] == Effect::RainbowEnergy);
    assert(t[4] == (Effect::RainbowJump, 0xc1u8) && a[4] == Effect::RainbowJump);
    assert(t[5] == (Effect::RgbJump, 0xc2u8) && a[5] == Effect::RgbJump);
    assert(t[6] == (Effect::YcmJump, 0xc3u8) && a[6] == Effect::YcmJump);
    assert(t[7] == (Effect::RainbowStrobe, 0xc4u8) && a[7] == Effect::RainbowStrobe);
    assert(t[8] == (Effect::RgbStrobe, 0xc5u8) && a[8] == Effect::RgbStrobe);
    assert(t[9] == (Effect::YcmStrobe, 0xc6u8) && a[9] == Effect::YcmStrobe);
    assert(t[10] == (Effect::SevenFade, 0xc7u8) && a[10] == Effect::SevenFade);
    assert(t[11] == (Effect::RedYellowFade, 0xc8u8) && a[11] == Effect::RedYellowFade);
    assert(t[12] == (Effect::RedPurpleFade, 0xc9u8) && a[12] == Effect::RedPurpleFade);
    assert(t[13] == (Effect::GreenCyanFade, 0xcau8) && a[13] == Effect::GreenCyanFade);
    assert(t[14] == (Effect::GreenYellowFade, 0xcbu8) && a[14] == Effect::GreenYellowFade);
    assert(t[15] == (Effect::BluePurpleFade, 0xccu8) && a[15] == Effect::BluePurpleFade);
    assert(t[16] == (Effect::RedHorse, 0xcdu8) && a[16] == Effect::RedHorse);
    assert(t[17] == (Effect::GreenHorse, 0xceu8) && a[17] == Effect::GreenHorse);
    assert(t[18] == (Effect::BlueHorse, 0xcfu8) && a[18] == Effect::BlueHorse);
    assert(t[19] == (Effect::YellowHorse, 0xd0u8) && a[19] == Effect::YellowHorse);
    assert(t[20] == (Effect::CyanHorse, 0xd1u8) && a[20] == Effect::CyanHorse);
    assert(t[21] == (Effect::PurpleHorse, 0xd2u8) && a[21] == Effect::PurpleHorse);
    assert(t[22] == (Effect::WhiteHorse, 0xd3u8) && a[22] == Effect::WhiteHorse);
    assert(t[23] == (Effect::RainbowFollowFwd, 0x4du8) && a[23] == Effect::RainbowFollowFwd);
    assert(t[24] == (Effect::RainbowFollowRev, 0x4eu8) && a[24] == Effect::RainbowFollowRev);
    assert(t[25] == (Effect::RgbFollowFwd, 0x4fu8) && a[25] == Effect::RgbFollowFwd);
    assert(t[26] == (Effect::RgbFollowRev, 0x50u8) && a[26] == Effect::RgbFollowRev);
    assert(t[27] == (Effect::YcmFollowFwd, 0x51u8) && a[27] == Effect::YcmFollowFwd);
    assert(t[28] == (Effect::YcmFollowRev, 0x52u8) && a[28] == Effect::YcmFollowRev);
    assert(t[29] == (Effect::RainbowDriftFwd, 0x53u8) && a[29] == Effect::RainbowDriftFwd);
    assert(t[30] == (Effect::RainbowDriftRev, 0x54u8) && a[30] == Effect::RainbowDriftRev);
    assert(t[31] == (Effect::RgbDriftFwd, 0x55u8) && a[31] == Effect::RgbDriftFwd);
    assert(t[32] == (Effect::RgbDriftRev, 0x56u8) && a[32] == Effect::RgbDriftRev);
    assert(t[33] == (Effect::YcmDriftFwd, 0x57u8) && a[33] == Effect::YcmDriftFwd);
    assert(t[34] == (Effect::YcmDriftRev, 0x58u8) && a[34] == Effect::YcmDriftRev);
    assert(t[35] == (Effect::RainbowBrushFwd, 0xb5u8) && a[35] == Effect::RainbowBrushFwd);
    assert(t[36] == (Effect::RainbowBrushRev, 0xb6u8) && a[36] == Effect::RainbowBrushRev);
    assert(t[37] == (Effect::RgbBrushFwd, 0xb7u8) && a[37] == Effect::RgbBrushFwd);
    assert(t[38] == (Effect::RgbBrushRev, 0xb8u8) && a[38] == Effect::RgbBrushRev);
    assert(t[39] == (Effect::YcmBrushFwd, 0xb9u8) && a[39] == Effect::YcmBrushFwd);
    assert(t[40] == (Effect::YcmBrushRev, 0xbau8) && a[40] == Effect::YcmBrushRev);
    assert(t[41] == (Effect::RainbowBrushClose, 0xbbu8) && a[41] == Effect::RainbowBrushClose);
    assert(t[42] == (Effect::RainbowBrushOpen, 0xbcu8) && a[42] == Effect::RainbowBrushOpen);
    assert(t[43] == (Effect::RgbBrushClose, 0xbdu8) && a[43] == Effect::RgbBrushClose);
    assert(t[44] == (Effect::RgbBrushOpen, 0xbeu8) && a[44] == Effect::RgbBrushOpen);
    assert(t[45] == (Effect::YcmBrushClose, 0xbfu8) && a[45] == Effect::YcmBrushClose);
    assert(t[46] == (Effect::YcmBrushOpen, 0xc0u8) && a[46] == Effect::YcmBrushOpen);
}

/// The mode byte names the effect: looking the byte up gives the effect back.
pub proof fn lemma_byte_identifies_effect(e: Effect)
    ensures
        effect_with_byte(e.spec_byte()) == Some(e),
{
}

/// No two effects share a mode byte.
pub proof fn lemma_effect_bytes_distinct(a: Effect, b: Effect)
    ensures
        a.spec_byte() == b.spec_byte() ==> a == b,
{
    lemma_byte_identifies_effect(a);
    lemma_byte_identifies_effect(b);
}

/// A byte that names an effect is that effect's mode byte.
pub proof fn lemma_effect_with_byte_sound(byte: u8)
    ensures
        effect_with_byte(byte) matches Some(e) ==> e.spec_byte() == byte,
{
}

/// The list of all effects holds each effect exactly once.
pub proof fn lemma_all_effects_listed(e: Effect)
    ensures
        Effect::spec_all().contains(e),
        Effect::spec_all().len() == 47,
        forall|i: int, j: int|
            0 <= i < j < 47 ==> #[trigger] Effect::spec_all()[i] != #[trigger] Effect::spec_all()[j],
{
    let s = Effect::spec_all();
    assert(s.len() == 47);

    match e {
        Effect::AutoLoop => assert(s[0] == e),
        Effect::RainbowFwd => assert(s[1] == e),
        Effect::RainbowRev => assert(s[2] == e),
        Effect::RainbowEnergy => assert(s[3] == e),
        Effect::RainbowJump => assert(s[4] == e),
        Effect::RgbJump => assert(s[5] == e),
        Effect::YcmJump => assert(s[6] == e),
        Effect::RainbowStrobe => assert(s[7] == e),
        Effect::RgbStrobe => assert(s[8] == e),
        Effect::YcmStrobe => assert(s[9] == e),
        Effect::SevenFade => assert(s[10] == e),
        Effect::RedYellowFade => assert(s[11] == e),
        Effect::RedPurpleFade => assert(s[12] == e),
        Effect::GreenCyanFade => assert(s[13] == e),
        Effect::GreenYellowFade => assert(s[14] == e),
        Effect::BluePurpleFade => assert(s[15] == e),
        Effect::RedHorse => assert(s[16] == e),
        Effect::GreenHorse => assert(s[17] == e),
        Effect::BlueHorse => assert(s[18] == e),
        Effect::YellowHorse => assert(s[19] == e),
        Effect::CyanHorse => assert(s[20] == e),
        Effect::PurpleHorse => assert(s[21] == e),
        Effect::WhiteHorse => assert(s[22] == e),
        Effect::RainbowFollowFwd => assert(s[23] == e),
        Effect::RainbowFollowRev => assert(s[24] == e),
        Effect::RgbFollowFwd => assert(s[25] == e),
        Effect::RgbFollowRev => assert(s[26] == e),
        Effect::YcmFollowFwd => assert(s[27] == e),
        Effect::YcmFollowRev => assert(s[28] == e),
        Effect::RainbowDriftFwd => assert(s[29] == e),
        Effect::RainbowDriftRev => assert(s[30] == e),
        Effect::RgbDriftFwd => assert(s[31] == e),
        Effect::RgbDriftRev => assert(s[32] == e),
        Effect::YcmDriftFwd => assert(s[33] == e),
        Effect::YcmDriftRev => assert(s[34] == e),
        Effect::RainbowBrushFwd => assert(s[35] == e),
        Effect::RainbowBrushRev => assert(s[36] == e),
        Effect::RgbBrushFwd => assert(s[37] == e),
        Effect::RgbBrushRev => assert(s[38] == e),
        Effect::YcmBrushFwd => assert(s[39] == e),
        Effect::YcmBrushRev => assert(s[40] == e),
        Effect::RainbowBrushClose => assert(s[41] == e),
        Effect::RainbowBrushOpen => assert(s[42] == e),
        Effect::RgbBrushClose => assert(s[43] == e),
        Effect::RgbBrushOpen => assert(s[44] == e),
        Effect::YcmBrushClose => assert(s[45] == e),
        Effect::YcmBrushOpen => assert(s[46] == e),
    }
    assert forall|i: int, j: int| 0 <= i < j < 47 implies #[trigger] s[i] != #[trigger] s[j] by {
        lemma_byte_identifies_effect(s[i]);
        lemma_byte_identifies_effect(s[j]);
        assert(s[i].spec_byte() != s[j].spec_byte());
    }
}

/// Length, first three and last-but-one characters of a label: enough to
/// tell the effect labels apart.
spec fn name_key(n: Seq<char>) -> (int, char, char, char, char) {
    (n.len() as int, n[0], n[1], n[2], n[n.len() - 2])
}

/// The effect whose label has this key.
spec fn effect_of_key(k: (int, char, char, char, char)) -> Option<Effect> {
    if k == (4int, '自', '动', '循', '循') {
        Some(Effect::AutoLoop)
    } else if k == (4int, '正', '向', '幻', '幻') {
        Some(Effect::RainbowFwd)
    } else if k == (4int, '反', '向', '幻', '幻') {
        Some(Effect::RainbowRev)
    } else if k == (4int, '七', '彩', '能', '能') {
        Some(Effect::RainbowEnergy)
    } else if k == (4int, '七', '彩', '跳', '跳') {
        Some(Effect::RainbowJump)
    } else if k == (5int, '红', '绿', '蓝', '跳') {
        Some(Effect::RgbJump)
    } else if k == (5int, '黄', '青', '紫', '跳') {
        Some(Effect::YcmJump)
    } else if k == (4int, '七', '彩', '频', '频') {
        Some(Effect::RainbowStrobe)
    } else if k == (5int, '红', '绿', '蓝', '频') {
        Some(Effect::RgbStrobe)
    } else if k == (5int, '黄', '青', '紫', '频') {
        Some(Effect::YcmStrobe)
    } else if k == (4int, '七', '色', '渐', '渐') {
        Some(Effect::SevenFade)
    } else if k == (6int, '红', '黄', '交', '渐') {
        Some(Effect::RedYellowFade)
    } else if k == (6int, '红', '紫', '交', '渐') {
        Some(Effect::RedPurpleFade)
    } else if k == (6int, '绿', '青', '交', '渐') {
        Some(Effect::GreenCyanFade)
    } else if k == (6int, '绿', '黄', '交', '渐') {
        Some(Effect::GreenYellowFade)
    } else if k == (6int, '蓝', '紫', '交', '渐') {
        Some(Effect::BluePurpleFade)
    } else if k == (4int, '红', '色', '跑', '跑') {
        Some(Effect::RedHorse)
    } else if k == (4int, '绿', '色', '跑', '跑') {
        Some(Effect::GreenHorse)
    } else if k == (4int, '蓝', '色', '跑', '跑') {
        Some(Effect::BlueHorse)
    } else if k == (4int, '黄', '色', '跑', '跑') {
        Some(Effect::YellowHorse)
    } else if k == (4int, '青', '色', '跑', '跑') {
        Some(Effect::CyanHorse)
    } else if k == (4int, '紫', '色', '跑', '跑') {
        Some(Effect::PurpleHorse)
    } else if k == (4int, '白', '色', '跑', '跑') {
        Some(Effect::WhiteHorse)
    } else if k == (6int, '正', '向', '七', '追') {
        Some(Effect::RainbowFollowFwd)
    } else if k == (6int, '反', '向', '七', '追') {
        Some(Effect::RainbowFollowRev)
    } else if k == (7int, '正', '向', '红', '追') {
        Some(Effect::RgbFollowFwd)
    } else if k == (7int, '反', '向', '红', '追') {
        Some(Effect::RgbFollowRev)
    } else if k == (7int, '正', '向', '黄', '追') {
        Some(Effect::YcmFollowFwd)
    } else if k == (7int, '反', '向', '黄', '追') {
        Some(Effect::YcmFollowRev)
    } else if k == (6int, '正', '向', '七', '飘') {
        Some(Effect::RainbowDriftFwd)
    } else if k == (6int, '反', '向', '七', '飘') {
        Some(Effect::RainbowDriftRev)
    } else if k == (7int, '正', '向', '红', '飘') {
        Some(Effect::RgbDriftFwd)
    } else if k == (7int, '反', '向', '红', '飘') {
        Some(Effect::RgbDriftRev)
    } else if k == (7int, '正', '向', '黄', '飘') {
        Some(Effect::YcmDriftFwd)
    } else if k == (7int, '反', '向', '黄', '飘') {
        Some(Effect::YcmDriftRev)
    } else if k == (6int, '正', '向', '七', '刷') {
        Some(Effect::RainbowBrushFwd)
    } else if k == (6int, '反', '向', '七', '刷') {
        Some(Effect::RainbowBrushRev)
    } else if k == (7int, '正', '向', '红', '刷') {
        Some(Effect::RgbBrushFwd)
    } else if k == (7int, '反', '向', '红', '刷') {
        Some(Effect::RgbBrushRev)
    } else if k == (7int, '正', '向', '黄', '刷') {
        Some(Effect::YcmBrushFwd)
    } else if k == (7int, '反', '向', '黄', '刷') {
        Some(Effect::YcmBrushRev)
    } else if k == (6int, '七', '彩', '刷', '闭') {
        Some(Effect::RainbowBrushClose)
    } else if k == (6int, '七', '彩', '刷', '拉') {
        Some(Effect::RainbowBrushOpen)
    } else if k == (7int, '红', '绿', '蓝', '闭') {
        Some(Effect::RgbBrushClose)
    } else if k == (7int, '红', '绿', '蓝', '拉') {
        Some(Effect::RgbBrushOpen)
    } else if k == (7int, '黄', '青', '紫', '闭') {
        Some(Effect::YcmBrushClose)
    } else if k == (7int, '黄', '青', '紫', '拉') {
        Some(Effect::YcmBrushOpen)
    } else {
        None
    }
}

proof fn lemma_name_key_identifies_effect(e: Effect)
    ensures
        e.spec_name().len() >= 4,
        effect_of_key(name_key(e.spec_name())) == Some(e),
{
    match e {
        Effect::AutoLoop => reveal_strlit("自动循环"),
        Effect::RainbowFwd => reveal_strlit("正向幻彩"),
        Effect::RainbowRev => reveal_strlit("反向幻彩"),
        Effect::RainbowEnergy => reveal_strlit("七彩能量"),
        Effect::RainbowJump => reveal_strlit("七彩跳变"),
        Effect::RgbJump => reveal_strlit("红绿蓝跳变"),
        Effect::YcmJump => reveal_strlit("黄青紫跳变"),
        Effect::RainbowStrobe => reveal_strlit("七彩频闪"),
        Effect::RgbStrobe => reveal_strlit("红绿蓝频闪"),
        Effect::YcmStrobe => reveal_strlit("黄青紫频闪"),
        Effect::SevenFade => reveal_strlit("七色渐变"),
        Effect::RedYellowFade => reveal_strlit("红黄交替渐变"),
        Effect::RedPurpleFade => reveal_strlit("红紫交替渐变"),
        Effect::GreenCyanFade => reveal_strlit("绿青交替渐变"),
        Effect::GreenYellowFade => reveal_strlit("绿黄交替渐变"),
        Effect::BluePurpleFade => reveal_strlit("蓝紫交替渐变"),
        Effect::RedHorse => reveal_strlit("红色跑马"),
        Effect::GreenHorse => reveal_strlit("绿色跑马"),
        Effect::BlueHorse => reveal_strlit("蓝色跑马"),
        Effect::YellowHorse => reveal_strlit("黄色跑马"),
        Effect::CyanHorse => reveal_strlit("青色跑马"),
        Effect::PurpleHorse => reveal_strlit("紫色跑马"),
        Effect::WhiteHorse => reveal_strlit("白色跑马"),
        Effect::RainbowFollowFwd => reveal_strlit("正向七彩追光"),
        Effect::RainbowFollowRev => reveal_strlit("反向七彩追光"),
        Effect::RgbFollowFwd => reveal_strlit("正向红绿蓝追光"),
        Effect::RgbFollowRev => reveal_strlit("反向红绿蓝追光"),
        Effect::YcmFollowFwd => reveal_strlit("正向黄青紫追光"),
        Effect::YcmFollowRev => reveal_strlit("反向黄青紫追光"),
        Effect::RainbowDriftFwd => reveal_strlit("正向七彩飘动"),
        Effect::RainbowDriftRev => reveal_strlit("反向七彩飘动"),
        Effect::RgbDriftFwd => reveal_strlit("正向红绿蓝飘动"),
        Effect::RgbDriftRev => reveal_strlit("反向红绿蓝飘动"),
        Effect::YcmDriftFwd => reveal_strlit("正向黄青紫飘动"),
        Effect::YcmDriftRev => reveal_strlit("反向黄青紫飘动"),
        Effect::RainbowBrushFwd => reveal_strlit("正向七彩刷色"),
        Effect::RainbowBrushRev => reveal_strlit("反向七彩刷色"),
        Effect::RgbBrushFwd => reveal_strlit("正向红绿蓝刷色"),
        Effect::RgbBrushRev => reveal_strlit("反向红绿蓝刷色"),
        Effect::YcmBrushFwd => reveal_strlit("正向黄青紫刷色"),
        Effect::YcmBrushRev => reveal_strlit("反向黄青紫刷色"),
        Effect::RainbowBrushClose => reveal_strlit("七彩刷色闭幕"),
        Effect::RainbowBrushOpen => reveal_strlit("七彩刷色拉幕"),
        Effect::RgbBrushClose => reveal_strlit("红绿蓝刷色闭幕"),
        Effect::RgbBrushOpen => reveal_strlit("红绿蓝刷色拉幕"),
        Effect::YcmBrushClose => reveal_strlit("黄青紫刷色闭幕"),
        Effect::YcmBrushOpen => reveal_strlit("黄青紫刷色拉幕"),
    }
}

/// Every effect has a non-empty label, and no two effects share a label.
pub proof fn lemma_effect_names_distinct(a: Effect, b: Effect)
    ensures
        a.spec_name().len() > 0,
        a.spec_name() == b.spec_name() ==> a == b,
        forall|i: int, j: int|
            0 <= i < j < 47 ==> #[trigger] Effect::spec_all()[i].spec_name() != #[trigger] Effect::spec_all()[j].spec_name(),
{
    lemma_name_key_identifies_effect(a);
    lemma_name_key_identifies_effect(b);
    assert forall|i: int, j: int|
        0 <= i < j < 47 implies #[trigger] Effect::spec_all()[i].spec_name() != #[trigger] Effect::spec_all()[j].spec_name() by {
        lemma_all_effects_listed(a);
        lemma_name_key_identifies_effect(Effect::spec_all()[i]);
        lemma_name_key_identifies_effect(Effect::spec_all()[j]);
    }
}

} // verus!

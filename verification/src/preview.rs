//! Colours the on-screen preview uses for the rear effects.

use vstd::prelude::*;

use crate::protocol::{Effect, Rgb};

verus! {

pub open spec fn dusty_red() -> Rgb {
    Rgb { r: 0xFF, g: 0x8A, b: 0x78 }
}

pub open spec fn dusty_green() -> Rgb {
    Rgb { r: 0x6A, g: 0xE0, b: 0xA4 }
}

pub open spec fn dusty_blue() -> Rgb {
    Rgb { r: 0x7F, g: 0xB4, b: 0xFF }
}

pub open spec fn dusty_yellow() -> Rgb {
    Rgb { r: 0xFF, g: 0xD6, b: 0x6A }
}

pub open spec fn dusty_cyan() -> Rgb {
    Rgb { r: 0x6A, g: 0xEE, b: 0xE8 }
}

pub open spec fn dusty_purple() -> Rgb {
    Rgb { r: 0xD4, g: 0x9A, b: 0xE8 }
}

pub open spec fn dusty_white() -> Rgb {
    Rgb { r: 0xFF, g: 0xF6, b: 0xEE }
}

/// Colour of a single-colour chase ("horse") effect; other effects use blue.
pub open spec fn spec_horse_color(effect: Effect) -> Rgb {
    match effect {
        Effect::RedHorse => dusty_red(),
        Effect::GreenHorse => dusty_green(),
        Effect::BlueHorse => dusty_blue(),
        Effect::YellowHorse => dusty_yellow(),
        Effect::CyanHorse => dusty_cyan(),
        Effect::PurpleHorse => dusty_purple(),
        Effect::WhiteHorse => dusty_white(),
        _ => dusty_blue(),
    }
}

pub open spec fn seven_colours() -> Seq<Rgb> {
    seq![
        dusty_red(),
        dusty_green(),
        dusty_blue(),
        dusty_yellow(),
        dusty_cyan(),
        dusty_purple(),
        dusty_white(),
    ]
}

/// Colours an effect cycles through.
pub open spec fn spec_palette(effect: Effect) -> Seq<Rgb> {
    match effect {
        Effect::RgbJump | Effect::RgbStrobe | Effect::RgbFollowFwd | Effect::RgbFollowRev
        | Effect::RgbDriftFwd | Effect::RgbDriftRev | Effect::RgbBrushFwd | Effect::RgbBrushRev
        | Effect::RgbBrushClose | Effect::RgbBrushOpen => seq![dusty_red(), dusty_green(), dusty_blue()],
        Effect::YcmJump | Effect::YcmStrobe | Effect::YcmFollowFwd | Effect::YcmFollowRev
        | Effect::YcmDriftFwd | Effect::YcmDriftRev | Effect::YcmBrushFwd | Effect::YcmBrushRev
        | Effect::YcmBrushClose | Effect::YcmBrushOpen => seq![dusty_yellow(), dusty_cyan(), dusty_purple()],
        Effect::RedYellowFade => seq![dusty_red(), dusty_yellow()],
        Effect::RedPurpleFade => seq![dusty_red(), dusty_purple()],
        Effect::GreenCyanFade => seq![dusty_green(), dusty_cyan()],
        Effect::GreenYellowFade => seq![dusty_green(), dusty_yellow()],
        Effect::BluePurpleFade => seq![dusty_blue(), dusty_purple()],
        _ => seven_colours(),
    }
}

/// The single colour a marquee effect runs in.
pub fn horse_color(effect: Effect) -> (c: Rgb)
    ensures
        c == spec_horse_color(effect),
{
    match effect {
        Effect::RedHorse => Rgb::new(0xFF, 0x8A, 0x78),
        Effect::GreenHorse => Rgb::new(0x6A, 0xE0, 0xA4),
        Effect::BlueHorse => Rgb::new(0x7F, 0xB4, 0xFF),
        Effect::YellowHorse => Rgb::new(0xFF, 0xD6, 0x6A),
        Effect::CyanHorse => Rgb::new(0x6A, 0xEE, 0xE8),
        Effect::PurpleHorse => Rgb::new(0xD4, 0x9A, 0xE8),
        Effect::WhiteHorse => Rgb::new(0xFF, 0xF6, 0xEE),
        _ => Rgb::new(0x7F, 0xB4, 0xFF),
    }
}

fn pair(a: Rgb, b: Rgb) -> (v: Vec<Rgb>)
    ensures
        v@ == seq![a, b],
{
    let mut v = Vec::new();
    v.push(a);
    v.push(b);
    assert(v@ =~= seq![a, b]);
    v
}

fn triple(a: Rgb, b: Rgb, c: Rgb) -> (v: Vec<Rgb>)
    ensures
        v@ == seq![a, b, c],
{
    let mut v = Vec::new();
    v.push(a);
    v.push(b);
    v.push(c);
    assert(v@ =~= seq![a, b, c]);
    v
}

/// Colours an effect cycles through.
pub fn palette(effect: Effect) -> (p: Vec<Rgb>)
    ensures
        p@ == spec_palette(effect),
{
    let red = Rgb::new(0xFF, 0x8A, 0x78);
    let green = Rgb::new(0x6A, 0xE0, 0xA4);
    let blue = Rgb::new(0x7F, 0xB4, 0xFF);
    let yellow = Rgb::new(0xFF, 0xD6, 0x6A);
    let cyan = Rgb::new(0x6A, 0xEE, 0xE8);
    let purple = Rgb::new(0xD4, 0x9A, 0xE8);
    let white = Rgb::new(0xFF, 0xF6, 0xEE);
    match effect {
        Effect::RgbJump | Effect::RgbStrobe | Effect::RgbFollowFwd | Effect::RgbFollowRev
        | Effect::RgbDriftFwd | Effect::RgbDriftRev | Effect::RgbBrushFwd | Effect::RgbBrushRev
        | Effect::RgbBrushClose | Effect::RgbBrushOpen => triple(red, green, blue),
        Effect::YcmJump | Effect::YcmStrobe | Effect::YcmFollowFwd | Effect::YcmFollowRev
        | Effect::YcmDriftFwd | Effect::YcmDriftRev | Effect::YcmBrushFwd | Effect::YcmBrushRev
        | Effect::YcmBrushClose | Effect::YcmBrushOpen => triple(yellow, cyan, purple),
        Effect::RedYellowFade => pair(red, yellow),
        Effect::RedPurpleFade => pair(red, purple),
        Effect::GreenCyanFade => pair(green, cyan),
        Effect::GreenYellowFade => pair(green, yellow),
        Effect::BluePurpleFade => pair(blue, purple),
        _ => {
            let mut v = Vec::new();
            v.push(red);
            v.push(green);
            v.push(blue);
            v.push(yellow);
            v.push(cyan);
            v.push(purple);
            v.push(white);
            assert(v@ =~= seven_colours());
            v
        },
    }
}

/// `i` reduced into `0..n`, also for negative `i` (Euclidean remainder).
pub fn wrap_index(i: i32, n: usize) -> (r: usize)
    requires
        0 < n <= i32::MAX,
        i < 0 || (i as int) % (n as int) + n <= i32::MAX,
    ensures
        r as int == (i as int) % (n as int),
{
    if i >= 0 {
        (i as usize) % n
    } else {
        let neg = (-(i as i64)) as usize;
        let a = neg % n;
        proof {
            lemma_negative_mod(i as int, n as int, a as int);
        }
        if a == 0 {
            0
        } else {
            n - a
        }
    }
}

proof fn lemma_negative_mod(i: int, n: int, a: int)
    requires
        i < 0,
        n > 0,
        a == (-i) % n,
    ensures
        a == 0 ==> i % n == 0,
        a != 0 ==> i % n == n - a,
{
    let q = (-i) / n;
    assert(-i == q * n + a) by (nonlinear_arith)
        requires
            n > 0,
            q == (-i) / n,
            a == (-i) % n,
    ;
    assert(0 <= a < n) by (nonlinear_arith)
        requires
            n > 0,
            a == (-i) % n,
    ;
    if a == 0 {
        assert(i == (-q) * n) by (nonlinear_arith)
            requires
                -i == q * n + a,
                a == 0,
        ;
        vstd::arithmetic::div_mod::lemma_mod_multiples_basic(-q, n);
    } else {
        assert(i == (-q - 1) * n + (n - a)) by (nonlinear_arith)
            requires
                -i == q * n + a,
        ;
        vstd::arithmetic::div_mod::lemma_mod_multiples_vanish(-q - 1, n - a, n);
        vstd::arithmetic::div_mod::lemma_small_mod((n - a) as nat, n as nat);
    }
}

/// Every palette has at least two colours, so wrapping an index into it is defined.
pub proof fn lemma_palette_nonempty(effect: Effect)
    ensures
        spec_palette(effect).len() >= 2,
{
}

} // verus!

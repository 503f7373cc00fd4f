//! Plain values the user interface passes around, and what the rear
//! light's page shows.

use vstd::prelude::*;
use vstd::string::StringExecFns;

use crate::protocol::{Effect, Rgb};
use crate::text::push_char;

verus! {

/// Slider being dragged.
#[derive(Clone, Copy, Debug, PartialEq, Eq, Structural)]
pub enum Track {
    FrontLevel,
    FrontCct,
    RearLevel,
    RearSpeed,
    Hue,
    SatVal,
}

/// Payload of a slider drag.
#[derive(Clone, Copy, Debug, PartialEq, Eq, Structural)]
pub struct TrackDrag(pub Track);

/// Element id of a slider's track.
pub fn track_id(track: Track) -> (id: &'static str)
    ensures
        id@ == match track {
            Track::FrontLevel => "track-front-level"@,
            Track::FrontCct => "track-front-cct"@,
            Track::RearLevel => "track-rear-level"@,
            Track::RearSpeed => "track-rear-speed"@,
            Track::Hue => "track-hue"@,
            Track::SatVal => "track-sat-val"@,
        },
{
    match track {
        Track::FrontLevel => "track-front-level",
        Track::FrontCct => "track-front-cct",
        Track::RearLevel => "track-rear-level",
        Track::RearSpeed => "track-rear-speed",
        Track::Hue => "track-hue",
        Track::SatVal => "track-sat-val",
    }
}

/// Near-white text and glow.
pub const PAPER: u32 = 0xFAFAFA;

/// Light grey for a held-back state.
pub const MIST: u32 = 0xD6D6DA;

/// Dark grey for rules and for lights that are off.
pub const LINE: u32 = 0x3F3F46;

/// The tab shown on the rear light's page.
#[derive(Clone, Copy, Debug, PartialEq, Eq, Structural)]
pub enum RearPane {
    Solid,
    Motion,
    Audio,
}

/// Colour of the rear page's readout: grey when the light is off; near
/// white for effects; for sound, near white while loud, light grey while
/// the sound mode holds back ("暂缓"), dark grey otherwise; the colour itself
/// for a solid colour.
pub fn rear_glow(on: bool, pane: RearPane, loud: bool, caption: &str, solid: Rgb) -> (g: u32)
    ensures
        g == (if !on {
            LINE as int
        } else {
            match pane {
                RearPane::Motion => PAPER as int,
                RearPane::Audio => if loud {
                    PAPER as int
                } else if caption@ == "暂缓"@ {
                    MIST as int
                } else {
                    LINE as int
                },
                RearPane::Solid => solid.spec_packed(),
            }
        }),
{
    if !on {
        return LINE;
    }
    match pane {
        RearPane::Motion => PAPER,
        RearPane::Audio => if loud {
            PAPER
        } else if String::from_str(caption) == String::from_str("暂缓") {
            MIST
        } else {
            LINE
        },
        RearPane::Solid => solid.packed(),
    }
}

/// Upper-case hexadecimal digit for a value below sixteen.
pub open spec fn upper_hex_digit(v: int) -> char {
    if v < 10 {
        (v + 48) as char
    } else {
        (v + 55) as char
    }
}

/// A colour as six upper-case hex digits, `RRGGBB`.
pub open spec fn upper_hex6(c: Rgb) -> Seq<char> {
    seq![
        upper_hex_digit((c.r / 16) as int),
        upper_hex_digit((c.r % 16) as int),
        upper_hex_digit((c.g / 16) as int),
        upper_hex_digit((c.g % 16) as int),
        upper_hex_digit((c.b / 16) as int),
        upper_hex_digit((c.b % 16) as int),
    ]
}

fn upper_hex_char(v: u8) -> (c: char)
    requires
        v < 16,
    ensures
        c == upper_hex_digit(v as int),
{
    if v < 10 {
        (v + 48) as char
    } else {
        (v + 55) as char
    }
}

/// The big label of the rear page: the effect's name, the sound mode's
/// caption, or the colour as `RRGGBB`.
pub fn rear_label(pane: RearPane, effect: Effect, caption: &str, solid: Rgb) -> (s: String)
    ensures
        s@ == match pane {
            RearPane::Motion => effect.spec_name(),
            RearPane::Audio => caption@,
            RearPane::Solid => upper_hex6(solid),
        },
{
    match pane {
        RearPane::Motion => String::from_str(effect.name()),
        RearPane::Audio => String::from_str(caption),
        RearPane::Solid => {
            let mut s = String::new();
            push_char(&mut s, upper_hex_char(solid.r / 16));
            push_char(&mut s, upper_hex_char(solid.r % 16));
            push_char(&mut s, upper_hex_char(solid.g / 16));
            push_char(&mut s, upper_hex_char(solid.g % 16));
            push_char(&mut s, upper_hex_char(solid.b / 16));
            push_char(&mut s, upper_hex_char(solid.b % 16));
            assert(s@ =~= upper_hex6(solid));
            s
        },
    }
}

} // verus!

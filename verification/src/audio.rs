//! Sound-reactive rear light: the frame colour for loud audio and the errors of
//! audio capture. Capturing and measuring the sound is the app's part.

use vstd::prelude::*;
use vstd::string::StringExecFns;

use crate::protocol::Rgb;

verus! {

/// Colour scrolled in while there is sound: all channels at `ff`, which keeps
/// the strip cycling colours.
pub fn loud_rgb() -> (c: Rgb)
    ensures
        c == (Rgb { r: 0xff, g: 0xff, b: 0xff }),
{
    Rgb::new(0xff, 0xff, 0xff)
}

/// Audio capture errors.
#[derive(Debug)]
pub enum Error {
    /// This system has no playback capture yet.
    Unsupported,
    /// The capture backend failed.
    Backend(String),
}

impl Error {
    pub open spec fn spec_message(&self) -> Seq<char> {
        match self {
            Error::Unsupported => "这一系统还没有电脑音频抓取"@,
            Error::Backend(m) => m@,
        }
    }

    /// The user-facing message of the error.
    pub fn message(&self) -> (s: String)
        ensures
            s@ == self.spec_message(),
    {
        match self {
            Error::Unsupported => String::from_str("这一系统还没有电脑音频抓取"),
            Error::Backend(m) => String::from_str(m.as_str()),
        }
    }
}

} // verus!

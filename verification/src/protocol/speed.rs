use vstd::prelude::*;

use super::{Frame, Level};
use super::frame::framed;

verus! {

/// Rear effect speed. `7e 07 02 SP ff ff ff 00 ef`
#[derive(Clone, Copy, Debug, PartialEq, Eq)]
pub struct Speed(pub Level);

impl Speed {
    /// The seven payload bytes of the speed command.
    pub open spec fn payload(self) -> Seq<u8> {
        seq![0x07u8, 0x02u8, self.0@, 0xffu8, 0xffu8, 0xffu8, 0x00u8]
    }

    pub fn new(level: Level) -> (s: Speed)
        ensures
            s.0 == level,
    {
        Speed(level)
    }

    pub fn level(self) -> (l: Level)
        ensures
            l == self.0,
    {
        self.0
    }

    pub fn frame(self) -> (f: Frame)
        ensures
            f@ == framed(self.payload()),
    {
        let payload = [0x07u8, 0x02, self.0.byte(), 0xff, 0xff, 0xff, 0x00];
        assert(payload@ =~= self.payload());
        Frame::pack(payload)
    }
}

} // verus!

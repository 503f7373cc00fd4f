use vstd::prelude::*;

use super::Frame;
use super::frame::framed;

verus! {

/// First handshake frame. `7e 07 ea 02 01 ff ff 00 ef`
#[derive(Clone, Copy, Debug, PartialEq, Eq, Structural)]
pub struct Query;

impl Query {
    pub open spec fn payload(self) -> Seq<u8> {
        seq![0x07u8, 0xeau8, 0x02u8, 0x01u8, 0xffu8, 0xffu8, 0x00u8]
    }

    pub fn frame(self) -> (f: Frame)
        ensures
            f@ == framed(self.payload()),
    {
        let payload = [0x07u8, 0xea, 0x02, 0x01, 0xff, 0xff, 0x00];
        assert(payload@ =~= self.payload());
        Frame::pack(payload)
    }
}

/// The smaller of a value and a cap.
pub open spec fn capped(v: u8, cap: u8) -> u8 {
    if v < cap {
        v
    } else {
        cap
    }
}

/// Second handshake frame: local hour and minute, then a byte written as the second.
#[derive(Clone, Copy, Debug, PartialEq, Eq, Structural)]
pub struct Clock {
    pub hour: u8,
    pub minute: u8,
    pub second: u8,
}

impl Clock {
    /// The seven payload bytes; hour is capped at 23, minute and second at 59.
    pub open spec fn payload(self) -> Seq<u8> {
        seq![
            0x06u8,
            0x83u8,
            capped(self.hour, 23),
            capped(self.minute, 59),
            capped(self.second, 59),
            0x06u8,
            0x00u8,
        ]
    }

    pub fn frame(self) -> (f: Frame)
        ensures
            f@ == framed(self.payload()),
    {
        let hour = if self.hour < 23 { self.hour } else { 23 };
        let minute = if self.minute < 59 { self.minute } else { 59 };
        let second = if self.second < 59 { self.second } else { 59 };
        let payload = [0x06u8, 0x83, hour, minute, second, 0x06, 0x00];
        assert(payload@ =~= self.payload());
        Frame::pack(payload)
    }
}

} // verus!

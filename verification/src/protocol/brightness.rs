use vstd::prelude::*;

use super::{Channel, Frame, Level};
use super::frame::framed;

verus! {

/// `7e 04 01 LV CH ff 02 01 ef`
#[derive(Clone, Copy, Debug, PartialEq, Eq)]
pub struct Brightness {
    pub channel: Channel,
    pub level: Level,
}

impl Brightness {
    /// The seven payload bytes of the brightness command.
    pub open spec fn payload(self) -> Seq<u8> {
        seq![0x04u8, 0x01u8, self.level@, self.channel.spec_byte(), 0xffu8, 0x02u8, 0x01u8]
    }

    pub fn new(channel: Channel, level: Level) -> (b: Brightness)
        ensures
            b.channel == channel,
            b.level == level,
    {
        Brightness { channel, level }
    }

    pub fn frame(self) -> (f: Frame)
        ensures
            f@ == framed(self.payload()),
    {
        let payload = [0x04u8, 0x01, self.level.byte(), self.channel.byte(), 0xff, 0x02, 0x01];
        assert(payload@ =~= self.payload());
        Frame::pack(payload)
    }
}

} // verus!

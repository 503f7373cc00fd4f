use vstd::prelude::*;

use super::{Channel, Frame};
use super::frame::framed;

verus! {

/// Power switch position.
#[derive(Clone, Copy, Debug, PartialEq, Eq, Structural)]
pub enum Switch {
    Off,
    On,
}

impl Switch {
    /// Third payload byte of a power frame.
    pub open spec fn spec_xx(self) -> u8 {
        match self {
            Switch::Off => 0x00,
            Switch::On => 0xff,
        }
    }

    /// Fifth payload byte of a power frame.
    pub open spec fn spec_yy(self) -> u8 {
        match self {
            Switch::Off => 0x00,
            Switch::On => 0x01,
        }
    }

    pub fn xx(self) -> (b: u8)
        ensures
            b == self.spec_xx(),
    {
        match self {
            Switch::Off => 0x00,
            Switch::On => 0xff,
        }
    }

    pub fn yy(self) -> (b: u8)
        ensures
            b == self.spec_yy(),
    {
        match self {
            Switch::Off => 0x00,
            Switch::On => 0x01,
        }
    }

    pub fn is_on(self) -> (on: bool)
        ensures
            on == (self == Switch::On),
    {
        match self {
            Switch::On => true,
            Switch::Off => false,
        }
    }
}

/// `7e 07 04 XX CH YY 02 01 ef`
#[derive(Clone, Copy, Debug, PartialEq, Eq, Structural)]
pub struct Power {
    pub channel: Channel,
    pub switch: Switch,
}

impl Power {
    /// The seven payload bytes of the power command.
    pub open spec fn payload(self) -> Seq<u8> {
        seq![
            0x07u8,
            0x04u8,
            self.switch.spec_xx(),
            self.channel.spec_byte(),
            self.switch.spec_yy(),
            0x02u8,
            0x01u8,
        ]
    }

    pub fn on(channel: Channel) -> (p: Power)
        ensures
            p == (Power { channel, switch: Switch::On }),
    {
        Power { channel, switch: Switch::On }
    }

    pub fn off(channel: Channel) -> (p: Power)
        ensures
            p == (Power { channel, switch: Switch::Off }),
    {
        Power { channel, switch: Switch::Off }
    }

    pub fn frame(self) -> (f: Frame)
        ensures
            f@ == framed(self.payload()),
    {
        let payload = [
            0x07u8,
            0x04,
            self.switch.xx(),
            self.channel.byte(),
            self.switch.yy(),
            0x02,
            0x01,
        ];
        assert(payload@ =~= self.payload());
        Frame::pack(payload)
    }
}

} // verus!

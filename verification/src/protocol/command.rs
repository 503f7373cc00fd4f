use vstd::prelude::*;

use super::{
    Brightness, Cct, Channel, Clock, Effect, Frame, Level, Power, Query, Rgb, Speed, Switch,
    WhiteMix,
};
use super::frame::framed;

verus! {

/// Every command the lamp understands.
#[derive(Clone, Copy, Debug, PartialEq, Eq)]
pub enum Command {
    Power(Power),
    Brightness(Brightness),
    Cct(Cct),
    WhiteMix(WhiteMix),
    Rgb(Rgb),
    Effect(Effect),
    Speed(Speed),
    Query(Query),
    Clock(Clock),
}

impl Command {
    /// The seven payload bytes of the command.
    pub open spec fn payload(self) -> Seq<u8> {
        match self {
            Command::Power(c) => c.payload(),
            Command::Brightness(c) => c.payload(),
            Command::Cct(c) => c.payload(),
            Command::WhiteMix(c) => c.payload(),
            Command::Rgb(c) => c.payload(),
            Command::Effect(c) => c.payload(),
            Command::Speed(c) => c.payload(),
            Command::Query(c) => c.payload(),
            Command::Clock(c) => c.payload(),
        }
    }

    pub fn front_on() -> (c: Command)
        ensures
            c == Command::Power(Power { channel: Channel::Front, switch: Switch::On }),
    {
        Command::Power(Power::on(Channel::Front))
    }

    pub fn front_off() -> (c: Command)
        ensures
            c == Command::Power(Power { channel: Channel::Front, switch: Switch::Off }),
    {
        Command::Power(Power::off(Channel::Front))
    }

    pub fn rear_on() -> (c: Command)
        ensures
            c == Command::Power(Power { channel: Channel::Rear, switch: Switch::On }),
    {
        Command::Power(Power::on(Channel::Rear))
    }

    pub fn rear_off() -> (c: Command)
        ensures
            c == Command::Power(Power { channel: Channel::Rear, switch: Switch::Off }),
    {
        Command::Power(Power::off(Channel::Rear))
    }

    /// Power command for `channel`, on or off.
    pub fn power(channel: Channel, on: bool) -> (c: Command)
        ensures
            c == Command::Power(
                Power { channel, switch: if on { Switch::On } else { Switch::Off } },
            ),
    {
        let switch = if on {
            Switch::On
        } else {
            Switch::Off
        };
        Command::Power(Power { channel, switch })
    }

    pub fn brightness(channel: Channel, level: Level) -> (c: Command)
        ensures
            c == Command::Brightness(Brightness { channel, level }),
    {
        Command::Brightness(Brightness::new(channel, level))
    }

    /// The frame that carries the command.
    pub fn frame(self) -> (f: Frame)
        ensures
            f@ == framed(self.payload()),
    {
        match self {
            Command::Power(c) => c.frame(),
            Command::Brightness(c) => c.frame(),
            Command::Cct(c) => c.frame(),
            Command::WhiteMix(c) => c.frame(),
            Command::Rgb(c) => c.frame(),
            Command::Effect(c) => c.frame(),
            Command::Speed(c) => c.frame(),
            Command::Query(c) => c.frame(),
            Command::Clock(c) => c.frame(),
        }
    }
}

/// Every command is carried by a nine-byte frame that starts with `7e`, ends
/// with `ef` and holds the command's seven payload bytes in between.
pub proof fn lemma_command_frame_layout(c: Command)
    ensures
        c.payload().len() == 7,
        framed(c.payload()).len() == 9,
        framed(c.payload())[0] == 0x7e,
        framed(c.payload())[8] == 0xef,
        framed(c.payload()).subrange(1, 8) == c.payload(),
{
    assert(framed(c.payload()).subrange(1, 8) =~= c.payload());
}

} // verus!

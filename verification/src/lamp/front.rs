use vstd::prelude::*;

use crate::protocol::level::level_of;
use crate::protocol::{Brightness, Cct, Channel, Command, Frame, Level, Power, Switch};
use crate::protocol::frame::framed;

verus! {

/// Payload of the power command for `channel`, on or off.
pub open spec fn power_payload(channel: Channel, on: bool) -> Seq<u8> {
    Power { channel, switch: if on { Switch::On } else { Switch::Off } }.payload()
}

/// The power frame `7e 07 04 XX CH YY 02 01 ef` for the channel whose wire
/// byte is `ch`: `XX YY` is `ff 01` to switch on and `00 00` to switch off.
pub open spec fn power_frame_bytes(ch: u8, on: bool) -> Seq<u8> {
    seq![
        0x7eu8,
        0x07u8,
        0x04u8,
        if on { 0xffu8 } else { 0x00u8 },
        ch,
        if on { 0x01u8 } else { 0x00u8 },
        0x02u8,
        0x01u8,
        0xefu8,
    ]
}

/// The frame carries the power command (`7e 07 04 …`).
pub open spec fn is_power_frame(f: Seq<u8>) -> bool {
    f.len() == 9 && f[1] == 0x07 && f[2] == 0x04
}

/// The bytes of each frame, in order.
pub open spec fn frame_views(frames: Seq<Frame>) -> Seq<Seq<u8>> {
    frames.map_values(|f: Frame| f@)
}

/// Front (downward) white light.
#[derive(Clone, Copy, Debug)]
pub struct Front {
    pub on: bool,
    pub level: Level,
    pub cct: Cct,
    /// Whether the power-on frame has been sent since the lamp last went dark.
    pub lit: bool,
}

impl Front {
    pub open spec fn power_bytes(self) -> Seq<u8> {
        framed(power_payload(Channel::Front, self.on))
    }

    pub open spec fn brightness_bytes(self) -> Seq<u8> {
        framed(Brightness { channel: Channel::Front, level: self.level }.payload())
    }

    pub open spec fn cct_bytes(self) -> Seq<u8> {
        framed(self.cct.payload())
    }

    /// Frames `wake_frames` sends from this state.
    pub open spec fn spec_wake(self) -> Seq<Seq<u8>> {
        if !self.on {
            seq![self.power_bytes()]
        } else if !self.lit {
            seq![self.power_bytes(), self.brightness_bytes(), self.cct_bytes()]
        } else {
            seq![self.brightness_bytes(), self.cct_bytes()]
        }
    }

    /// The lamp after `toggle`.
    pub open spec fn spec_toggled(self) -> Front {
        Front {
            on: !self.on,
            level: if !self.on && self.level@ < 8 {
                level_of(40)
            } else {
                self.level
            },
            ..self
        }
    }

    pub fn new(on: bool, level: Level, cct: Cct) -> (f: Front)
        ensures
            f.on == on,
            f.level == level,
            f.cct == cct,
            !f.lit,
    {
        Front { on, level, cct, lit: false }
    }

    /// Forgets that the lamp was lit (the link went down).
    pub fn extinguish(&mut self)
        ensures
            final(self).on == old(self).on,
            final(self).level == old(self).level,
            final(self).cct == old(self).cct,
            !final(self).lit,
    {
        self.lit = false;
    }

    /// Takes the remembered power state as the real one (just connected).
    pub fn sync_lit(&mut self)
        ensures
            final(self).on == old(self).on,
            final(self).level == old(self).level,
            final(self).cct == old(self).cct,
            final(self).lit == old(self).on,
    {
        self.lit = self.on;
    }

    /// Sets the brightness; setting a level turns the lamp on.
    pub fn set_level(&mut self, level: Level)
        ensures
            final(self).on,
            final(self).level == level,
            final(self).cct == old(self).cct,
            final(self).lit == old(self).lit,
    {
        self.level = level;
        self.on = true;
    }

    /// Flips the power; a lamp switched on below level 8 comes back at 40.
    pub fn toggle(&mut self)
        ensures
            *final(self) == old(self).spec_toggled(),
            final(self).on == !old(self).on,
            final(self).level@ == (if !old(self).on && old(self).level@ < 8 {
                40
            } else {
                old(self).level@
            }),
            final(self).cct == old(self).cct,
            final(self).lit == old(self).lit,
    {
        proof {
            crate::protocol::level::lemma_level_view(self.level, self.level, 40);
        }
        self.on = !self.on;
        if self.on && self.level.byte() < 8 {
            self.level = Level::from_byte(40);
        }
    }

    /// The power-on frame, if the lamp is on and has not been powered yet.
    pub fn arm(&mut self) -> (f: Option<Frame>)
        ensures
            final(self).on == old(self).on,
            final(self).level == old(self).level,
            final(self).cct == old(self).cct,
            final(self).lit == old(self).on,
            match f {
                Some(frame) => old(self).on && !old(self).lit && frame@ == old(
                    self,
                ).power_bytes(),
                None => !old(self).on || old(self).lit,
            },
    {
        if !self.on {
            self.lit = false;
            return None;
        }
        if self.lit {
            return None;
        }
        self.lit = true;
        Some(self.power_frame())
    }

    pub fn power_frame(&self) -> (f: Frame)
        ensures
            f@ == self.power_bytes(),
    {
        Command::power(Channel::Front, self.on).frame()
    }

    pub fn brightness_frame(&self) -> (f: Frame)
        ensures
            f@ == self.brightness_bytes(),
    {
        Command::brightness(Channel::Front, self.level).frame()
    }

    pub fn cct_frame(&self) -> (f: Frame)
        ensures
            f@ == self.cct_bytes(),
    {
        self.cct.frame()
    }

    /// Frames that bring the lamp to this state: power (if it still has to be
    /// switched), then brightness and colour temperature; only power-off when off.
    pub fn wake_frames(&mut self) -> (frames: Vec<Frame>)
        ensures
            final(self).on == old(self).on,
            final(self).level == old(self).level,
            final(self).cct == old(self).cct,
            final(self).lit == old(self).on,
            frame_views(frames@) == old(self).spec_wake(),
    {
        if !self.on {
            self.lit = false;
            let mut frames = Vec::new();
            frames.push(self.power_frame());
            assert(frame_views(frames@) =~= old(self).spec_wake());
            return frames;
        }
        let mut frames = Vec::new();
        if !self.lit {
            frames.push(self.power_frame());
            self.lit = true;
        }
        frames.push(self.brightness_frame());
        frames.push(self.cct_frame());
        assert(frame_views(frames@) =~= old(self).spec_wake());
        frames
    }
}

/// Law: every power frame the front light sends when woken addresses the front
/// channel (`05`) and carries the front's own on/off state; switched off, the
/// front sends nothing but `7e 07 04 00 05 00 02 01 ef`, and switched on but
/// not yet powered it first sends `7e 07 04 ff 05 01 02 01 ef`.
pub proof fn lemma_front_wake_power(f: Front)
    ensures
        !f.on ==> f.spec_wake() == seq![power_frame_bytes(0x05, false)],
        f.on && !f.lit ==> f.spec_wake()[0] == power_frame_bytes(0x05, true),
        forall|i: int|
            0 <= i < f.spec_wake().len() && is_power_frame(#[trigger] f.spec_wake()[i])
                ==> f.spec_wake()[i] == power_frame_bytes(0x05, f.on),
{
    let w = f.spec_wake();
    assert(f.power_bytes() =~= power_frame_bytes(0x05, f.on));
    let b = f.brightness_bytes();
    assert(b[1] == 0x04);
    let c = f.cct_bytes();
    assert(c[2] == 0x05);
    assert forall|i: int|
        0 <= i < w.len() && is_power_frame(#[trigger] w[i]) implies w[i] == power_frame_bytes(0x05, f.on) by {
        if f.on && f.lit {
            assert(w[i] == b || w[i] == c);
        } else if f.on {
            assert(w[i] == f.power_bytes() || w[i] == b || w[i] == c);
        }
    }
}

} // verus!

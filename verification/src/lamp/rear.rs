use vstd::prelude::*;

use crate::protocol::level::level_of;
use crate::protocol::{Brightness, Channel, Command, Effect, Frame, Level, Rgb, Speed};
use crate::protocol::frame::framed;
use super::front::{frame_views, is_power_frame, power_frame_bytes, power_payload};

verus! {

/// What the rear (wall-wash) light shows.
#[derive(Clone, Copy, Debug, PartialEq, Eq, Structural)]
pub enum RearLook {
    Solid(Rgb),
    Play(Effect),
    Audio,
}

/// Rear RGB light. `solid` and `effect` remember the last colour and the last
/// effect, so switching between the two looks restores each.
#[derive(Clone, Copy, Debug)]
pub struct Rear {
    pub on: bool,
    pub level: Level,
    pub look: RearLook,
    pub speed: Level,
    pub solid: Rgb,
    pub effect: Effect,
    /// Whether the power-on frame has been sent since the lamp last went dark.
    pub lit: bool,
}

impl Rear {
    /// The look agrees with the remembered colour and effect.
    pub open spec fn memory_consistent(self) -> bool {
        match self.look {
            RearLook::Solid(c) => c == self.solid,
            RearLook::Play(e) => e == self.effect,
            RearLook::Audio => true,
        }
    }

    /// Settings other than the lit flag are equal.
    pub open spec fn same_settings(self, other: Rear) -> bool {
        &&& self.on == other.on
        &&& self.level == other.level
        &&& self.look == other.look
        &&& self.speed == other.speed
        &&& self.solid == other.solid
        &&& self.effect == other.effect
    }

    pub open spec fn power_bytes(self) -> Seq<u8> {
        framed(power_payload(Channel::Rear, self.on))
    }

    pub open spec fn brightness_bytes(self) -> Seq<u8> {
        framed(Brightness { channel: Channel::Rear, level: self.level }.payload())
    }

    /// Frame bytes that put the current look on the strip; the sound-reactive
    /// look starts by scrolling black in.
    pub open spec fn look_bytes(self) -> Seq<u8> {
        match self.look {
            RearLook::Solid(c) => framed(c.payload()),
            RearLook::Play(e) => framed(e.payload()),
            RearLook::Audio => framed(Rgb { r: 0, g: 0, b: 0 }.scroll_payload()),
        }
    }

    pub open spec fn speed_bytes(self) -> Seq<u8> {
        framed(Speed(self.speed).payload())
    }

    /// Frames `wake_frames` sends from this state.
    pub open spec fn spec_wake(self) -> Seq<Seq<u8>> {
        if !self.on {
            seq![self.power_bytes()]
        } else {
            let head = if !self.lit {
                seq![self.power_bytes()]
            } else {
                Seq::empty()
            };
            let body = seq![self.look_bytes(), self.brightness_bytes()];
            let tail = if self.look is Play {
                seq![self.speed_bytes()]
            } else {
                Seq::empty()
            };
            head + body + tail
        }
    }

    /// The lamp after `toggle`.
    pub open spec fn spec_toggled(self) -> Rear {
        Rear {
            on: !self.on,
            level: if !self.on && self.level@ < 8 {
                level_of(40)
            } else {
                self.level
            },
            ..self
        }
    }

    /// New rear lamp; the look fills whichever memory it names, the other
    /// starts as amber or the forward rainbow.
    pub fn new(on: bool, level: Level, look: RearLook, speed: Level) -> (r: Rear)
        ensures
            r.on == on,
            r.level == level,
            r.look == look,
            r.speed == speed,
            r.solid == (match look {
                RearLook::Solid(c) => c,
                _ => Rgb { r: 0xE0, g: 0xA8, b: 0x5C },
            }),
            r.effect == (match look {
                RearLook::Play(e) => e,
                _ => Effect::RainbowFwd,
            }),
            !r.lit,
            r.memory_consistent(),
    {
        let (solid, effect) = match look {
            RearLook::Solid(color) => (color, Effect::RainbowFwd),
            RearLook::Play(effect) => (Rgb::amber(), effect),
            RearLook::Audio => (Rgb::amber(), Effect::RainbowFwd),
        };
        Rear { on, level, look, speed, solid, effect, lit: false }
    }

    /// Replaces the remembered colour and effect; the look is unchanged.
    pub fn with_memory(self, solid: Rgb, effect: Effect) -> (r: Rear)
        ensures
            r.on == self.on,
            r.level == self.level,
            r.look == self.look,
            r.speed == self.speed,
            r.solid == solid,
            r.effect == effect,
            r.lit == self.lit,
    {
        let mut r = self;
        r.solid = solid;
        r.effect = effect;
        r
    }

    /// Forgets that the lamp was lit (the link went down).
    pub fn extinguish(&mut self)
        ensures
            final(self).same_settings(*old(self)),
            !final(self).lit,
    {
        self.lit = false;
    }

    /// Takes the remembered power state as the real one (just connected).
    pub fn sync_lit(&mut self)
        ensures
            final(self).same_settings(*old(self)),
            final(self).lit == old(self).on,
    {
        self.lit = self.on;
    }

    /// Sets the brightness; setting a level turns the lamp on.
    pub fn set_level(&mut self, level: Level)
        ensures
            final(self).on,
            final(self).level == level,
            final(self).look == old(self).look,
            final(self).speed == old(self).speed,
            final(self).solid == old(self).solid,
            final(self).effect == old(self).effect,
            final(self).lit == old(self).lit,
    {
        self.level = level;
        self.on = true;
    }

    /// Shows a solid colour and remembers it; turns the lamp on.
    pub fn set_rgb(&mut self, rgb: Rgb)
        ensures
            final(self).on,
            final(self).level == old(self).level,
            final(self).look == RearLook::Solid(rgb),
            final(self).speed == old(self).speed,
            final(self).solid == rgb,
            final(self).effect == old(self).effect,
            final(self).lit == old(self).lit,
    {
        self.solid = rgb;
        self.look = RearLook::Solid(rgb);
        self.on = true;
    }

    /// Plays an effect and remembers it; turns the lamp on.
    pub fn set_effect(&mut self, effect: Effect)
        ensures
            final(self).on,
            final(self).level == old(self).level,
            final(self).look == RearLook::Play(effect),
            final(self).speed == old(self).speed,
            final(self).solid == old(self).solid,
            final(self).effect == effect,
            final(self).lit == old(self).lit,
    {
        self.effect = effect;
        self.look = RearLook::Play(effect);
        self.on = true;
    }

    /// Switches back to the remembered colour.
    pub fn show_solid(&mut self)
        ensures
            final(self).on == old(self).on,
            final(self).level == old(self).level,
            final(self).look == RearLook::Solid(old(self).solid),
            final(self).speed == old(self).speed,
            final(self).solid == old(self).solid,
            final(self).effect == old(self).effect,
            final(self).lit == old(self).lit,
    {
        self.look = RearLook::Solid(self.solid);
    }

    /// Switches back to the remembered effect.
    pub fn show_effect(&mut self)
        ensures
            final(self).on == old(self).on,
            final(self).level == old(self).level,
            final(self).look == RearLook::Play(old(self).effect),
            final(self).speed == old(self).speed,
            final(self).solid == old(self).solid,
            final(self).effect == old(self).effect,
            final(self).lit == old(self).lit,
    {
        self.look = RearLook::Play(self.effect);
    }

    /// Switches to the sound-reactive look; turns the lamp on.
    pub fn show_audio(&mut self)
        ensures
            final(self).on,
            final(self).level == old(self).level,
            final(self).look == RearLook::Audio,
            final(self).speed == old(self).speed,
            final(self).solid == old(self).solid,
            final(self).effect == old(self).effect,
            final(self).lit == old(self).lit,
    {
        self.look = RearLook::Audio;
        self.on = true;
    }

    /// Flips the power; a lamp switched on below level 8 comes back at 40.
    pub fn toggle(&mut self)
        ensures
            *final(self) == old(self).spec_toggled(),
            final(self).on == !old(self).on,
            final(self).level@ == (if !old(self).on && old(self).level@ < 8 {
                40
            } else {
                old(self).level@
            }),
            final(self).look == old(self).look,
            final(self).speed == old(self).speed,
            final(self).solid == old(self).solid,
            final(self).effect == old(self).effect,
            final(self).lit == old(self).lit,
    {
        proof {
            crate::protocol::level::lemma_level_view(self.level, self.level, 40);
        }
        self.on = !self.on;
        if self.on && self.level.byte() < 8 {
            self.level = Level::from_byte(40);
        }
    }

    /// The power-on frame, if the lamp is on and has not been powered yet.
    pub fn arm(&mut self) -> (f: Option<Frame>)
        ensures
            final(self).same_settings(*old(self)),
            final(self).lit == old(self).on,
            match f {
                Some(frame) => old(self).on && !old(self).lit && frame@ == old(
                    self,
                ).power_bytes(),
                None => !old(self).on || old(self).lit,
            },
    {
        if !self.on {
            self.lit = false;
            return None;
        }
        if self.lit {
            return None;
        }
        self.lit = true;
        Some(self.power_frame())
    }

    pub fn power_frame(&self) -> (f: Frame)
        ensures
            f@ == self.power_bytes(),
    {
        Command::power(Channel::Rear, self.on).frame()
    }

    pub fn brightness_frame(&self) -> (f: Frame)
        ensures
            f@ == self.brightness_bytes(),
    {
        Command::brightness(Channel::Rear, self.level).frame()
    }

    pub fn look_frame(&self) -> (f: Frame)
        ensures
            f@ == self.look_bytes(),
    {
        match self.look {
            RearLook::Solid(rgb) => rgb.frame(),
            RearLook::Play(effect) => effect.frame(),
            RearLook::Audio => Rgb::black().scroll_frame(),
        }
    }

    pub fn speed_frame(&self) -> (f: Frame)
        ensures
            f@ == self.speed_bytes(),
    {
        Speed::new(self.speed).frame()
    }

    /// Frames that bring the lamp to this state: power (if it still has to be
    /// switched), look, brightness, and speed while an effect plays; only
    /// power-off when off.
    pub fn wake_frames(&mut self) -> (frames: Vec<Frame>)
        ensures
            final(self).same_settings(*old(self)),
            final(self).lit == old(self).on,
            frame_views(frames@) == old(self).spec_wake(),
    {
        if !self.on {
            self.lit = false;
            let mut frames = Vec::new();
            frames.push(self.power_frame());
            assert(frame_views(frames@) =~= old(self).spec_wake());
            return frames;
        }
        let mut frames = Vec::new();
        if !self.lit {
            frames.push(self.power_frame());
            self.lit = true;
        }
        frames.push(self.look_frame());
        frames.push(self.brightness_frame());
        let playing = match self.look {
            RearLook::Play(_) => true,
            _ => false,
        };
        if playing {
            frames.push(self.speed_frame());
        }
        assert(frame_views(frames@) =~= old(self).spec_wake());
        frames
    }
}

/// Law: every power frame the rear light sends when woken addresses the rear
/// channel (`01`) and carries the rear's own on/off state; switched off, the
/// rear sends nothing but `7e 07 04 00 01 00 02 01 ef`, and switched on but not
/// yet powered it first sends `7e 07 04 ff 01 01 02 01 ef`.
pub proof fn lemma_rear_wake_power(r: Rear)
    ensures
        !r.on ==> r.spec_wake() == seq![power_frame_bytes(0x01, false)],
        r.on && !r.lit ==> r.spec_wake()[0] == power_frame_bytes(0x01, true),
        forall|i: int|
            0 <= i < r.spec_wake().len() && is_power_frame(#[trigger] r.spec_wake()[i])
                ==> r.spec_wake()[i] == power_frame_bytes(0x01, r.on),
{
    let w = r.spec_wake();
    assert(r.power_bytes() =~= power_frame_bytes(0x01, r.on));
    let l = r.look_bytes();
    assert(l[2] != 0x04);
    let b = r.brightness_bytes();
    assert(b[1] == 0x04);
    let s = r.speed_bytes();
    assert(s[2] == 0x02);
    assert forall|i: int|
        0 <= i < w.len() && is_power_frame(#[trigger] w[i]) implies w[i] == power_frame_bytes(0x01, r.on) by {
        if r.on {
            assert(w[i] == r.power_bytes() || w[i] == l || w[i] == b || w[i] == s);
        }
    }
}

} // verus!

//! What is remembered between runs: the last lamp, app preferences and a
//! snapshot of both lights. Reading and writing the file is the app's part.

use vstd::prelude::*;
use vstd::string::StringExecFns;

use crate::desktop::{join_path, joined, opt_view, spec_home_dir};
use crate::lamp::{Front, Rear, RearLook};
use crate::protocol::{Cct, Effect, Level, Rgb};
use crate::protocol::cct::cct_of;
use crate::protocol::effect::{effect_with_byte, lemma_all_effects_listed, lemma_byte_identifies_effect};
use crate::protocol::level::level_of;

verus! {

/// What closing the window does.
#[derive(Clone, Copy, Debug, PartialEq, Eq, Structural)]
pub enum ClosePreference {
    Ask,
    Quit,
    Background,
}

impl Default for ClosePreference {
    fn default() -> (p: ClosePreference)
        ensures
            p == ClosePreference::Ask,
    {
        ClosePreference::Ask
    }
}

/// Saved state of the app.
#[derive(Clone, Debug)]
pub struct Session {
    pub last_addr: Option<String>,
    pub last_name: Option<String>,
    pub close_preference: ClosePreference,
    pub restore_after_shutdown: bool,
    pub autostart: bool,
    pub off_on_shutdown: bool,
    pub front: FrontSnap,
    pub rear: RearSnap,
}

/// Saved front light.
#[derive(Clone, Copy, Debug, PartialEq, Eq, Structural)]
pub struct FrontSnap {
    pub on: bool,
    pub level: u8,
    pub kelvin: u16,
}

/// Saved rear light. `effect` without `playing` (older files) means an effect
/// was playing.
#[derive(Clone, Copy, Debug, PartialEq, Eq)]
pub struct RearSnap {
    pub on: bool,
    pub level: u8,
    pub rgb: [u8; 3],
    pub effect: Option<u8>,
    pub playing: Option<bool>,
    pub speed: u8,
    pub audio: bool,
    pub audio_sensitivity: u8,
    pub audio_dynamic: bool,
}

/// Default for flags that start switched on.
pub fn default_true() -> (b: bool)
    ensures
        b,
{
    true
}

/// Default brightness byte.
pub fn default_level() -> (l: u8)
    ensures
        l == 48,
{
    48
}

/// Default colour temperature.
pub fn default_kelvin() -> (k: u16)
    ensures
        k == 4500,
{
    4500
}

/// Default remembered colour (amber).
pub fn default_rgb() -> (c: [u8; 3])
    ensures
        c@ == seq![0xE0u8, 0xA8u8, 0x5Cu8],
{
    let c = [0xE0u8, 0xA8, 0x5C];
    assert(c@ =~= seq![0xE0u8, 0xA8u8, 0x5Cu8]);
    c
}

/// Default effect speed byte.
pub fn default_speed() -> (s: u8)
    ensures
        s == 0x5a,
{
    0x5a
}

/// Default sound sensitivity (1–100).
pub fn default_audio_sensitivity() -> (s: u8)
    ensures
        s == 70,
{
    70
}

impl Default for FrontSnap {
    fn default() -> (s: FrontSnap)
        ensures
            s == (FrontSnap { on: true, level: 48, kelvin: 4500 }),
    {
        FrontSnap { on: default_true(), level: default_level(), kelvin: default_kelvin() }
    }
}

impl RearSnap {
    /// The default snapshot: off, level 48, amber, no effect, speed 0x5a.
    pub open spec fn is_default(self) -> bool {
        &&& !self.on
        &&& self.level == 48
        &&& self.rgb@ == seq![0xE0u8, 0xA8u8, 0x5Cu8]
        &&& self.effect is None
        &&& self.playing is None
        &&& self.speed == 0x5a
        &&& !self.audio
        &&& self.audio_sensitivity == 70
        &&& !self.audio_dynamic
    }
}

impl Default for RearSnap {
    fn default() -> (s: RearSnap)
        ensures
            s.is_default(),
    {
        RearSnap {
            on: false,
            level: default_level(),
            rgb: default_rgb(),
            effect: None,
            playing: None,
            speed: default_speed(),
            audio: false,
            audio_sensitivity: default_audio_sensitivity(),
            audio_dynamic: false,
        }
    }
}

impl Default for Session {
    fn default() -> (s: Session)
        ensures
            s.last_addr is None,
            s.last_name is None,
            s.close_preference == ClosePreference::Ask,
            !s.restore_after_shutdown,
            !s.autostart,
            s.off_on_shutdown,
            s.front == (FrontSnap { on: true, level: 48, kelvin: 4500 }),
            s.rear.is_default(),
    {
        Session {
            last_addr: None,
            last_name: None,
            close_preference: ClosePreference::Ask,
            restore_after_shutdown: false,
            autostart: false,
            off_on_shutdown: true,
            front: FrontSnap::default(),
            rear: RearSnap::default(),
        }
    }
}

/// The front lamp a snapshot restores; it is not lit yet.
pub open spec fn restored_front(snap: FrontSnap) -> Front {
    Front { on: snap.on, level: level_of(snap.level), cct: cct_of(snap.kelvin), lit: false }
}

/// The rear lamp a snapshot restores; it is not lit yet.
pub open spec fn restored_rear(snap: RearSnap) -> Rear {
    Rear {
        on: snap.on,
        level: level_of(snap.level),
        look: restored_look(snap),
        speed: level_of(snap.speed),
        solid: restored_solid(snap),
        effect: restored_effect(snap),
        lit: false,
    }
}

/// The effect a snapshot restores: its saved byte if that names an effect,
/// otherwise the forward rainbow.
pub open spec fn restored_effect(snap: RearSnap) -> Effect {
    match snap.effect {
        Some(b) => match effect_with_byte(b) {
            Some(e) => e,
            None => Effect::RainbowFwd,
        },
        None => Effect::RainbowFwd,
    }
}

/// The colour a snapshot restores.
pub open spec fn restored_solid(snap: RearSnap) -> Rgb {
    Rgb { r: snap.rgb@[0], g: snap.rgb@[1], b: snap.rgb@[2] }
}

/// The look a snapshot restores: sound-reactive first, then the effect when
/// one was playing (or, in older files, when an effect was saved at all),
/// otherwise the solid colour.
pub open spec fn restored_look(snap: RearSnap) -> RearLook {
    let playing = match snap.playing {
        Some(p) => p,
        None => snap.effect is Some,
    };
    if snap.audio {
        RearLook::Audio
    } else if playing {
        RearLook::Play(restored_effect(snap))
    } else {
        RearLook::Solid(restored_solid(snap))
    }
}

/// The snapshot `RearSnap::from_lamp` takes of a rear lamp.
pub open spec fn snap_of_rear(rear: Rear) -> RearSnap {
    RearSnap {
        on: rear.on,
        level: rear.level@,
        rgb: [rear.solid.r, rear.solid.g, rear.solid.b],
        effect: Some(rear.effect.spec_byte()),
        playing: Some(rear.look is Play),
        speed: rear.speed@,
        audio: rear.look is Audio,
        audio_sensitivity: 70,
        audio_dynamic: false,
    }
}

/// The directory the session file and the shutdown log live in:
/// `$XDG_DATA_HOME/hi-my-light`, else `$HOME/.local/share/hi-my-light`,
/// else `./hi-my-light`.
pub open spec fn spec_session_dir(xdg_data_home: Option<Seq<char>>, home: Option<Seq<char>>) -> Seq<char> {
    let dir = match xdg_data_home {
        Some(d) => d,
        None => match home {
            Some(h) => joined(h, ".local/share"@),
            None => "."@,
        },
    };
    joined(dir, "hi-my-light"@)
}

/// The session directory from `$XDG_DATA_HOME` and `$HOME`.
pub fn session_dir(xdg_data_home: Option<&str>, home: Option<&str>) -> (p: String)
    ensures
        p@ == spec_session_dir(opt_view(xdg_data_home), opt_view(home)),
{
    let dir = match xdg_data_home {
        Some(d) => String::from_str(d),
        None => match home {
            Some(h) => join_path(h, ".local/share"),
            None => String::from_str("."),
        },
    };
    join_path(dir.as_str(), "hi-my-light")
}

impl Session {
    /// Where the session is saved: `session.json` in the session directory.
    pub fn path(xdg_data_home: Option<&str>, home: Option<&str>) -> (p: String)
        ensures
            p@ == joined(spec_session_dir(opt_view(xdg_data_home), opt_view(home)), "session.json"@),
    {
        let dir = session_dir(xdg_data_home, home);
        join_path(dir.as_str(), "session.json")
    }

    /// The front lamp this session restores; it is not lit yet.
    pub fn front_lamp(&self) -> (f: Front)
        ensures
            f == restored_front(self.front),
    {
        Front::new(
            self.front.on,
            Level::from_byte(self.front.level),
            Cct::from_kelvin(self.front.kelvin),
        )
    }

    /// The rear lamp this session restores; it is not lit yet.
    pub fn rear_lamp(&self) -> (r: Rear)
        ensures
            r == restored_rear(self.rear),
    {
        let snap = &self.rear;
        let solid = Rgb::new(snap.rgb[0], snap.rgb[1], snap.rgb[2]);
        let effect = match snap.effect {
            Some(b) => match effect_from_byte(b) {
                Some(e) => e,
                None => Effect::RainbowFwd,
            },
            None => Effect::RainbowFwd,
        };
        let playing = match snap.playing {
            Some(p) => p,
            None => snap.effect.is_some(),
        };
        let look = if snap.audio {
            RearLook::Audio
        } else if playing {
            RearLook::Play(effect)
        } else {
            RearLook::Solid(solid)
        };
        Rear::new(snap.on, Level::from_byte(snap.level), look, Level::from_byte(snap.speed))
            .with_memory(solid, effect)
    }
}

impl FrontSnap {
    /// Snapshot of a front lamp.
    pub fn from_lamp(front: &Front) -> (s: FrontSnap)
        ensures
            s == (FrontSnap { on: front.on, level: front.level@, kelvin: front.cct@ }),
    {
        FrontSnap { on: front.on, level: front.level.byte(), kelvin: front.cct.kelvin() }
    }
}

impl RearSnap {
    /// Snapshot of a rear lamp: both memories, which look is showing, and the
    /// default sound settings.
    pub fn from_lamp(rear: &Rear) -> (s: RearSnap)
        ensures
            s == snap_of_rear(*rear),
    {
        let playing = match rear.look {
            RearLook::Play(_) => true,
            _ => false,
        };
        let audio = match rear.look {
            RearLook::Audio => true,
            _ => false,
        };
        let s = RearSnap {
            on: rear.on,
            level: rear.level.byte(),
            rgb: [rear.solid.r, rear.solid.g, rear.solid.b],
            effect: Some(rear.effect.byte()),
            playing: Some(playing),
            speed: rear.speed.byte(),
            audio,
            audio_sensitivity: default_audio_sensitivity(),
            audio_dynamic: false,
        };
        assert(s.rgb@ =~= snap_of_rear(*rear).rgb@);
        s
    }
}

/// The effect whose mode byte is `byte`, if any.
pub fn effect_from_byte(byte: u8) -> (e: Option<Effect>)
    ensures
        e == effect_with_byte(byte),
{
    let all = Effect::all();
    let mut i: usize = 0;
    while i < 47
        invariant
            i <= 47,
            all@ == Effect::spec_all(),
            forall|j: int| 0 <= j < i ==> (#[trigger] all@[j]).spec_byte() != byte,
        decreases 47 - i,
    {
        let e = all[i];
        if e.byte() == byte {
            proof {
                lemma_byte_identifies_effect(e);
            }
            return Some(e);
        }
        i = i + 1;
    }
    proof {
        if let Some(e) = effect_with_byte(byte) {
            lemma_all_effects_listed(e);
            let k = choose|k: int| 0 <= k < 47 && Effect::spec_all()[k] == e;
            assert(all@[k].spec_byte() != byte);
            assert(e.spec_byte() == byte);
        }
    }
    None
}

/// Saving a front lamp and restoring it gives back its power, level and
/// colour temperature.
pub proof fn lemma_front_snapshot_roundtrip(front: Front)
    requires
        1 <= front.level@ <= 100,
        3000 <= front.cct@ <= 6000,
    ensures
        ({
            let snap = FrontSnap { on: front.on, level: front.level@, kelvin: front.cct@ };
            &&& snap.on == front.on
            &&& level_of(snap.level) == front.level
            &&& cct_of(snap.kelvin) == front.cct
        }),
{
    crate::protocol::level::lemma_level_of_byte(front.level);
    crate::protocol::cct::lemma_cct_of_kelvin(front.cct, front.cct@);
}

/// Saving a rear lamp and restoring it gives back its power, level, look,
/// speed and both memories, as long as the look agrees with the memories.
pub proof fn lemma_rear_snapshot_roundtrip(rear: Rear)
    requires
        rear.memory_consistent(),
        1 <= rear.level@ <= 100,
        1 <= rear.speed@ <= 100,
    ensures
        ({
            let snap = snap_of_rear(rear);
            &&& snap.on == rear.on
            &&& level_of(snap.level) == rear.level
            &&& restored_look(snap) == rear.look
            &&& level_of(snap.speed) == rear.speed
            &&& restored_solid(snap) == rear.solid
            &&& restored_effect(snap) == rear.effect
        }),
{
    crate::protocol::level::lemma_level_of_byte(rear.level);
    crate::protocol::level::lemma_level_of_byte(rear.speed);
    lemma_byte_identifies_effect(rear.effect);
    let snap = snap_of_rear(rear);
    assert(snap.rgb@ =~= seq![rear.solid.r, rear.solid.g, rear.solid.b]);
}

} // verus!

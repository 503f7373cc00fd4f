//! Nine-byte write frames understood by the lamp.

pub mod frame;
pub mod channel;
pub mod level;
pub mod brightness;
pub mod speed;
pub mod power;

pub use frame::Frame;
pub use channel::Channel;
pub use level::Level;
pub use brightness::Brightness;
pub use speed::Speed;
pub use power::{Power, Switch};
pub mod cct;
pub use cct::{Cct, WhiteMix};
pub mod rgb;
pub mod handshake;
pub use rgb::Rgb;
pub use handshake::{Clock, Query};
pub mod effect;
pub use effect::{Effect, EffectGroup};
pub mod command;
pub use command::Command;

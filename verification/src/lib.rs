//! Control of a BLE desk lamp: the nine-byte wire protocol, what the app
//! remembers of each light, the lamp service that decides what is written
//! and saved, the BLE worker's replies, the shutdown turn-off decisions,
//! installation paths and texts, and the command-line input.

pub mod protocol;
pub mod lamp;
pub mod pending;
pub mod session;
pub mod shutdown_once;
pub mod bridge;
pub mod error;
pub mod desktop;
pub mod cli;
pub mod preview;
pub mod tray;
pub mod os_shutdown;
pub mod audio;
pub mod ui;
pub mod service;
pub mod device;
pub mod worker;
mod text;

pub use error::BleError;
pub use protocol::{
    Brightness, Cct, Channel, Clock, Command, Effect, EffectGroup, Frame, Level, Power, Query, Rgb,
    Speed, Switch, WhiteMix,
};

//! What the app remembers of each lamp, and the frames that bring the real
//! lamp in line with it.

pub mod front;
pub mod rear;
pub mod scene;

pub use front::Front;
pub use rear::{Rear, RearLook};
pub use scene::Scene;

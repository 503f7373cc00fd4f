use vstd::prelude::*;

use crate::protocol::{Cct, Level};

verus! {

/// A named front-light preset.
#[derive(Clone, Copy, Debug)]
pub struct Scene {
    pub id: &'static str,
    pub name: &'static str,
    pub level: Level,
    pub cct: Cct,
}

impl Scene {
    /// The three presets: night, reading and focus.
    pub fn scenes() -> (s: [Scene; 3])
        ensures
            s[0].id@ == "night"@,
            s[0].name@ == "夜航"@,
            s[0].level@ == 16,
            s[0].cct@ == 3000,
            s[1].id@ == "read"@,
            s[1].name@ == "阅读"@,
            s[1].level@ == 62,
            s[1].cct@ == 4500,
            s[2].id@ == "focus"@,
            s[2].name@ == "专注"@,
            s[2].level@ == 88,
            s[2].cct@ == 5000,
    {
        [
            Scene { id: "night", name: "夜航", level: Level::from_byte(16), cct: Cct::warm_preset() },
            Scene { id: "read", name: "阅读", level: Level::from_byte(62), cct: Cct::read_preset() },
            Scene {
                id: "focus",
                name: "专注",
                level: Level::from_byte(88),
                cct: Cct::from_kelvin(5000),
            },
        ]
    }
}

} // verus!

use vstd::prelude::*;

verus! {

/// The byte a requested level becomes: clamped into `0x01..=0x64`.
pub open spec fn clamp_level(byte: u8) -> u8 {
    if byte < 1 {
        1
    } else if byte > 100 {
        100
    } else {
        byte
    }
}

/// The level made from a raw byte.
pub closed spec fn level_of(byte: u8) -> Level {
    Level(clamp_level(byte))
}

/// Brightness or speed level: protocol range `0x01..=0x64` (about 1 %..=100 %).
#[derive(Clone, Copy, Debug, PartialEq, Eq, PartialOrd, Ord, Hash)]
pub struct Level(u8);

impl View for Level {
    type V = u8;

    closed spec fn view(&self) -> u8 {
        self.0
    }
}

impl Level {
    #[verifier::type_invariant]
    spec fn in_range(self) -> bool {
        1 <= self.0 <= 100
    }

    /// The lowest level, `0x01`.
    pub fn min_level() -> (l: Level)
        ensures
            l@ == 1,
    {
        Level(1)
    }

    /// The highest level, `0x64`.
    pub fn max_level() -> (l: Level)
        ensures
            l@ == 100,
    {
        Level(100)
    }

    /// Level for a raw byte, clamped into the protocol range.
    pub fn from_byte(byte: u8) -> (l: Level)
        ensures
            l@ == clamp_level(byte),
            l == level_of(byte),
    {
        Level(
            if byte < 1 {
                1
            } else if byte > 100 {
                100
            } else {
                byte
            },
        )
    }

    /// The wire byte of the level.
    pub fn byte(self) -> (b: u8)
        ensures
            b == self@,
            1 <= b <= 100,
    {
        proof {
            use_type_invariant(&self);
        }
        self.0
    }
}

impl Default for Level {
    fn default() -> (l: Level)
        ensures
            l@ == 48,
    {
        Level(48)
    }
}

/// Levels are determined by their byte, and `level_of` yields the clamped byte.
pub proof fn lemma_level_view(a: Level, b: Level, byte: u8)
    ensures
        a@ == b@ ==> a == b,
        level_of(byte)@ == clamp_level(byte),
{
}

/// Making a level from the byte of a valid level gives that level back.
pub proof fn lemma_level_of_byte(l: Level)
    requires
        1 <= l@ <= 100,
    ensures
        level_of(l@) == l,
{
}

/// A level made from a byte already in range is that byte, and making a level
/// from the byte of a level gives the level back.
pub proof fn lemma_level_byte_roundtrip(byte: u8)
    requires
        1 <= byte <= 100,
    ensures
        clamp_level(byte) == byte,
        clamp_level(clamp_level(byte)) == clamp_level(byte),
{
}

/// Every byte clamps into the protocol range, and clamping twice is clamping once.
pub proof fn lemma_clamp_level_range(byte: u8)
    ensures
        1 <= clamp_level(byte) <= 100,
        clamp_level(clamp_level(byte)) == clamp_level(byte),
        byte <= 1 ==> clamp_level(byte) == 1,
        byte >= 100 ==> clamp_level(byte) == 100,
{
}

} // verus!

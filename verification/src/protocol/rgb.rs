use vstd::prelude::*;

use super::Frame;
use super::frame::framed;

verus! {

/// Rear solid colour. `7e 07 05 03 RR GG BB 10 ef`
#[derive(Clone, Copy, Debug, PartialEq, Eq, Hash, Structural)]
pub struct Rgb {
    pub r: u8,
    pub g: u8,
    pub b: u8,
}

impl Rgb {
    pub fn new(r: u8, g: u8, b: u8) -> (c: Rgb)
        ensures
            c == (Rgb { r, g, b }),
    {
        Rgb { r, g, b }
    }

    pub fn red() -> (c: Rgb)
        ensures
            c == (Rgb { r: 0xff, g: 0x00, b: 0x00 }),
    {
        Rgb::new(0xff, 0x00, 0x00)
    }

    pub fn green() -> (c: Rgb)
        ensures
            c == (Rgb { r: 0x00, g: 0xff, b: 0x00 }),
    {
        Rgb::new(0x00, 0xff, 0x00)
    }

    pub fn blue() -> (c: Rgb)
        ensures
            c == (Rgb { r: 0x00, g: 0x00, b: 0xff }),
    {
        Rgb::new(0x00, 0x00, 0xff)
    }

    pub fn cyan() -> (c: Rgb)
        ensures
            c == (Rgb { r: 0x00, g: 0xff, b: 0xff }),
    {
        Rgb::new(0x00, 0xff, 0xff)
    }

    pub fn yellow() -> (c: Rgb)
        ensures
            c == (Rgb { r: 0xff, g: 0xff, b: 0x00 }),
    {
        Rgb::new(0xff, 0xff, 0x00)
    }

    pub fn purple() -> (c: Rgb)
        ensures
            c == (Rgb { r: 0xc0, g: 0x00, b: 0xff }),
    {
        Rgb::new(0xc0, 0x00, 0xff)
    }

    pub fn white() -> (c: Rgb)
        ensures
            c == (Rgb { r: 0xff, g: 0xff, b: 0xff }),
    {
        Rgb::new(0xff, 0xff, 0xff)
    }

    pub fn black() -> (c: Rgb)
        ensures
            c == (Rgb { r: 0x00, g: 0x00, b: 0x00 }),
    {
        Rgb::new(0x00, 0x00, 0x00)
    }

    /// The colour remembered for a rear lamp that has never shown a solid colour.
    pub fn amber() -> (c: Rgb)
        ensures
            c == (Rgb { r: 0xE0, g: 0xA8, b: 0x5C }),
    {
        Rgb::new(0xE0, 0xA8, 0x5C)
    }

    /// Colour presets offered in the colour picker, with their labels.
    pub fn presets() -> (p: Vec<(&'static str, Rgb)>)
        ensures
            p@.len() == 6,
            p@[0].1 == (Rgb { r: 0xE0, g: 0x7A, b: 0x5F }),
            p@[1].1 == (Rgb { r: 0xE0, g: 0xA8, b: 0x5C }),
            p@[2].1 == (Rgb { r: 0x4C, g: 0xAF, b: 0x8A }),
            p@[3].1 == (Rgb { r: 0x6A, g: 0x9B, b: 0xC3 }),
            p@[4].1 == (Rgb { r: 0xA6, g: 0x7D, b: 0xB8 }),
            p@[5].1 == (Rgb { r: 0xff, g: 0xff, b: 0xff }),
            p@[0].0@ == "赤陶"@,
            p@[1].0@ == "琥珀"@,
            p@[2].0@ == "松绿"@,
            p@[3].0@ == "雾蓝"@,
            p@[4].0@ == "丁香"@,
            p@[5].0@ == "白"@,
    {
        let mut p = Vec::new();
        p.push(("赤陶", Rgb::new(0xE0, 0x7A, 0x5F)));
        p.push(("琥珀", Rgb::new(0xE0, 0xA8, 0x5C)));
        p.push(("松绿", Rgb::new(0x4C, 0xAF, 0x8A)));
        p.push(("雾蓝", Rgb::new(0x6A, 0x9B, 0xC3)));
        p.push(("丁香", Rgb::new(0xA6, 0x7D, 0xB8)));
        p.push(("白", Rgb::white()));
        p
    }

    /// The colour as `0xRRGGBB`.
    pub open spec fn spec_packed(self) -> int {
        self.r * 0x10000 + self.g * 0x100 + self.b
    }

    pub fn packed(self) -> (p: u32)
        ensures
            p == self.spec_packed(),
    {
        let r = self.r as u32;
        let g = self.g as u32;
        let b = self.b as u32;
        assert(r < 256 && g < 256 && b < 256 ==> (r << 16) | (g << 8) | b == r * 0x10000 + g * 0x100 + b)
            by (bit_vector);
        (r << 16) | (g << 8) | b
    }

    /// The seven payload bytes of the solid-colour command.
    pub open spec fn payload(self) -> Seq<u8> {
        seq![0x07u8, 0x05u8, 0x03u8, self.r, self.g, self.b, 0x10u8]
    }

    /// The seven payload bytes of the colour-scroll command, which pushes one
    /// colour into the strip: `7e 07 05 03 RR GG BB 20 ef`.
    pub open spec fn scroll_payload(self) -> Seq<u8> {
        seq![0x07u8, 0x05u8, 0x03u8, self.r, self.g, self.b, 0x20u8]
    }

    pub fn frame(self) -> (f: Frame)
        ensures
            f@ == framed(self.payload()),
    {
        let payload = [0x07u8, 0x05, 0x03, self.r, self.g, self.b, 0x10];
        assert(payload@ =~= self.payload());
        Frame::pack(payload)
    }

    /// Scrolls this colour into the strip (sound-reactive mode).
    pub fn scroll_frame(self) -> (f: Frame)
        ensures
            f@ == framed(self.scroll_payload()),
    {
        let payload = [0x07u8, 0x05, 0x03, self.r, self.g, self.b, 0x20];
        assert(payload@ =~= self.scroll_payload());
        Frame::pack(payload)
    }
}

} // verus!

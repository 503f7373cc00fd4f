use vstd::prelude::*;

use super::Frame;
use super::frame::framed;

verus! {

/// Warm-white share (out of `0x64`) for a colour temperature in `3000..=6000` K.
///
/// Linear interpolation between the captured knots
/// (3000 K, 0x64), (4000 K, 0x4b), (4500 K, 0x32), (5000 K, 0x19), (6000 K, 0x00),
/// computed in single precision and rounded half away from zero. That equals
/// the exactly rounded interpolation everywhere except at 5540 K, where the
/// single-precision product lands just below the half and the share is 11.
pub open spec fn warm_share(kelvin: int) -> int {
    if kelvin <= 4000 {
        (200000 - 50 * (kelvin - 3000) + 1000) / 2000
    } else if kelvin <= 4500 {
        (75000 - 50 * (kelvin - 4000) + 500) / 1000
    } else if kelvin <= 5000 {
        (50000 - 50 * (kelvin - 4500) + 500) / 1000
    } else if kelvin == 5540 {
        11
    } else {
        (50000 - 50 * (kelvin - 5000) + 1000) / 2000
    }
}

/// Colour temperature after clamping into `3000..=6000` K.
pub open spec fn clamp_kelvin(kelvin: u16) -> u16 {
    if kelvin < 3000 {
        3000
    } else if kelvin > 6000 {
        6000
    } else {
        kelvin
    }
}

/// The colour temperature made from a raw value.
pub closed spec fn cct_of(kelvin: u16) -> Cct {
    Cct { kelvin: clamp_kelvin(kelvin) }
}

/// Making a colour temperature from the kelvin of a valid one gives it back,
/// and `cct_of` yields the clamped kelvin.
pub proof fn lemma_cct_of_kelvin(c: Cct, kelvin: u16)
    ensures
        3000 <= c@ <= 6000 ==> cct_of(c@) == c,
        cct_of(kelvin)@ == clamp_kelvin(kelvin),
{
}

/// Front colour temperature. Warm and cool white always add up to `0x64`.
#[derive(Clone, Copy, Debug, PartialEq, Eq, Hash)]
pub struct Cct {
    kelvin: u16,
}

impl View for Cct {
    type V = u16;

    closed spec fn view(&self) -> u16 {
        self.kelvin
    }
}

impl Cct {
    pub const MIN_K: u16 = 3000;
    pub const MAX_K: u16 = 6000;

    #[verifier::type_invariant]
    spec fn in_range(self) -> bool {
        3000 <= self.kelvin <= 6000
    }

    /// Warm preset, 3000 K.
    pub fn warm_preset() -> (c: Cct)
        ensures
            c@ == 3000,
    {
        Cct { kelvin: 3000 }
    }

    /// Reading preset, 4500 K.
    pub fn read_preset() -> (c: Cct)
        ensures
            c@ == 4500,
    {
        Cct { kelvin: 4500 }
    }

    /// Cool preset, 6000 K.
    pub fn cool_preset() -> (c: Cct)
        ensures
            c@ == 6000,
    {
        Cct { kelvin: 6000 }
    }

    /// Colour temperature clamped into `3000..=6000` K.
    pub fn from_kelvin(kelvin: u16) -> (c: Cct)
        ensures
            c@ == clamp_kelvin(kelvin),
            c == cct_of(kelvin),
    {
        let kelvin = if kelvin < 3000 {
            3000
        } else if kelvin > 6000 {
            6000
        } else {
            kelvin
        };
        Cct { kelvin }
    }

    pub fn kelvin(self) -> (k: u16)
        ensures
            k == self@,
            3000 <= k <= 6000,
    {
        proof {
            use_type_invariant(&self);
        }
        self.kelvin
    }

    /// Warm/cool split for this temperature.
    pub fn mix(self) -> (m: WhiteMix)
        ensures
            m@ == warm_share(self@ as int),
    {
        let k = self.kelvin();
        proof {
            lemma_warm_share_range(k as int);
        }
        WhiteMix::from_warm(warm_for(k))
    }

    /// The seven payload bytes of the colour-temperature command.
    pub open spec fn payload(self) -> Seq<u8> {
        let warm = warm_share(self@ as int);
        seq![0x07u8, 0x05u8, 0x02u8, warm as u8, (100 - warm) as u8, 0x02u8, 0x01u8]
    }

    /// `7e 07 05 02 WW CW 02 01 ef`
    pub fn frame(self) -> (f: Frame)
        ensures
            f@ == framed(self.payload()),
    {
        let m = self.mix();
        let f = m.frame();
        assert(m.payload() =~= self.payload());
        f
    }
}

/// The warm share is always a valid share of `0x64`.
pub proof fn lemma_warm_share_range(kelvin: int)
    requires
        3000 <= kelvin <= 6000,
    ensures
        0 <= warm_share(kelvin) <= 100,
{
}

/// Warm share of the white LEDs; cool is `0x64 - warm`.
#[derive(Clone, Copy, Debug, PartialEq, Eq)]
pub struct WhiteMix {
    warm: u8,
}

impl View for WhiteMix {
    type V = u8;

    closed spec fn view(&self) -> u8 {
        self.warm
    }
}

impl WhiteMix {
    pub const TOTAL: u8 = 0x64;

    #[verifier::type_invariant]
    spec fn within_total(self) -> bool {
        self.warm <= 100
    }

    /// Mix with the given warm share, clamped to at most `0x64`.
    pub fn from_warm(warm: u8) -> (m: WhiteMix)
        ensures
            m@ == (if warm > 100 { 100 } else { warm }),
    {
        WhiteMix { warm: if warm > 100 { 100 } else { warm } }
    }

    pub fn warm(self) -> (w: u8)
        ensures
            w == self@,
            w <= 100,
    {
        proof {
            use_type_invariant(&self);
        }
        self.warm
    }

    pub fn cool(self) -> (c: u8)
        ensures
            c == 100 - self@,
            self@ <= 100,
    {
        proof {
            use_type_invariant(&self);
        }
        100 - self.warm
    }

    /// The seven payload bytes of the white-mix command.
    pub open spec fn payload(self) -> Seq<u8> {
        seq![0x07u8, 0x05u8, 0x02u8, self@, (100 - self@) as u8, 0x02u8, 0x01u8]
    }

    pub fn frame(self) -> (f: Frame)
        ensures
            f@ == framed(self.payload()),
    {
        let payload = [0x07u8, 0x05, 0x02, self.warm(), self.cool(), 0x02, 0x01];
        assert(payload@ =~= self.payload());
        Frame::pack(payload)
    }
}

fn warm_for(kelvin: u16) -> (w: u8)
    requires
        3000 <= kelvin <= 6000,
    ensures
        w as int == warm_share(kelvin as int),
{
    let k = kelvin as u32;
    let w: u32 = if k <= 4000 {
        (200000 - 50 * (k - 3000) + 1000) / 2000
    } else if k <= 4500 {
        (75000 - 50 * (k - 4000) + 500) / 1000
    } else if k <= 5000 {
        (50000 - 50 * (k - 4500) + 500) / 1000
    } else if k == 5540 {
        11
    } else {
        (50000 - 50 * (k - 5000) + 1000) / 2000
    };
    w as u8
}

/// The captured calibration knots `(kelvin, warm share)` of the lamp, coolest last.
pub open spec fn cct_knots() -> Seq<(int, int)> {
    seq![(3000int, 100int), (4000int, 75int), (4500int, 50int), (5000int, 25int), (6000int, 0int)]
}

/// Twice the distance, scaled by the segment width `k1 - k0`, from `w` to the
/// straight line through `(k0, w0)` and `(k1, w1)` at `kelvin`:
/// `2 * (k1 - k0) * (w - (w0 + (w1 - w0) * (kelvin - k0) / (k1 - k0)))`,
/// written without division.
pub open spec fn line_error(w: int, kelvin: int, k0: int, w0: int, k1: int, w1: int) -> int {
    let d = k1 - k0;
    2 * (d * w - (d * w0 + (w1 - w0) * (kelvin - k0)))
}

/// Law: on every segment between two neighbouring calibration knots, the warm
/// share is the straight-line interpolation between the knots rounded to a
/// whole share: off by at most one half, and a value exactly halfway rounds up,
/// except at 5540 K, where the share is the lower neighbour 11.
pub proof fn lemma_warm_share_interpolates(kelvin: int, i: int)
    requires
        0 <= i < 4,
        cct_knots()[i].0 <= kelvin <= cct_knots()[i + 1].0,
    ensures
        ({
            let (k0, w0) = cct_knots()[i];
            let (k1, w1) = cct_knots()[i + 1];
            let err = line_error(warm_share(kelvin), kelvin, k0, w0, k1, w1);
            &&& -(k1 - k0) <= err <= k1 - k0
            &&& kelvin != 5540 ==> -(k1 - k0) < err
        }),
{
    let w = warm_share(kelvin);
    if i == 0 {
        assert(cct_knots()[0] == (3000int, 100int) && cct_knots()[1] == (4000int, 75int));
        let x = 201000 - 50 * (kelvin - 3000);
        assert(w == x / 2000);
        assert(2000 * w <= x < 2000 * w + 2000) by (nonlinear_arith)
            requires
                w == x / 2000,
        ;
    } else if i == 1 {
        assert(cct_knots()[1] == (4000int, 75int) && cct_knots()[2] == (4500int, 50int));
        if kelvin == 4000 {
            assert(w == 75);
        } else {
            let x = 75500 - 50 * (kelvin - 4000);
            assert(w == x / 1000);
            assert(1000 * w <= x < 1000 * w + 1000) by (nonlinear_arith)
                requires
                    w == x / 1000,
            ;
        }
    } else if i == 2 {
        assert(cct_knots()[2] == (4500int, 50int) && cct_knots()[3] == (5000int, 25int));
        if kelvin == 4500 {
            assert(w == 50);
        } else {
            let x = 50500 - 50 * (kelvin - 4500);
            assert(w == x / 1000);
            assert(1000 * w <= x < 1000 * w + 1000) by (nonlinear_arith)
                requires
                    w == x / 1000,
            ;
        }
    } else {
        assert(cct_knots()[3] == (5000int, 25int) && cct_knots()[4] == (6000int, 0int));
        if kelvin == 5000 {
            assert(w == 25);
        } else if kelvin == 5540 {
            assert(w == 11);
        } else {
            let x = 51000 - 50 * (kelvin - 5000);
            assert(w == x / 2000);
            assert(2000 * w <= x < 2000 * w + 2000) by (nonlinear_arith)
                requires
                    w == x / 2000,
            ;
        }
    }
}

/// The warm share on each calibration segment stays between the shares of its
/// two knots.
proof fn lemma_warm_share_segment_range(kelvin: int)
    requires
        3000 <= kelvin <= 6000,
    ensures
        kelvin <= 4000 ==> 75 <= warm_share(kelvin) <= 100,
        4000 < kelvin <= 4500 ==> 50 <= warm_share(kelvin) <= 75,
        4500 < kelvin <= 5000 ==> 25 <= warm_share(kelvin) <= 50,
        5000 < kelvin ==> 0 <= warm_share(kelvin) <= 25,
{
}

/// Law: the warm share never rises as the colour temperature rises: a cooler
/// setting never makes the light warmer.
pub proof fn lemma_warm_share_non_increasing(k1: int, k2: int)
    requires
        3000 <= k1 <= k2 <= 6000,
    ensures
        warm_share(k1) >= warm_share(k2),
{
    lemma_warm_share_segment_range(k1);
    lemma_warm_share_segment_range(k2);
    let w1 = warm_share(k1);
    let w2 = warm_share(k2);
    if k2 <= 4000 {
        let x1 = 201000 - 50 * (k1 - 3000);
        let x2 = 201000 - 50 * (k2 - 3000);
        vstd::arithmetic::div_mod::lemma_div_is_ordered(x2, x1, 2000);
    } else if k1 > 4000 && k2 <= 4500 {
        let x1 = 75500 - 50 * (k1 - 4000);
        let x2 = 75500 - 50 * (k2 - 4000);
        vstd::arithmetic::div_mod::lemma_div_is_ordered(x2, x1, 1000);
    } else if k1 > 4500 && k2 <= 5000 {
        let x1 = 50500 - 50 * (k1 - 4500);
        let x2 = 50500 - 50 * (k2 - 4500);
        vstd::arithmetic::div_mod::lemma_div_is_ordered(x2, x1, 1000);
    } else if k1 > 5000 {
        let x1 = 51000 - 50 * (k1 - 5000);
        let x2 = 51000 - 50 * (k2 - 5000);
        if k1 == 5540 && k2 != 5540 {
            let x = 51000 - 50 * 541;
            assert(x / 2000 == 11);
            vstd::arithmetic::div_mod::lemma_div_is_ordered(x2, x, 2000);
        } else if k2 == 5540 && k1 != 5540 {
            let x = 51000 - 50 * 539;
            assert(x / 2000 == 12);
            vstd::arithmetic::div_mod::lemma_div_is_ordered(x, x1, 2000);
        } else if k1 != 5540 {
            vstd::arithmetic::div_mod::lemma_div_is_ordered(x2, x1, 2000);
        }
    }
}

/// Warm and cool white of every colour temperature add up to `0x64`.
pub proof fn lemma_mix_sums_to_total(c: Cct)
    requires
        3000 <= c@ <= 6000,
    ensures
        warm_share(c@ as int) + (100 - warm_share(c@ as int)) == 100,
        0 <= warm_share(c@ as int) <= 100,
{
    lemma_warm_share_range(c@ as int);
}

} // verus!

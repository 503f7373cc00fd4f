//! Tray icon pixels.

use vstd::prelude::*;

verus! {

/// RGBA pixels reordered to ARGB, four bytes at a time; a trailing partial
/// pixel is dropped.
pub open spec fn argb_of(rgba: Seq<u8>) -> Seq<u8> {
    Seq::new(
        ((rgba.len() / 4) * 4) as nat,
        |k: int|
            {
                let p = (k / 4) * 4;
                let c = k % 4;
                if c == 0 {
                    rgba[p + 3]
                } else {
                    rgba[p + c - 1]
                }
            },
    )
}

/// The tray pixmap format: every RGBA pixel reordered to ARGB.
pub fn rgba_to_argb(rgba: &[u8]) -> (out: Vec<u8>)
    ensures
        out@ == argb_of(rgba@),
{
    let len = rgba.len();
    let pixels = len / 4;
    let mut out: Vec<u8> = Vec::new();
    let mut p: usize = 0;
    while p < pixels
        invariant
            len == rgba@.len(),
            pixels == rgba@.len() / 4,
            p <= pixels,
            out@.len() == p * 4,
            forall|k: int| 0 <= k < p * 4 ==> #[trigger] out@[k] == argb_of(rgba@)[k],
        decreases pixels - p,
    {
        assert(p * 4 + 3 < rgba@.len()) by (nonlinear_arith)
            requires
                p < pixels,
                pixels == rgba@.len() / 4,
        ;
        let base = p * 4;
        out.push(rgba[base + 3]);
        out.push(rgba[base]);
        out.push(rgba[base + 1]);
        out.push(rgba[base + 2]);
        proof {
            assert forall|k: int| 0 <= k < (p + 1) * 4 implies #[trigger] out@[k] == argb_of(rgba@)[k] by {
                if k >= p * 4 {
                    assert(k / 4 == p as int);
                }
            }
        }
        p = p + 1;
    }
    assert(out@ =~= argb_of(rgba@));
    out
}

} // verus!

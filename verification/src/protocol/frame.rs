use vstd::prelude::*;

use crate::text::{hex_digit_char, hex_pair, hex_text, push_char};

verus! {

/// The bytes of a frame carrying `payload`: head, the seven payload bytes, tail.
pub open spec fn framed(payload: Seq<u8>) -> Seq<u8> {
    seq![0x7eu8] + payload + seq![0xefu8]
}

/// A nine-byte write command `7e … ef`, sent to characteristic fff3.
#[derive(Clone, Copy, Debug, PartialEq, Eq)]
pub struct Frame {
    bytes: [u8; 9],
}

impl View for Frame {
    type V = Seq<u8>;

    closed spec fn view(&self) -> Seq<u8> {
        self.bytes@
    }
}

impl Frame {
    pub const HEAD: u8 = 0x7e;
    pub const TAIL: u8 = 0xef;

    #[verifier::type_invariant]
    spec fn framing(self) -> bool {
        &&& self.bytes@.len() == 9
        &&& self.bytes@[0] == 0x7e
        &&& self.bytes@[8] == 0xef
    }

    /// Wraps a seven-byte payload between head and tail.
    pub fn pack(payload: [u8; 7]) -> (f: Frame)
        ensures
            f@ == framed(payload@),
    {
        let f = Frame {
            bytes: [
                0x7e,
                payload[0],
                payload[1],
                payload[2],
                payload[3],
                payload[4],
                payload[5],
                payload[6],
                0xef,
            ],
        };
        assert(f@ =~= framed(payload@));
        f
    }

    /// The nine bytes on the wire.
    pub fn bytes(self) -> (b: [u8; 9])
        ensures
            b@ == self@,
            b@.len() == 9,
            b@[0] == 0x7e,
            b@[8] == 0xef,
    {
        proof {
            use_type_invariant(&self);
        }
        self.bytes
    }

    /// The bytes as lower-case hex pairs separated by single spaces,
    /// e.g. `7e 04 01 64 05 ff 02 01 ef`.
    pub fn hex(self) -> (s: String)
        ensures
            s@ == hex_text(self@),
    {
        let bytes = self.bytes;
        let mut s = String::new();
        let mut i: usize = 0;
        while i < 9
            invariant
                i <= 9,
                bytes@ == self@,
                bytes@.len() == 9,
                s@ == hex_text(bytes@.take(i as int)),
            decreases 9 - i,
        {
            let b = bytes[i];
            proof {
                let prefix = bytes@.take(i as int + 1);
                assert(prefix.drop_last() =~= bytes@.take(i as int));
                assert(prefix.last() == b);
            }
            if i > 0 {
                push_char(&mut s, ' ');
            }
            let hi = hex_digit_char(b / 16);
            let lo = hex_digit_char(b % 16);
            push_char(&mut s, hi);
            push_char(&mut s, lo);
            proof {
                let prefix = bytes@.take(i as int + 1);
                if i == 0 {
                    assert(s@ =~= hex_pair(b));
                } else {
                    assert(s@ =~= hex_text(prefix.drop_last()) + seq![' '] + hex_pair(b));
                }
            }
            i = i + 1;
        }
        assert(bytes@.take(9) =~= bytes@);
        s
    }
}

} // verus!

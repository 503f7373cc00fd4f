//! The interactive command line: picking a device from a numbered list and
//! reading raw frames typed as hex.

use vstd::prelude::*;
use vstd::string::{StrSliceExecFns, StringExecFns};

use crate::lamp::front::power_payload;
use crate::protocol::{Channel, Power};
use crate::protocol::frame::framed;
use crate::text::{
    ascii_lower, ascii_upper, chars_of, hex_digit, hex_pair, hex_text, is_space, is_space_char, push_char, trim,
    trim_str, upper_text,
};

verus! {

/// First position at or after `i` that holds no white space (or the end).
pub open spec fn skip_spaces(s: Seq<char>, i: int) -> int
    decreases s.len() - i,
{
    if i >= s.len() || !is_space(s[i]) {
        i
    } else {
        skip_spaces(s, i + 1)
    }
}

/// First position at or after `i` that holds white space (or the end).
pub open spec fn word_end(s: Seq<char>, i: int) -> int
    decreases s.len() - i,
{
    if i >= s.len() || is_space(s[i]) {
        i
    } else {
        word_end(s, i + 1)
    }
}

/// The white-space separated words of `s` from position `i` on
/// (what `str::split_whitespace` yields).
pub open spec fn words_from(s: Seq<char>, i: int) -> Seq<Seq<char>>
    decreases s.len() - i, 1int,
{
    if 0 <= i <= s.len() {
        let a = skip_spaces(s, i);
        proof {
            lemma_skip_spaces_bounds(s, i);
        }
        if a >= s.len() {
            Seq::empty()
        } else {
            let b = word_end(s, a);
            if a < b <= s.len() {
                seq![s.subrange(a, b)] + words_from(s, b)
            } else {
                Seq::empty()
            }
        }
    } else {
        Seq::empty()
    }
}

/// Value of a hexadecimal digit (either case), if `c` is one.
pub open spec fn hex_value(c: char) -> Option<int> {
    if '0' <= c && c <= '9' {
        Some(c as int - 48)
    } else if 'a' <= c && c <= 'f' {
        Some(c as int - 87)
    } else if 'A' <= c && c <= 'F' {
        Some(c as int - 55)
    } else {
        None
    }
}

pub open spec fn all_hex(d: Seq<char>) -> bool {
    forall|i: int| 0 <= i < d.len() ==> (#[trigger] hex_value(d[i])) is Some
}

/// Value of a string of hexadecimal digits.
pub open spec fn digits_value(d: Seq<char>) -> int
    decreases d.len(),
{
    if d.len() == 0 {
        0
    } else {
        16 * digits_value(d.drop_last()) + hex_value(d.last())->0
    }
}

/// A byte written in hex the way `u8::from_str_radix(_, 16)` reads it: an
/// optional `+`, then at least one hex digit, with a value of at most `0xff`.
pub open spec fn parse_hex_byte(w: Seq<char>) -> Option<u8> {
    let d = if w.len() > 0 && w[0] == '+' {
        w.drop_first()
    } else {
        w
    };
    if d.len() > 0 && all_hex(d) && digits_value(d) <= 255 {
        Some(digits_value(d) as u8)
    } else {
        None
    }
}

/// Every word read as a byte, or the first word that is not one.
pub open spec fn parse_words(ws: Seq<Seq<char>>) -> Result<Seq<u8>, Seq<char>>
    decreases ws.len(),
{
    if ws.len() == 0 {
        Ok(Seq::empty())
    } else {
        match parse_hex_byte(ws[0]) {
            None => Err(ws[0]),
            Some(b) => match parse_words(ws.drop_first()) {
                Ok(rest) => Ok(seq![b] + rest),
                Err(w) => Err(w),
            },
        }
    }
}

/// The result `parse_hex_bytes` gives for `input`.
pub open spec fn spec_parse_hex_bytes(input: Seq<char>) -> Result<Seq<u8>, Seq<char>> {
    let ws = words_from(input, 0);
    if ws.len() == 0 {
        Err("输入为空"@)
    } else {
        match parse_words(ws) {
            Ok(bytes) => Ok(bytes),
            Err(w) => Err("无法解析十六进制数: '"@ + w + "'"@),
        }
    }
}

/// Skipping white space stays within the text and stops at a non-space.
pub proof fn lemma_skip_spaces_bounds(s: Seq<char>, i: int)
    requires
        0 <= i <= s.len(),
    ensures
        i <= skip_spaces(s, i) <= s.len(),
        skip_spaces(s, i) < s.len() ==> !is_space(s[skip_spaces(s, i)]),
    decreases s.len() - i,
{
    if i < s.len() && is_space(s[i]) {
        lemma_skip_spaces_bounds(s, i + 1);
    }
}

/// A word ends within the text, after its first character.
pub proof fn lemma_word_end_bounds(s: Seq<char>, i: int)
    requires
        0 <= i <= s.len(),
    ensures
        i <= word_end(s, i) <= s.len(),
        i < s.len() && !is_space(s[i]) ==> i < word_end(s, i),
    decreases s.len() - i,
{
    if i < s.len() && !is_space(s[i]) {
        lemma_word_end_bounds(s, i + 1);
    }
}

fn hex_value_of(c: char) -> (v: Option<u8>)
    ensures
        match v {
            Some(x) => hex_value(c) == Some(x as int) && x < 16,
            None => hex_value(c) is None,
        },
{
    if '0' <= c && c <= '9' {
        Some((c as u8) - 48)
    } else if 'a' <= c && c <= 'f' {
        Some((c as u8) - 87)
    } else if 'A' <= c && c <= 'F' {
        Some((c as u8) - 55)
    } else {
        None
    }
}

/// Reads the characters `chars[a..b]` as a hex byte.
fn parse_word(chars: &Vec<char>, a: usize, b: usize) -> (r: Option<u8>)
    requires
        a <= b <= chars@.len(),
    ensures
        r == parse_hex_byte(chars@.subrange(a as int, b as int)),
{
    let ghost w = chars@.subrange(a as int, b as int);
    let mut start = a;
    if a < b && chars[a] == '+' {
        start = a + 1;
    }
    let ghost d = chars@.subrange(start as int, b as int);
    proof {
        if a < b && chars@[a as int] == '+' {
            assert(d =~= w.drop_first());
        } else {
            assert(d =~= w);
        }
    }
    proof {
        assert(parse_hex_byte(w) == (if d.len() > 0 && all_hex(d) && digits_value(d) <= 255 {
            Some(digits_value(d) as u8)
        } else {
            None::<u8>
        }));
    }
    if start == b {
        return None;
    }
    let mut value: u32 = 0;
    let mut i = start;
    while i < b
        invariant
            start <= i <= b <= chars@.len(),
            d == chars@.subrange(start as int, b as int),
            w == chars@.subrange(a as int, b as int),
            parse_hex_byte(w) == (if d.len() > 0 && all_hex(d) && digits_value(d) <= 255 {
                Some(digits_value(d) as u8)
            } else {
                None::<u8>
            }),
            all_hex(chars@.subrange(start as int, i as int)),
            value as int == if digits_value(chars@.subrange(start as int, i as int)) < 256 {
                digits_value(chars@.subrange(start as int, i as int))
            } else {
                256
            },
        decreases b - i,
    {
        let ghost prefix = chars@.subrange(start as int, i as int);
        let ghost next = chars@.subrange(start as int, i + 1);
        proof {
            assert(next.drop_last() =~= prefix);
            assert(next.last() == chars@[i as int]);
        }
        match hex_value_of(chars[i]) {
            None => {
                proof {
                    assert(d[i - start] == chars@[i as int]);
                    assert(hex_value(d[i - start]) is None);
                    assert(!all_hex(d));
                }
                return None;
            },
            Some(h) => {
                let nv = value * 16 + h as u32;
                value = if nv < 256 {
                    nv
                } else {
                    256
                };
                proof {
                    assert forall|k: int| 0 <= k < next.len() implies (#[trigger] hex_value(
                        next[k],
                    )) is Some by {
                        if k < prefix.len() {
                            assert(next[k] == prefix[k]);
                        }
                    }
                }
            },
        }
        i = i + 1;
    }
    proof {
        assert(chars@.subrange(start as int, b as int) == d);
    }
    if value < 256 {
        Some(value as u8)
    } else {
        None
    }
}

/// Reads white-space separated hex bytes such as `7e 07 04 ff 05 01 02 01 ef`.
/// Empty input and words that are not a byte in hex are refused with a message.
pub fn parse_hex_bytes(input: &str) -> (r: Result<Vec<u8>, String>)
    ensures
        match r {
            Ok(bytes) => spec_parse_hex_bytes(input@) == Ok::<Seq<u8>, Seq<char>>(bytes@),
            Err(msg) => spec_parse_hex_bytes(input@) == Err::<Seq<u8>, Seq<char>>(msg@),
        },
{
    let chars = chars_of(input);
    let n = chars.len();
    let ghost s = chars@;
    let mut bytes: Vec<u8> = Vec::new();
    let mut i: usize = 0;
    let ghost mut seen: Seq<Seq<char>> = Seq::empty();
    while i < n
        invariant
            s == chars@,
            s == input@,
            n == s.len(),
            i <= n,
            words_from(s, 0) == seen + words_from(s, i as int),
            parse_words(seen) == Ok::<Seq<u8>, Seq<char>>(bytes@),
        decreases n - i,
    {
        let mut a = i;
        while a < n && is_space_char(chars[a])
            invariant
                i <= a <= n,
                n == s.len(),
                s == chars@,
                skip_spaces(s, i as int) == skip_spaces(s, a as int),
            decreases n - a,
        {
            a = a + 1;
        }
        proof {
            lemma_skip_spaces_bounds(s, a as int);
        }
        if a == n {
            proof {
                assert(words_from(s, i as int) =~= Seq::empty());
                assert(seen + Seq::<Seq<char>>::empty() =~= seen);
                assert(words_from(s, n as int) =~= Seq::empty());
            }
            i = n;
        } else {
            let mut b = a;
            while b < n && !is_space_char(chars[b])
                invariant
                    a <= b <= n,
                    n == s.len(),
                    s == chars@,
                    word_end(s, a as int) == word_end(s, b as int),
                decreases n - b,
            {
                b = b + 1;
            }
            proof {
                lemma_word_end_bounds(s, a as int);
                assert(words_from(s, i as int) =~= seq![s.subrange(a as int, b as int)] + words_from(s, b as int));
            }
            let ghost w = s.subrange(a as int, b as int);
            match parse_word(&chars, a, b) {
                None => {
                    proof {
                        lemma_parse_words_prefix_err(seen, bytes@, w, words_from(s, b as int));
                        assert(words_from(s, 0) =~= seen + (seq![w] + words_from(s, b as int)));
                    }
                    let mut msg = String::from_str("无法解析十六进制数: '");
                    let word = input.substring_char(a, b);
                    msg.append(word);
                    msg.append("'");
                    return Err(msg);
                },
                Some(x) => {
                    proof {
                        lemma_parse_words_push(seen, bytes@, w, x);
                        assert(seen + (seq![w] + words_from(s, b as int)) =~= seen.push(w) + words_from(s, b as int));
                        seen = seen.push(w);
                    }
                    bytes.push(x);
                    i = b;
                },
            }
        }
    }
    proof {
        assert(words_from(s, n as int) =~= Seq::empty());
        assert(seen + Seq::<Seq<char>>::empty() =~= seen);
    }
    if bytes.len() == 0 {
        proof {
            lemma_parse_words_len(seen, bytes@);
        }
        return Err(String::from_str("输入为空"));
    }
    proof {
        lemma_parse_words_len(seen, bytes@);
    }
    Ok(bytes)
}

proof fn lemma_parse_words_len(ws: Seq<Seq<char>>, bytes: Seq<u8>)
    requires
        parse_words(ws) == Ok::<Seq<u8>, Seq<char>>(bytes),
    ensures
        ws.len() == bytes.len(),
    decreases ws.len(),
{
    if ws.len() > 0 {
        let b = parse_hex_byte(ws[0])->0;
        let rest = parse_words(ws.drop_first())->Ok_0;
        lemma_parse_words_len(ws.drop_first(), rest);
        assert(bytes =~= seq![b] + rest);
    }
}

proof fn lemma_parse_words_push(ws: Seq<Seq<char>>, bytes: Seq<u8>, w: Seq<char>, x: u8)
    requires
        parse_words(ws) == Ok::<Seq<u8>, Seq<char>>(bytes),
        parse_hex_byte(w) == Some(x),
    ensures
        parse_words(ws.push(w)) == Ok::<Seq<u8>, Seq<char>>(bytes.push(x)),
    decreases ws.len(),
{
    if ws.len() == 0 {
        assert(ws.push(w) =~= seq![w]);
        assert(ws.push(w).drop_first() =~= Seq::<Seq<char>>::empty());
        assert(parse_words(Seq::<Seq<char>>::empty()) == Ok::<Seq<u8>, Seq<char>>(Seq::empty()));
        assert(bytes =~= Seq::<u8>::empty());
        assert(seq![x] + Seq::<u8>::empty() =~= bytes.push(x));
    } else {
        let b = parse_hex_byte(ws[0])->0;
        let rest = parse_words(ws.drop_first())->Ok_0;
        assert(bytes =~= seq![b] + rest);
        lemma_parse_words_push(ws.drop_first(), rest, w, x);
        assert(ws.push(w).drop_first() =~= ws.drop_first().push(w));
        assert(ws.push(w)[0] == ws[0]);
        assert(seq![b] + rest.push(x) =~= bytes.push(x));
    }
}

proof fn lemma_parse_words_prefix_err(
    ws: Seq<Seq<char>>,
    bytes: Seq<u8>,
    w: Seq<char>,
    tail: Seq<Seq<char>>,
)
    requires
        parse_words(ws) == Ok::<Seq<u8>, Seq<char>>(bytes),
        parse_hex_byte(w) is None,
    ensures
        parse_words(ws + (seq![w] + tail)) == Err::<Seq<u8>, Seq<char>>(w),
    decreases ws.len(),
{
    if ws.len() == 0 {
        assert(ws + (seq![w] + tail) =~= seq![w] + tail);
    } else {
        let rest = parse_words(ws.drop_first())->Ok_0;
        lemma_parse_words_prefix_err(ws.drop_first(), rest, w, tail);
        assert((ws + (seq![w] + tail)).drop_first() =~= ws.drop_first() + (seq![w] + tail));
    }
}

/// The line is `q` or `quit` (around white space).
pub open spec fn says_quit(line: Seq<char>) -> bool {
    trim(line) == "q"@ || trim(line) == "quit"@
}

fn is_text(t: &str, word: &str) -> (b: bool)
    ensures
        b == (t@ == word@),
{
    String::from_str(t) == String::from_str(word)
}

/// Whether a line typed at a prompt asks to quit.
pub fn wants_quit(line: &str) -> (b: bool)
    ensures
        b == says_quit(line@),
{
    let t = trim_str(line);
    is_text(t, "q") || is_text(t, "quit")
}

/// What a line typed in the command loop asks for.
#[derive(Debug)]
pub enum CliCommand {
    /// Disconnect and leave.
    Quit,
    /// List the characteristics of the connected device.
    ListCharacteristics,
    /// Write these bytes.
    Send(Vec<u8>),
    /// The line could not be read as hex bytes; the reason.
    Invalid(String),
}

/// Reads a line of the command loop: `q`/`quit`, `chars`/`characteristics`,
/// an empty line (the front power-off frame), or hex bytes.
pub fn command(line: &str) -> (c: CliCommand)
    ensures
        ({
            let t = trim(line@);
            if t == "q"@ || t == "quit"@ {
                c is Quit
            } else if t == "chars"@ || t == "characteristics"@ {
                c is ListCharacteristics
            } else if t.len() == 0 {
                c matches CliCommand::Send(bytes) && bytes@ == framed(power_payload(Channel::Front, false))
            } else {
                match spec_parse_hex_bytes(t) {
                    Ok(b) => c matches CliCommand::Send(bytes) && bytes@ == b,
                    Err(e) => c matches CliCommand::Invalid(m) && m@ == e,
                }
            }
        }),
{
    let t = trim_str(line);
    if is_text(t, "q") || is_text(t, "quit") {
        return CliCommand::Quit;
    }
    if is_text(t, "chars") || is_text(t, "characteristics") {
        return CliCommand::ListCharacteristics;
    }
    if t.unicode_len() == 0 {
        let frame = Power::off(Channel::Front).frame();
        let bytes = frame.bytes();
        let mut v: Vec<u8> = Vec::new();
        let mut i: usize = 0;
        while i < 9
            invariant
                i <= 9,
                bytes@ == frame@,
                frame@.len() == 9,
                v@ == frame@.take(i as int),
            decreases 9 - i,
        {
            v.push(bytes[i]);
            i = i + 1;
            assert(v@ =~= frame@.take(i as int));
        }
        assert(frame@.take(9) =~= frame@);
        return CliCommand::Send(v);
    }
    match parse_hex_bytes(t) {
        Ok(bytes) => CliCommand::Send(bytes),
        Err(m) => CliCommand::Invalid(m),
    }
}

/// The value of a run of decimal digits.
pub open spec fn dec_value(d: Seq<char>) -> int
    decreases d.len(),
{
    if d.len() == 0 {
        0
    } else {
        dec_value(d.drop_last()) * 10 + (d.last() as int - 48)
    }
}

pub open spec fn all_dec(d: Seq<char>) -> bool {
    forall|i: int| 0 <= i < d.len() ==> '0' <= #[trigger] d[i] <= '9'
}

/// The number a line holds as `usize` parsing reads it: an optional `+`,
/// then one or more decimal digits.
pub open spec fn spec_number(t: Seq<char>) -> Option<int> {
    let d = if t.len() > 0 && t[0] == '+' {
        t.drop_first()
    } else {
        t
    };
    if d.len() > 0 && all_dec(d) {
        Some(dec_value(d))
    } else {
        None
    }
}

proof fn lemma_dec_value_grows(d: Seq<char>, k: int)
    requires
        0 <= k <= d.len(),
        all_dec(d),
    ensures
        dec_value(d.take(k)) <= dec_value(d),
        dec_value(d) >= 0,
    decreases d.len(),
{
    if d.len() > 0 {
        let p = d.drop_last();
        assert(all_dec(p)) by {
            assert forall|i: int| 0 <= i < p.len() implies '0' <= #[trigger] p[i] <= '9' by {
                assert(p[i] == d[i]);
            }
        }
        if k == d.len() {
            assert(d.take(k) =~= d);
            lemma_dec_value_grows(p, 0);
        } else {
            assert(d.take(k) =~= p.take(k));
            lemma_dec_value_grows(p, k);
        }
    } else {
        assert(d.take(k) =~= d);
    }
}

/// What a line typed at the device prompt asks for.
#[derive(Clone, Copy, Debug, PartialEq, Eq, Structural)]
pub enum PickInput {
    /// Leave.
    Quit,
    /// Scan again.
    Refresh,
    /// The device at this index (from 0).
    Choose(usize),
    /// Anything else.
    Invalid,
}

/// Reads a line of the device prompt for a list of `count` devices
/// numbered from 1: `q`/`quit`, an empty line, or a number in the list.
pub fn pick(line: &str, count: usize) -> (p: PickInput)
    ensures
        ({
            let t = trim(line@);
            if t == "q"@ || t == "quit"@ {
                p == PickInput::Quit
            } else if t.len() == 0 {
                p == PickInput::Refresh
            } else {
                match spec_number(t) {
                    Some(v) => if 1 <= v <= count {
                        p == PickInput::Choose((v - 1) as usize)
                    } else {
                        p == PickInput::Invalid
                    },
                    None => p == PickInput::Invalid,
                }
            }
        }),
{
    let t = trim_str(line);
    if is_text(t, "q") || is_text(t, "quit") {
        return PickInput::Quit;
    }
    let chars = chars_of(t);
    let n = chars.len();
    if n == 0 {
        return PickInput::Refresh;
    }
    let start: usize = if chars[0] == '+' {
        1
    } else {
        0
    };
    let ghost d = if chars@[0] == '+' {
        chars@.drop_first()
    } else {
        chars@
    };
    proof {
        assert(d =~= chars@.subrange(start as int, n as int));
    }
    if start == n {
        return PickInput::Invalid;
    }
    let mut v: u128 = 0;
    let mut i: usize = start;
    while i < n
        invariant
            start <= i <= n,
            n == chars@.len(),
            chars@ == trim(line@),
            !(trim(line@) == "q"@ || trim(line@) == "quit"@),
            d == (if chars@[0] == '+' {
                chars@.drop_first()
            } else {
                chars@
            }),
            d == chars@.subrange(start as int, n as int),
            start < n,
            v == dec_value(d.take(i - start)),
            v <= count,
            all_dec(d.take(i - start)),
        decreases n - i,
    {
        let c = chars[i];
        if c < '0' || c > '9' {
            assert(d[i - start] == c);
            return PickInput::Invalid;
        }
        let digit = (c as u32 - 48) as u128;
        proof {
            assert(d.take(i - start + 1).drop_last() =~= d.take(i - start));
            assert(d.take(i - start + 1).last() == c);
        }
        v = v * 10 + digit;
        i = i + 1;
        assert(all_dec(d.take(i - start))) by {
            assert forall|k: int| 0 <= k < d.take(i - start).len() implies '0' <= #[trigger] d.take(i - start)[k] <= '9' by {
                if k < i - 1 - start {
                    assert(d.take(i - start)[k] == d.take(i - 1 - start)[k]);
                }
            }
        }
        if v > count as u128 {
            proof {
                if all_dec(d) {
                    lemma_dec_value_grows(d, i - start);
                }
            }
            return PickInput::Invalid;
        }
    }
    assert(d.take(n - start) =~= d);
    if v == 0 {
        return PickInput::Invalid;
    }
    PickInput::Choose((v - 1) as usize)
}

proof fn lemma_hex_digit_reads_back(v: int)
    requires
        0 <= v < 16,
    ensures
        hex_value(hex_digit(v)) == Some(v),
        !is_space(hex_digit(v)),
        hex_digit(v) != '+',
{
}

proof fn lemma_hex_pair_reads_back(b: u8)
    ensures
        parse_hex_byte(hex_pair(b)) == Some(b),
{
    let p = hex_pair(b);
    lemma_hex_digit_reads_back((b / 16) as int);
    lemma_hex_digit_reads_back((b % 16) as int);
    assert(p.drop_last() =~= seq![p[0]]);
    assert(seq![p[0]].drop_last() =~= Seq::<char>::empty());
    assert(seq![p[0]].last() == p[0]);
    assert(digits_value(Seq::<char>::empty()) == 0);
    assert(digits_value(seq![p[0]]) == (b / 16) as int);
    assert(p.last() == p[1]);
    assert(all_hex(p));
    assert(digits_value(p) == 16 * ((b / 16) as int) + (b % 16) as int);
}

/// Where each character of `hex_text(bytes)` comes from: pair `k` starts at
/// `3k`, and a space follows every pair but the last.
proof fn lemma_hex_text_layout(bytes: Seq<u8>)
    requires
        bytes.len() > 0,
    ensures
        hex_text(bytes).len() == 3 * bytes.len() - 1,
        forall|k: int|
            0 <= k < bytes.len() ==> hex_text(bytes)[3 * k] == hex_digit((#[trigger] bytes[k] / 16) as int)
                && hex_text(bytes)[3 * k + 1] == hex_digit((bytes[k] % 16) as int),
        forall|k: int| 0 <= k < bytes.len() - 1 ==> #[trigger] hex_text(bytes)[3 * k + 2] == ' ',
    decreases bytes.len(),
{
    if bytes.len() > 1 {
        let init = bytes.drop_last();
        lemma_hex_text_layout(init);
        let t = hex_text(init);
        let s = hex_text(bytes);
        assert(s == t + seq![' '] + hex_pair(bytes.last()));
        assert forall|k: int| 0 <= k < bytes.len() implies s[3 * k] == hex_digit((#[trigger] bytes[k] / 16) as int)
            && s[3 * k + 1] == hex_digit((bytes[k] % 16) as int) by {
            if k < bytes.len() - 1 {
                assert(init[k] == bytes[k]);
                assert(s[3 * k] == t[3 * k]);
                assert(s[3 * k + 1] == t[3 * k + 1]);
            }
        }
        assert forall|k: int| 0 <= k < bytes.len() - 1 implies #[trigger] s[3 * k + 2] == ' ' by {
            if k < bytes.len() - 2 {
                assert(s[3 * k + 2] == t[3 * k + 2]);
            }
        }
    }
}

/// The words of `hex_text(bytes)` from pair `k` on are the remaining pairs.
proof fn lemma_hex_text_words(bytes: Seq<u8>, k: int)
    requires
        bytes.len() > 0,
        0 <= k <= bytes.len(),
    ensures
        words_from(hex_text(bytes), 3 * k) == bytes.skip(k).map_values(|b: u8| hex_pair(b)),
    decreases bytes.len() - k,
{
    let s = hex_text(bytes);
    lemma_hex_text_layout(bytes);
    let n = bytes.len();
    if k == n {
        assert(3 * k >= s.len());
        lemma_skip_spaces_bounds(s, s.len() as int);
        assert(bytes.skip(k).map_values(|b: u8| hex_pair(b)) =~= Seq::<Seq<char>>::empty());
        if 3 * k > s.len() {
        } else {
            assert(skip_spaces(s, 3 * k) == 3 * k);
        }
    } else {
        let b = bytes[k];
        lemma_hex_digit_reads_back((b / 16) as int);
        lemma_hex_digit_reads_back((b % 16) as int);
        assert(s[3 * k] == hex_digit((b / 16) as int));
        assert(s[3 * k + 1] == hex_digit((b % 16) as int));
        assert(skip_spaces(s, 3 * k) == 3 * k);
        if k < n - 1 {
            assert(s[3 * k + 2] == ' ');
            assert(word_end(s, 3 * k + 2) == 3 * k + 2);
        } else {
            assert(3 * k + 2 == s.len());
            assert(word_end(s, 3 * k + 2) == 3 * k + 2);
        }
        assert(word_end(s, 3 * k + 1) == 3 * k + 2);
        assert(word_end(s, 3 * k) == 3 * k + 2);
        assert(s.subrange(3 * k, 3 * k + 2) =~= hex_pair(b));
        lemma_hex_text_words(bytes, k + 1);
        if k < n - 1 {
            let b2 = bytes[k + 1];
            lemma_hex_digit_reads_back((b2 / 16) as int);
            assert(s[3 * (k + 1)] == hex_digit((b2 / 16) as int));
            assert(skip_spaces(s, 3 * k + 3) == 3 * k + 3);
            assert(skip_spaces(s, 3 * k + 2) == 3 * k + 3);
            assert(words_from(s, 3 * k + 2) == words_from(s, 3 * k + 3));
        } else {
            assert(skip_spaces(s, 3 * k + 2) == 3 * k + 2);
            assert(words_from(s, 3 * k + 2) =~= Seq::<Seq<char>>::empty());
            assert(bytes.skip(k + 1).map_values(|b: u8| hex_pair(b)) =~= Seq::<Seq<char>>::empty());
        }
        assert(bytes.skip(k).map_values(|b: u8| hex_pair(b)) =~= seq![hex_pair(b)] + bytes.skip(k + 1).map_values(
            |b: u8| hex_pair(b),
        ));
    }
}

proof fn lemma_pairs_parse(bytes: Seq<u8>)
    ensures
        parse_words(bytes.map_values(|b: u8| hex_pair(b))) == Ok::<Seq<u8>, Seq<char>>(bytes),
    decreases bytes.len(),
{
    let ws = bytes.map_values(|b: u8| hex_pair(b));
    if bytes.len() > 0 {
        lemma_hex_pair_reads_back(bytes[0]);
        assert(ws[0] == hex_pair(bytes[0]));
        assert(ws.drop_first() =~= bytes.drop_first().map_values(|b: u8| hex_pair(b)));
        lemma_pairs_parse(bytes.drop_first());
        assert(parse_words(ws) == Ok::<Seq<u8>, Seq<char>>(seq![bytes[0]] + bytes.drop_first()));
        assert(seq![bytes[0]] + bytes.drop_first() =~= bytes);
    } else {
        assert(ws =~= Seq::<Seq<char>>::empty());
        assert(bytes =~= Seq::<u8>::empty());
    }
}

/// Law: what `Frame::hex` prints (bytes as lower-case hex pairs separated by
/// single spaces), typed at the command line, is read back as the same bytes.
pub proof fn lemma_hex_text_parses_back(bytes: Seq<u8>)
    requires
        bytes.len() > 0,
    ensures
        spec_parse_hex_bytes(hex_text(bytes)) == Ok::<Seq<u8>, Seq<char>>(bytes),
{
    lemma_hex_text_words(bytes, 0);
    assert(bytes.skip(0) =~= bytes);
    lemma_pairs_parse(bytes);
    assert(bytes.map_values(|b: u8| hex_pair(b)).len() > 0);
}

/// Law: a hex digit has the same value in either case; changing the case of
/// any character never makes it a digit or stops it being one.
pub proof fn lemma_hex_digit_either_case(c: char)
    ensures
        hex_value(ascii_upper(c)) == hex_value(c),
        hex_value(ascii_lower(c)) == hex_value(c),
{
}

/// Upper-casing keeps white space, `+` and hex values as they are.
proof fn lemma_upper_char(c: char)
    ensures
        is_space(ascii_upper(c)) == is_space(c),
        (ascii_upper(c) == '+') == (c == '+'),
        hex_value(ascii_upper(c)) == hex_value(c),
{
}

proof fn lemma_upper_skip_spaces(s: Seq<char>, i: int)
    requires
        0 <= i <= s.len(),
    ensures
        skip_spaces(upper_text(s), i) == skip_spaces(s, i),
    decreases s.len() - i,
{
    if i < s.len() {
        lemma_upper_char(s[i]);
        assert(upper_text(s)[i] == ascii_upper(s[i]));
        lemma_upper_skip_spaces(s, i + 1);
    }
}

proof fn lemma_upper_word_end(s: Seq<char>, i: int)
    requires
        0 <= i <= s.len(),
    ensures
        word_end(upper_text(s), i) == word_end(s, i),
    decreases s.len() - i,
{
    if i < s.len() {
        lemma_upper_char(s[i]);
        assert(upper_text(s)[i] == ascii_upper(s[i]));
        lemma_upper_word_end(s, i + 1);
    }
}

/// The words of the upper-cased text are the upper-cased words.
proof fn lemma_upper_words(s: Seq<char>, i: int)
    requires
        0 <= i <= s.len(),
    ensures
        words_from(upper_text(s), i) == words_from(s, i).map_values(|w: Seq<char>| upper_text(w)),
    decreases s.len() - i,
{
    let u = upper_text(s);
    assert(u.len() == s.len());
    lemma_upper_skip_spaces(s, i);
    lemma_skip_spaces_bounds(s, i);
    let a = skip_spaces(s, i);
    if a >= s.len() {
        assert(words_from(s, i).map_values(|w: Seq<char>| upper_text(w)) =~= Seq::<Seq<char>>::empty());
    } else {
        lemma_upper_word_end(s, a);
        lemma_word_end_bounds(s, a);
        let b = word_end(s, a);
        lemma_upper_words(s, b);
        assert(u.subrange(a, b) =~= upper_text(s.subrange(a, b)));
        let rest = words_from(s, b);
        assert((seq![s.subrange(a, b)] + rest).map_values(|w: Seq<char>| upper_text(w)) =~= seq![
            upper_text(s.subrange(a, b)),
        ] + rest.map_values(|w: Seq<char>| upper_text(w)));
    }
}

proof fn lemma_upper_digits(d: Seq<char>)
    ensures
        all_hex(upper_text(d)) == all_hex(d),
        digits_value(upper_text(d)) == digits_value(d),
    decreases d.len(),
{
    let u = upper_text(d);
    assert forall|i: int| 0 <= i < d.len() implies (#[trigger] hex_value(u[i])) == hex_value(d[i]) by {
        lemma_upper_char(d[i]);
    }
    if all_hex(d) {
        assert forall|i: int| 0 <= i < u.len() implies (#[trigger] hex_value(u[i])) is Some by {
            assert(hex_value(u[i]) == hex_value(d[i]));
        }
    }
    if all_hex(u) {
        assert forall|i: int| 0 <= i < d.len() implies (#[trigger] hex_value(d[i])) is Some by {
            assert(hex_value(u[i]) == hex_value(d[i]));
        }
    }
    if d.len() > 0 {
        assert(u.drop_last() =~= upper_text(d.drop_last()));
        lemma_upper_digits(d.drop_last());
        assert(hex_value(u[d.len() - 1]) == hex_value(d[d.len() - 1]));
    }
}

proof fn lemma_upper_hex_byte(w: Seq<char>)
    ensures
        parse_hex_byte(upper_text(w)) == parse_hex_byte(w),
{
    let u = upper_text(w);
    if w.len() > 0 {
        lemma_upper_char(w[0]);
        assert(u[0] == ascii_upper(w[0]));
        assert(u.drop_first() =~= upper_text(w.drop_first()));
        lemma_upper_digits(w.drop_first());
    }
    lemma_upper_digits(w);
}

proof fn lemma_upper_parse_words(ws: Seq<Seq<char>>)
    ensures
        parse_words(ws.map_values(|w: Seq<char>| upper_text(w))) == match parse_words(ws) {
            Ok(bytes) => Ok::<Seq<u8>, Seq<char>>(bytes),
            Err(w) => Err::<Seq<u8>, Seq<char>>(upper_text(w)),
        },
    decreases ws.len(),
{
    let us = ws.map_values(|w: Seq<char>| upper_text(w));
    if ws.len() > 0 {
        assert(us[0] == upper_text(ws[0]));
        lemma_upper_hex_byte(ws[0]);
        assert(us.drop_first() =~= ws.drop_first().map_values(|w: Seq<char>| upper_text(w)));
        lemma_upper_parse_words(ws.drop_first());
    }
}

/// Law: hex is read in either case. Upper-casing the input reads the same
/// bytes when the input was read, and is refused exactly when it was.
pub proof fn lemma_parse_hex_ignores_case(s: Seq<char>)
    ensures
        (spec_parse_hex_bytes(upper_text(s)) is Ok) == (spec_parse_hex_bytes(s) is Ok),
        spec_parse_hex_bytes(s) is Ok ==> spec_parse_hex_bytes(upper_text(s)) == spec_parse_hex_bytes(s),
{
    lemma_upper_words(s, 0);
    let ws = words_from(s, 0);
    lemma_upper_parse_words(ws);
}

/// Law: a frame printed in upper-case hex (`7E 07 04 FF 05 01 02 01 EF`) is
/// read back as the same bytes.
pub proof fn lemma_upper_hex_text_parses_back(bytes: Seq<u8>)
    requires
        bytes.len() > 0,
    ensures
        spec_parse_hex_bytes(upper_text(hex_text(bytes))) == Ok::<Seq<u8>, Seq<char>>(bytes),
{
    lemma_hex_text_parses_back(bytes);
    lemma_parse_hex_ignores_case(hex_text(bytes));
}

} // verus!

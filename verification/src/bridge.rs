//! Messages between the UI and the BLE worker, and the order devices are listed in.

use vstd::prelude::*;
use vstd::multiset::Multiset;

use crate::protocol::Frame;
use crate::text::{
    ascii_lower, ascii_lower_char, ascii_upper, ascii_upper_char, chars_le, chars_of,
    contains_chars, contains_text, lemma_text_le_total, lemma_text_le_trans, lower_text,
    push_char, text_le, upper_text,
};

verus! {

/// Characteristic the lamp takes its write frames on.
pub const TARGET_CHAR_UUID: &'static str = "0000fff3-0000-1000-8000-00805f9b34fb";

/// Name (upper case) of the lamp model listed first.
pub const PREFERRED_DEVICE: &'static str = "THUNDEROBOT L2";

/// One discovered device as the device list shows it.
#[derive(Debug, Clone)]
pub struct DeviceRow {
    pub name: String,
    pub addr: String,
    pub rssi: Option<i16>,
}

/// Sort key of a row: (rank, negated signal strength, lower-cased name).
pub struct SortKey {
    pub rank: u8,
    pub neg_rssi: i16,
    pub name: Seq<char>,
}

/// Signal strength negated for sorting, so that stronger signals come
/// first. A missing strength counts as the weakest, `i16::MIN`; its
/// negation saturates at `i16::MAX`, so such rows sort after the others.
pub open spec fn neg_rssi(rssi: Option<i16>) -> i16 {
    match rssi {
        Some(r) => if r == i16::MIN {
            i16::MAX
        } else {
            (-r) as i16
        },
        None => i16::MAX,
    }
}

/// Whether the name, upper-cased, contains the preferred model name.
pub open spec fn preferred_name(name: Seq<char>) -> bool {
    contains_text(upper_text(name), PREFERRED_DEVICE@)
}

/// The key a row is sorted by.
pub open spec fn row_key(row: DeviceRow) -> SortKey {
    SortKey {
        rank: if preferred_name(row.name@) { 0 } else { 1 },
        neg_rssi: neg_rssi(row.rssi),
        name: lower_text(row.name@),
    }
}

/// Lexicographic order of sort keys.
pub open spec fn key_le(a: SortKey, b: SortKey) -> bool {
    a.rank < b.rank || (a.rank == b.rank && (a.neg_rssi < b.neg_rssi || (a.neg_rssi == b.neg_rssi
        && text_le(a.name, b.name))))
}

/// Rows in non-decreasing key order.
pub open spec fn rows_sorted(rows: Seq<DeviceRow>) -> bool {
    forall|i: int, j: int|
        0 <= i < j < rows.len() ==> key_le(row_key(#[trigger] rows[i]), row_key(#[trigger] rows[j]))
}

impl DeviceRow {
    /// The row names the preferred lamp model.
    pub fn is_preferred(&self) -> (b: bool)
        ensures
            b == preferred_name(self.name@),
    {
        let chars = chars_of(self.name.as_str());
        let mut upper: Vec<char> = Vec::new();
        let mut i: usize = 0;
        while i < chars.len()
            invariant
                i <= chars@.len(),
                chars@ == self.name@,
                upper@ == upper_text(chars@.take(i as int)),
            decreases chars@.len() - i,
        {
            upper.push(ascii_upper_char(chars[i]));
            assert(upper@ =~= upper_text(chars@.take(i + 1)));
            i = i + 1;
        }
        assert(chars@.take(chars@.len() as int) =~= chars@);
        let marker = chars_of(PREFERRED_DEVICE);
        contains_chars(&upper, &marker)
    }

    /// `(rank, -rssi, lower-cased name)`: the preferred model first, then the
    /// strongest signal, then by name.
    pub fn sort_key(&self) -> (k: (u8, i16, String))
        ensures
            k.0 == row_key(*self).rank,
            k.1 == row_key(*self).neg_rssi,
            k.2@ == row_key(*self).name,
    {
        let rank: u8 = if self.is_preferred() {
            0
        } else {
            1
        };
        let rssi = match self.rssi {
            Some(r) => r,
            None => i16::MIN,
        };
        let neg = if rssi == i16::MIN {
            i16::MAX
        } else {
            -rssi
        };
        let chars = chars_of(self.name.as_str());
        let mut lower = String::new();
        let mut i: usize = 0;
        while i < chars.len()
            invariant
                i <= chars@.len(),
                chars@ == self.name@,
                lower@ == lower_text(chars@.take(i as int)),
            decreases chars@.len() - i,
        {
            push_char(&mut lower, ascii_lower_char(chars[i]));
            assert(lower@ =~= lower_text(chars@.take(i + 1)));
            i = i + 1;
        }
        assert(chars@.take(chars@.len() as int) =~= chars@);
        (rank, neg, lower)
    }
}

/// The rows whose sort key is `k`, in order.
pub open spec fn with_key(rows: Seq<DeviceRow>, k: SortKey) -> Seq<DeviceRow> {
    rows.filter(|r: DeviceRow| row_key(r) == k)
}

/// Rows with equal keys come in the same order in both lists.
pub open spec fn same_order_per_key(a: Seq<DeviceRow>, b: Seq<DeviceRow>) -> bool {
    forall|k: SortKey| #[trigger] with_key(a, k) == with_key(b, k)
}

proof fn lemma_with_key_none(rows: Seq<DeviceRow>, k: SortKey)
    requires
        forall|j: int| 0 <= j < rows.len() ==> row_key(#[trigger] rows[j]) != k,
    ensures
        with_key(rows, k) == Seq::<DeviceRow>::empty(),
    decreases rows.len(),
{
    reveal(Seq::filter);
    if rows.len() > 0 {
        lemma_with_key_none(rows.drop_last(), k);
    }
}

proof fn lemma_key_le_refl(a: SortKey)
    ensures
        key_le(a, a),
{
    lemma_key_le_total(a, a);
}

/// Whether `a` sorts no later than `b`.
fn row_le(a: &DeviceRow, b: &DeviceRow) -> (r: bool)
    ensures
        r == key_le(row_key(*a), row_key(*b)),
{
    let ka = a.sort_key();
    let kb = b.sort_key();
    if ka.0 != kb.0 {
        return ka.0 < kb.0;
    }
    if ka.1 != kb.1 {
        return ka.1 < kb.1;
    }
    let na = chars_of(ka.2.as_str());
    let nb = chars_of(kb.2.as_str());
    chars_le(&na, &nb)
}

proof fn lemma_key_le_total(a: SortKey, b: SortKey)
    ensures
        key_le(a, b) || key_le(b, a),
{
    lemma_text_le_total(a.name, b.name);
}

proof fn lemma_key_le_trans(a: SortKey, b: SortKey, c: SortKey)
    requires
        key_le(a, b),
        key_le(b, c),
    ensures
        key_le(a, c),
{
    if a.rank == b.rank && b.rank == c.rank && a.neg_rssi == b.neg_rssi && b.neg_rssi
        == c.neg_rssi {
        lemma_text_le_trans(a.name, b.name, c.name);
    }
}

/// Orders the list: preferred model first, then strongest signal, then name.
/// Rows with equal keys keep their order.
pub fn sort_devices(devices: &mut Vec<DeviceRow>)
    ensures
        final(devices)@.to_multiset() == old(devices)@.to_multiset(),
        rows_sorted(final(devices)@),
        same_order_per_key(final(devices)@, old(devices)@),
{
    let ghost given = devices@;
    let mut sorted: Vec<DeviceRow> = Vec::new();
    proof {
        vstd::seq_lib::to_multiset_len(sorted@);
        assert(sorted@.to_multiset() =~= Multiset::empty());
        assert(devices@.to_multiset().add(Multiset::empty()) =~= devices@.to_multiset());
        assert(given.skip(given.len() as int) =~= sorted@);
        assert(given.take(given.len() as int) =~= given);
    }
    while devices.len() > 0
        invariant
            devices@.to_multiset().add(sorted@.to_multiset()) == given.to_multiset(),
            rows_sorted(sorted@),
            devices@.len() <= given.len(),
            devices@ == given.take(devices@.len() as int),
            same_order_per_key(sorted@, given.skip(devices@.len() as int)),
        decreases devices@.len(),
    {
        let ghost before = devices@;
        let x = devices.pop().unwrap();
        proof {
            assert(before =~= devices@.push(x));
            vstd::seq_lib::lemma_seq_union_to_multiset_commutative(devices@, seq![x]);
            assert(devices@ + seq![x] =~= devices@.push(x));
            vstd::seq_lib::lemma_multiset_commutative(devices@, seq![x]);
        }
        let mut p: usize = 0;
        while p < sorted.len() && !row_le(&x, &sorted[p])
            invariant
                p <= sorted@.len(),
                forall|k: int| 0 <= k < p ==> !key_le(row_key(x), row_key(#[trigger] sorted@[k])),
            decreases sorted@.len() - p,
        {
            p = p + 1;
        }
        let ghost old_sorted = sorted@;
        sorted.insert(p, x);
        proof {
            assert forall|i: int, j: int| 0 <= i < j < sorted@.len() implies key_le(
                row_key(#[trigger] sorted@[i]),
                row_key(#[trigger] sorted@[j]),
            ) by {
                if i < p && j == p {
                    lemma_key_le_total(row_key(x), row_key(old_sorted[i]));
                } else if i < p && j > p {
                    lemma_key_le_total(row_key(x), row_key(old_sorted[i]));
                    assert(sorted@[j] == old_sorted[j - 1]);
                    if p < old_sorted.len() {
                        assert(key_le(row_key(x), row_key(old_sorted[p as int])));
                        lemma_key_le_trans(row_key(old_sorted[i]), row_key(x), row_key(old_sorted[p as int]));
                        if j - 1 > p {
                            lemma_key_le_trans(row_key(old_sorted[i]), row_key(old_sorted[p as int]), row_key(old_sorted[j - 1]));
                        }
                    }
                } else if i == p && j > p {
                    assert(key_le(row_key(x), row_key(old_sorted[p as int])));
                    if j - 1 > p {
                        lemma_key_le_trans(row_key(x), row_key(old_sorted[p as int]), row_key(old_sorted[j - 1]));
                    }
                } else if i > p {
                    assert(sorted@[i] == old_sorted[i - 1]);
                    assert(sorted@[j] == old_sorted[j - 1]);
                } else {
                    assert(sorted@[i] == old_sorted[i]);
                    assert(sorted@[j] == old_sorted[j]);
                }
            }
            let l = old_sorted.take(p as int);
            let r = old_sorted.skip(p as int);
            assert(old_sorted =~= l + r);
            assert(sorted@ =~= l + seq![x] + r);
            let n = devices@.len() as int;
            let old_suffix = given.skip(n + 1);
            assert(devices@ =~= given.take(n));
            assert(x == given[n]);
            assert(given.skip(n) =~= seq![x] + old_suffix);
            assert forall|k: SortKey| #[trigger] with_key(sorted@, k) == with_key(given.skip(n), k) by {
                let pred = |r: DeviceRow| row_key(r) == k;
                Seq::filter_distributes_over_add(l + seq![x], r, pred);
                Seq::filter_distributes_over_add(l, seq![x], pred);
                Seq::filter_distributes_over_add(l, r, pred);
                old_suffix.lemma_filter_prepend(x, pred);
                assert(with_key(old_sorted, k) == with_key(old_suffix, k));
                reveal(Seq::filter);
                assert(seq![x].drop_last() =~= Seq::<DeviceRow>::empty());
                if row_key(x) == k {
                    assert forall|j: int| 0 <= j < l.len() implies row_key(#[trigger] l[j]) != k by {
                        assert(l[j] == old_sorted[j]);
                        lemma_key_le_refl(row_key(x));
                    }
                    lemma_with_key_none(l, k);
                    assert(with_key(sorted@, k) =~= seq![x] + with_key(r, k));
                    assert(with_key(old_sorted, k) =~= with_key(r, k));
                } else {
                    assert(seq![x].filter(pred) =~= Seq::<DeviceRow>::empty());
                }
            }
            vstd::seq_lib::lemma_multiset_commutative(l, r);
            vstd::seq_lib::lemma_multiset_commutative(l + seq![x], r);
            vstd::seq_lib::lemma_multiset_commutative(l, seq![x]);
        }
    }
    proof {
        vstd::seq_lib::to_multiset_len(devices@);
        assert(devices@.to_multiset() =~= Multiset::empty());
        assert(Multiset::<DeviceRow>::empty().add(sorted@.to_multiset()) =~= sorted@.to_multiset());
        assert(given.skip(0) =~= given);
    }
    *devices = sorted;
}

/// Commands from the UI to the BLE worker.
#[derive(Debug, Clone)]
pub enum BleCmd {
    Scan,
    Connect(String),
    Reconnect(String),
    Disconnect,
    Write(Frame),
    Handshake,
    ShutdownOff(Option<String>),
}

/// Messages from the BLE worker to the UI.
#[derive(Debug, Clone)]
pub enum BleMsg {
    Ready,
    AdapterFailed(String),
    Scanning(bool),
    Devices(Vec<DeviceRow>),
    Connected { name: String, addr: String },
    Disconnected,
    Written(Frame),
    Error(String),
}

} // verus!

//! Settings changed by the user but not yet written to the lamp. Each kind of
//! setting is kept once; only its latest value matters.

use vstd::prelude::*;

verus! {

/// A kind of pending write.
#[derive(Clone, Copy, Debug, PartialEq, Eq, Structural)]
pub enum Slot {
    FrontLevel,
    FrontCct,
    RearLevel,
    RearLook,
    RearSpeed,
}

/// Position of a slot in the write order.
pub open spec fn slot_index(slot: Slot) -> int {
    match slot {
        Slot::FrontLevel => 0,
        Slot::FrontCct => 1,
        Slot::RearLevel => 2,
        Slot::RearLook => 3,
        Slot::RearSpeed => 4,
    }
}

/// The slot at a position of the write order.
pub open spec fn slot_at(i: int) -> Slot {
    if i == 0 {
        Slot::FrontLevel
    } else if i == 1 {
        Slot::FrontCct
    } else if i == 2 {
        Slot::RearLevel
    } else if i == 3 {
        Slot::RearLook
    } else {
        Slot::RearSpeed
    }
}

/// Marks of pending writes, one per slot, in write order.
#[derive(Debug)]
pub struct Pending {
    marked: [bool; 5],
}

impl View for Pending {
    type V = Seq<bool>;

    closed spec fn view(&self) -> Seq<bool> {
        self.marked@
    }
}

/// No slot is marked.
pub open spec fn none_marked(marks: Seq<bool>) -> bool {
    forall|i: int| 0 <= i < marks.len() ==> !#[trigger] marks[i]
}

/// Position of the first marked slot.
pub open spec fn first_marked(marks: Seq<bool>) -> int
    decreases marks.len(),
{
    if marks.len() == 0 {
        0
    } else if marks[0] {
        0
    } else {
        1 + first_marked(marks.drop_first())
    }
}

fn index(slot: Slot) -> (i: usize)
    ensures
        i == slot_index(slot),
{
    match slot {
        Slot::FrontLevel => 0,
        Slot::FrontCct => 1,
        Slot::RearLevel => 2,
        Slot::RearLook => 3,
        Slot::RearSpeed => 4,
    }
}

fn slot_for(i: usize) -> (s: Slot)
    requires
        i < 5,
    ensures
        s == slot_at(i as int),
        slot_index(s) == i,
{
    if i == 0 {
        Slot::FrontLevel
    } else if i == 1 {
        Slot::FrontCct
    } else if i == 2 {
        Slot::RearLevel
    } else if i == 3 {
        Slot::RearLook
    } else {
        Slot::RearSpeed
    }
}

impl Default for Pending {
    fn default() -> (p: Pending)
        ensures
            p@ == seq![false, false, false, false, false],
    {
        Pending { marked: [false, false, false, false, false] }
    }
}

impl Pending {
    #[verifier::type_invariant]
    spec fn five_slots(self) -> bool {
        self.marked@.len() == 5
    }

    /// Records that `slot` has to be written.
    pub fn mark(&mut self, slot: Slot)
        ensures
            old(self)@.len() == 5,
            final(self)@ == old(self)@.update(slot_index(slot), true),
    {
        proof {
            use_type_invariant(&*self);
        }
        let i = index(slot);
        self.marked[i] = true;
    }

    /// Takes the first marked slot in write order (front level, front colour
    /// temperature, rear level, rear look, rear speed) and clears its mark.
    pub fn take_slot(&mut self) -> (s: Option<Slot>)
        ensures
            old(self)@.len() == 5,
            none_marked(old(self)@) ==> s is None && final(self)@ == old(self)@,
            !none_marked(old(self)@) ==> {
                let i = first_marked(old(self)@);
                &&& 0 <= i < 5
                &&& old(self)@[i]
                &&& forall|j: int| 0 <= j < i ==> !#[trigger] old(self)@[j]
                &&& s == Some(slot_at(i))
                &&& final(self)@ == old(self)@.update(i, false)
            },
    {
        proof {
            use_type_invariant(&*self);
            lemma_first_marked(self@);
        }
        let mut i: usize = 0;
        while i < 5
            invariant
                i <= 5,
                self.marked@ == old(self)@,
                old(self)@.len() == 5,
                forall|j: int| 0 <= j < i ==> !#[trigger] old(self)@[j],
            decreases 5 - i,
        {
            if self.marked[i] {
                self.marked[i] = false;
                proof {
                    assert(first_marked(old(self)@) == i) by {
                        lemma_first_marked_is(old(self)@, i as int);
                    }
                }
                return Some(slot_for(i));
            }
            i = i + 1;
        }
        None
    }

    /// Nothing is waiting to be written.
    pub fn is_empty(&self) -> (e: bool)
        ensures
            e == none_marked(self@),
    {
        proof {
            use_type_invariant(self);
        }
        let mut i: usize = 0;
        while i < 5
            invariant
                i <= 5,
                self@.len() == 5,
                forall|j: int| 0 <= j < i ==> !#[trigger] self@[j],
            decreases 5 - i,
        {
            if self.marked[i] {
                return false;
            }
            i = i + 1;
        }
        true
    }
}

proof fn lemma_first_marked(marks: Seq<bool>)
    ensures
        !none_marked(marks) ==> 0 <= first_marked(marks) < marks.len() && marks[first_marked(
            marks,
        )],
    decreases marks.len(),
{
    if marks.len() > 0 && !marks[0] {
        lemma_first_marked(marks.drop_first());
        if !none_marked(marks) {
            let k = choose|k: int| 0 <= k < marks.len() && marks[k];
            assert(marks.drop_first()[k - 1]);
        }
    }
}

proof fn lemma_first_marked_is(marks: Seq<bool>, i: int)
    requires
        0 <= i < marks.len(),
        marks[i],
        forall|j: int| 0 <= j < i ==> !#[trigger] marks[j],
    ensures
        first_marked(marks) == i,
    decreases i,
{
    if i > 0 {
        lemma_first_marked_is(marks.drop_first(), i - 1);
    }
}

/// Marking a slot and then taking from an otherwise empty queue gives that
/// slot back and leaves the queue empty.
pub proof fn lemma_mark_then_take(slot: Slot)
    ensures
        ({
            let marks = seq![false, false, false, false, false].update(slot_index(slot), true);
            &&& first_marked(marks) == slot_index(slot)
            &&& slot_at(first_marked(marks)) == slot
            &&& none_marked(marks.update(slot_index(slot), false))
        }),
{
    let marks = seq![false, false, false, false, false].update(slot_index(slot), true);
    lemma_first_marked_is(marks, slot_index(slot));
    assert(marks.update(slot_index(slot), false) =~= seq![false, false, false, false, false]);
}

/// Marking the same slot twice leaves one pending write, not two.
pub proof fn lemma_mark_idempotent(marks: Seq<bool>, slot: Slot)
    requires
        marks.len() == 5,
    ensures
        marks.update(slot_index(slot), true).update(slot_index(slot), true)
            == marks.update(slot_index(slot), true),
{
    assert(marks.update(slot_index(slot), true).update(slot_index(slot), true)
        =~= marks.update(slot_index(slot), true));
}

} // verus!

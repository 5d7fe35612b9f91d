//! The builder's semantics, as a verified data type.
//!
//! The synthesizer emits source text; this module states what that text is
//! meant to do. A [`Builder`] carries one optional slot per named field of the
//! target type, in declaration order. Setters overwrite their slot and never
//! fail; `finalize` reads every slot, fails on the first empty one, and
//! otherwise hands back the staged values in declaration order. Slots are
//! read, not consumed: finalizing a complete builder leaves it complete, so a
//! second finalize succeeds with an equal result.
//!
//! The proof functions at the end state the behaviour of whole call sequences
//! over the abstract slot model: a run of setters covering every field exactly
//! once finalizes to exactly the values given; a run that misses a field never
//! finalizes; a repeated setter call overwrites rather than accumulates; a
//! builder with no fields is vacuously complete.

use vstd::prelude::*;

use crate::descriptor::TypeDescriptor;
use crate::value::{Value, ValueV};

verus! {

/// The slots of a fresh builder: one per field, all empty.
pub open spec fn empty_slots(n: nat) -> Seq<Option<ValueV>> {
    Seq::new(n, |i: int| None::<ValueV>)
}

/// Every slot is populated.
pub open spec fn slots_complete(slots: Seq<Option<ValueV>>) -> bool {
    forall|i: int| 0 <= i < slots.len() ==> slots[i] is Some
}

/// The staged values of fully populated slots, in declaration order.
pub open spec fn slot_values(slots: Seq<Option<ValueV>>) -> Seq<ValueV> {
    Seq::new(slots.len(), |i: int| slots[i]->Some_0)
}

/// The index of the first empty slot (the slot count if none is empty).
pub open spec fn first_unset(slots: Seq<Option<ValueV>>) -> int
    decreases slots.len(),
{
    if slots.len() == 0 {
        0
    } else if slots[0] is None {
        0
    } else {
        1 + first_unset(slots.drop_first())
    }
}

proof fn lemma_first_unset_at(slots: Seq<Option<ValueV>>, i: int)
    requires
        0 <= i < slots.len(),
        slots[i] is None,
        forall|j: int| 0 <= j < i ==> slots[j] is Some,
    ensures
        first_unset(slots) == i,
    decreases i,
{
    if i > 0 {
        lemma_first_unset_at(slots.drop_first(), i - 1);
    }
}

/// The index of the first field called `name` (the field count if there is
/// none).
pub open spec fn name_index(names: Seq<Seq<char>>, name: Seq<char>) -> int
    decreases names.len(),
{
    if names.len() == 0 {
        0
    } else if names[0] == name {
        0
    } else {
        1 + name_index(names.drop_first(), name)
    }
}

/// Some field is called `name`.
pub open spec fn has_name(names: Seq<Seq<char>>, name: Seq<char>) -> bool {
    name_index(names, name) < names.len()
}

proof fn lemma_name_index_at(names: Seq<Seq<char>>, name: Seq<char>, i: int)
    requires
        0 <= i < names.len(),
        names[i] == name,
        forall|j: int| 0 <= j < i ==> names[j] != name,
    ensures
        name_index(names, name) == i,
    decreases i,
{
    if i > 0 {
        lemma_name_index_at(names.drop_first(), name, i - 1);
    }
}

proof fn lemma_name_index_absent(names: Seq<Seq<char>>, name: Seq<char>)
    requires
        forall|j: int| 0 <= j < names.len() ==> names[j] != name,
    ensures
        name_index(names, name) == names.len(),
    decreases names.len(),
{
    if names.len() > 0 {
        lemma_name_index_absent(names.drop_first(), name);
    }
}

/// Finalize was invoked before every slot was populated. Carries the name of
/// the first field, in declaration order, that was never set.
#[derive(Debug, PartialEq, Eq)]
pub struct IncompleteBuilder {
    pub missing: String,
}

/// Relies on `str`'s `PartialEq`: equality of `&str` compares the character
/// contents.
#[verifier::external_body]
fn str_eq(a: &str, b: &str) -> (r: bool)
    ensures
        r == (a@ == b@),
{
    a == b
}

/// The staging object the synthesized code describes: one optional slot per
/// named field of the target type, in declaration order.
pub struct Builder {
    field_names: Vec<String>,
    slots: Vec<Option<Value>>,
}

impl Builder {
    /// The field names, in declaration order.
    pub closed spec fn names(self) -> Seq<Seq<char>> {
        self.field_names.deep_view()
    }

    /// The slots: the staged value of each field, if one was set.
    pub closed spec fn staged(self) -> Seq<Option<ValueV>> {
        self.slots.deep_view()
    }

    /// One slot per field.
    pub open spec fn wf(self) -> bool {
        self.names().len() == self.staged().len()
    }

    /// An empty builder for the descriptor: exactly one slot per named field,
    /// every slot empty. Takes no field values and cannot fail.
    pub fn for_descriptor(desc: &TypeDescriptor) -> (r: Builder)
        ensures
            r.wf(),
            r.names() == crate::descriptor::field_names(desc.fields@),
            r.staged() == empty_slots(desc.fields@.len() as nat),
    {
        let mut field_names: Vec<String> = Vec::new();
        let mut slots: Vec<Option<Value>> = Vec::new();
        let mut i: usize = 0;
        while i < desc.fields.len()
            invariant
                i <= desc.fields.len(),
                field_names@.len() == i,
                slots@.len() == i,
                forall|j: int| 0 <= j < i ==> field_names@[j]@ == desc.fields@[j].name@,
                forall|j: int| 0 <= j < i ==> slots@[j] is None,
            decreases desc.fields.len() - i,
        {
            field_names.push(desc.fields[i].name.clone());
            slots.push(None);
            i += 1;
        }
        let r = Builder { field_names, slots };
        proof {
            assert(r.names() =~= crate::descriptor::field_names(desc.fields@));
            assert(r.staged() =~= empty_slots(desc.fields@.len() as nat));
        }
        r
    }

    /// The slot index of the field called `name`, if the builder has one: the
    /// first matching index in declaration order.
    pub fn field_index(&self, name: &str) -> (r: Option<usize>)
        ensures
            match r {
                Some(i) => has_name(self.names(), name@) && i as int == name_index(
                    self.names(),
                    name@,
                ),
                None => !has_name(self.names(), name@),
            },
    {
        let mut i: usize = 0;
        while i < self.field_names.len()
            invariant
                i <= self.field_names.len(),
                forall|j: int| 0 <= j < i ==> self.names()[j] != name@,
            decreases self.field_names.len() - i,
        {
            if str_eq(self.field_names[i].as_str(), name) {
                proof {
                    lemma_name_index_at(self.names(), name@, i as int);
                }
                return Some(i);
            }
            i += 1;
        }
        proof {
            lemma_name_index_absent(self.names(), name@);
        }
        None
    }

    /// Store `value` into slot `i`, overwriting whatever was staged there.
    pub fn set_at(&mut self, i: usize, value: Value)
        requires
            old(self).wf(),
            i < old(self).staged().len(),
        ensures
            final(self).wf(),
            final(self).names() == old(self).names(),
            final(self).staged() == old(self).staged().update(i as int, Some(value@)),
    {
        let ghost target = old(self).staged().update(i as int, Some(value@));
        self.slots.set(i, Some(value));
        proof {
            assert(self.staged() =~= target);
        }
    }

    /// Store `value` into the slot of the field called `name`, overwriting
    /// whatever was staged there; `true` iff the builder has such a field,
    /// and the builder is unchanged otherwise.
    pub fn set(&mut self, name: &str, value: Value) -> (r: bool)
        requires
            old(self).wf(),
        ensures
            final(self).wf(),
            final(self).names() == old(self).names(),
            r == has_name(old(self).names(), name@),
            r ==> final(self).staged() == old(self).staged().update(
                name_index(old(self).names(), name@),
                Some(value@),
            ),
            !r ==> final(self).staged() == old(self).staged(),
    {
        match self.field_index(name) {
            Some(i) => {
                self.set_at(i, value);
                true
            },
            None => false,
        }
    }

    /// The number of slots: one per named field of the target type.
    pub fn slot_count(&self) -> (r: usize)
        ensures
            r == self.staged().len(),
    {
        self.slots.len()
    }

    /// Whether the slot at field index `i` holds a staged value.
    pub fn slot_is_set(&self, i: usize) -> (r: bool)
        requires
            i < self.staged().len(),
        ensures
            r == (self.staged()[i as int] is Some),
    {
        self.slots[i].is_some()
    }

    /// Attempt to construct the target value: read every slot in declaration
    /// order; fail on the first empty one, naming the missing field;
    /// otherwise hand back copies of the staged values in declaration order.
    /// Slots are read, not consumed, so finalizing a complete builder again
    /// succeeds with an equal result.
    pub fn finalize(&self) -> (r: Result<Vec<Value>, IncompleteBuilder>)
        requires
            self.wf(),
        ensures
            slots_complete(self.staged()) ==> (r matches Ok(vs) && vs.deep_view() == slot_values(
                self.staged(),
            )),
            !slots_complete(self.staged()) ==> (r matches Err(e) && e.missing@ == self.names()[
                first_unset(self.staged())
            ]),
    {
        let mut out: Vec<Value> = Vec::new();
        let mut i: usize = 0;
        while i < self.slots.len()
            invariant
                self.wf(),
                i <= self.slots.len(),
                out@.len() == i,
                forall|j: int| 0 <= j < i ==> self.staged()[j] is Some,
                forall|j: int| 0 <= j < i ==> out@[j]@ == self.staged()[j]->Some_0,
            decreases self.slots.len() - i,
        {
            match &self.slots[i] {
                Some(v) => {
                    let staged_copy = v.duplicate();
                    proof {
                        assert(self.staged()[i as int] == Some(staged_copy@));
                    }
                    out.push(staged_copy);
                },
                None => {
                    proof {
                        lemma_first_unset_at(self.staged(), i as int);
                    }
                    return Err(IncompleteBuilder { missing: self.field_names[i].clone() });
                },
            }
            i += 1;
        }
        proof {
            assert(out.deep_view() =~= slot_values(self.staged()));
        }
        Ok(out)
    }
}

/// Every call in the run targets one of the `n` slots.
pub open spec fn calls_in_range(calls: Seq<(int, ValueV)>, n: nat) -> bool {
    forall|k: int| 0 <= k < calls.len() ==> 0 <= (#[trigger] calls[k]).0 < n
}

/// The slots after a run of setter calls, applied in order. Each call is a
/// setter invocation, abstractly: the index of the slot it targets and the
/// value it stores there.
pub open spec fn run_calls(
    slots: Seq<Option<ValueV>>,
    calls: Seq<(int, ValueV)>,
) -> Seq<Option<ValueV>>
    decreases calls.len(),
{
    if calls.len() == 0 {
        slots
    } else {
        run_calls(slots, calls.drop_last()).update(calls.last().0, Some(calls.last().1))
    }
}

/// Some call in the run targets slot `i`.
pub open spec fn targets(calls: Seq<(int, ValueV)>, i: int) -> bool {
    exists|k: int| 0 <= k < calls.len() && (#[trigger] calls[k]).0 == i
}

/// The position of the last call in the run that targets slot `i` (-1 if none
/// does).
pub open spec fn last_call_for(calls: Seq<(int, ValueV)>, i: int) -> int
    decreases calls.len(),
{
    if calls.len() == 0 {
        -1
    } else if calls.last().0 == i {
        calls.len() - 1
    } else {
        last_call_for(calls.drop_last(), i)
    }
}

proof fn lemma_run_calls_len(slots: Seq<Option<ValueV>>, calls: Seq<(int, ValueV)>)
    requires
        calls_in_range(calls, slots.len() as nat),
    ensures
        run_calls(slots, calls).len() == slots.len(),
    decreases calls.len(),
{
    if calls.len() > 0 {
        assert(calls_in_range(calls.drop_last(), slots.len() as nat));
        lemma_run_calls_len(slots, calls.drop_last());
    }
}

/// One more setter call extends the run by one slot update — the update
/// [`Builder::set_at`]'s contract makes. A chain of setter calls on a builder
/// therefore leaves `run_calls` of the calls made, starting from the slots it
/// began with.
pub proof fn lemma_run_calls_step(
    slots: Seq<Option<ValueV>>,
    calls: Seq<(int, ValueV)>,
    c: (int, ValueV),
)
    ensures
        run_calls(slots, calls.push(c)) == run_calls(slots, calls).update(c.0, Some(c.1)),
{
    assert(calls.push(c).drop_last() =~= calls);
    assert(calls.push(c).last() == c);
}

/// Slot `i` after a run of setter calls: the value stored by the last call
/// that targeted it, and untouched if none did.
pub proof fn lemma_slot_after_run(
    slots: Seq<Option<ValueV>>,
    calls: Seq<(int, ValueV)>,
    i: int,
)
    requires
        0 <= i < slots.len(),
        calls_in_range(calls, slots.len() as nat),
    ensures
        !targets(calls, i) ==> run_calls(slots, calls)[i] == slots[i],
        targets(calls, i) ==> {
            let k = last_call_for(calls, i);
            &&& 0 <= k < calls.len()
            &&& calls[k].0 == i
            &&& run_calls(slots, calls)[i] == Some(calls[k].1)
        },
    decreases calls.len(),
{
    if calls.len() > 0 {
        let pre = calls.drop_last();
        assert(calls_in_range(pre, slots.len() as nat));
        lemma_run_calls_len(slots, pre);
        lemma_slot_after_run(slots, pre, i);
        if calls.last().0 == i {
            assert(targets(calls, i));
        } else {
            if targets(calls, i) {
                let k = choose|k: int| 0 <= k < calls.len() && calls[k].0 == i;
                assert(k < calls.len() - 1);
                assert(pre[k].0 == i);
                assert(targets(pre, i));
            }
            if targets(pre, i) {
                let k = choose|k: int| 0 <= k < pre.len() && pre[k].0 == i;
                assert(calls[k].0 == i);
                assert(targets(calls, i));
            }
        }
    }
}

/// Round trip: a run of setter calls on a fresh builder that covers every
/// field exactly once leaves every slot populated, and slot `i` holds exactly
/// the value of the one call that targeted it. By `finalize`'s contract, the
/// builder then finalizes to the same values a direct construction from those
/// field values would use.
pub proof fn law_round_trip(n: nat, calls: Seq<(int, ValueV)>)
    requires
        calls_in_range(calls, n),
        forall|i: int| 0 <= i < n ==> targets(calls, i),
        forall|k1: int, k2: int|
            0 <= k1 < calls.len() && 0 <= k2 < calls.len() && (#[trigger] calls[k1]).0 == (
            #[trigger] calls[k2]).0 ==> k1 == k2,
    ensures
        run_calls(empty_slots(n), calls).len() == n,
        slots_complete(run_calls(empty_slots(n), calls)),
        forall|k: int|
            0 <= k < calls.len() ==> slot_values(run_calls(empty_slots(n), calls))[(
            #[trigger] calls[k]).0] == calls[k].1,
{
    lemma_run_calls_len(empty_slots(n), calls);
    assert forall|i: int| 0 <= i < n implies run_calls(empty_slots(n), calls)[i] is Some by {
        lemma_slot_after_run(empty_slots(n), calls, i);
    };
    assert forall|k: int|
        0 <= k < calls.len() implies slot_values(run_calls(empty_slots(n), calls))[(
        #[trigger] calls[k]).0] == calls[k].1 by {
        let i = calls[k].0;
        lemma_slot_after_run(empty_slots(n), calls, i);
        assert(last_call_for(calls, i) == k);
    };
}

/// Missing a field: if some slot is never targeted by the run, it is still
/// empty afterwards, so the slots are not complete, and by `finalize`'s
/// contract finalizing reports an incomplete builder, never a constructed
/// value.
pub proof fn law_incomplete(n: nat, calls: Seq<(int, ValueV)>, missing: int)
    requires
        calls_in_range(calls, n),
        0 <= missing < n,
        !targets(calls, missing),
    ensures
        !slots_complete(run_calls(empty_slots(n), calls)),
{
    lemma_run_calls_len(empty_slots(n), calls);
    lemma_slot_after_run(empty_slots(n), calls, missing);
}

proof fn lemma_run_calls_concat(
    slots: Seq<Option<ValueV>>,
    a: Seq<(int, ValueV)>,
    b: Seq<(int, ValueV)>,
)
    ensures
        run_calls(slots, a + b) == run_calls(run_calls(slots, a), b),
    decreases b.len(),
{
    if b.len() == 0 {
        assert(a + b =~= a);
    } else {
        lemma_run_calls_concat(slots, a, b.drop_last());
        assert((a + b).drop_last() =~= a + b.drop_last());
        assert((a + b).last() == b.last());
    }
}

/// Overwrite, not accumulation: calling the same field's setter twice leaves
/// exactly what a single call with the later value leaves, whatever other
/// calls come before or after.
pub proof fn law_overwrite(
    slots: Seq<Option<ValueV>>,
    pre: Seq<(int, ValueV)>,
    i: int,
    v1: ValueV,
    v2: ValueV,
    post: Seq<(int, ValueV)>,
)
    requires
        0 <= i < slots.len(),
        calls_in_range(pre, slots.len() as nat),
    ensures
        run_calls(slots, pre + seq![(i, v1), (i, v2)] + post) == run_calls(
            slots,
            pre + seq![(i, v2)] + post,
        ),
{
    let twice = seq![(i, v1), (i, v2)];
    let once = seq![(i, v2)];
    let s0 = run_calls(slots, pre);
    lemma_run_calls_len(slots, pre);
    lemma_run_calls_concat(slots, pre + twice, post);
    lemma_run_calls_concat(slots, pre + once, post);
    lemma_run_calls_concat(slots, pre, twice);
    lemma_run_calls_concat(slots, pre, once);
    assert(twice.last() == (i, v2));
    assert(twice.drop_last() =~= seq![(i, v1)]);
    assert(seq![(i, v1)].last() == (i, v1));
    assert(seq![(i, v1)].drop_last() =~= Seq::<(int, ValueV)>::empty());
    assert(once.last() == (i, v2));
    assert(once.drop_last() =~= Seq::<(int, ValueV)>::empty());
    assert(run_calls(s0, Seq::<(int, ValueV)>::empty()) == s0);
    assert(run_calls(s0, seq![(i, v1)]) == s0.update(i, Some(v1)));
    assert(run_calls(s0, twice) == s0.update(i, Some(v1)).update(i, Some(v2)));
    assert(run_calls(s0, once) == s0.update(i, Some(v2)));
    assert(s0.update(i, Some(v1)).update(i, Some(v2)) =~= s0.update(i, Some(v2)));
}

/// Vacuous completeness: a builder over zero named fields has zero slots, is
/// complete from the start, and by `finalize`'s contract finalizes to the
/// empty value list.
pub proof fn law_zero_fields(slots: Seq<Option<ValueV>>)
    requires
        slots.len() == 0,
    ensures
        slots_complete(slots),
        slot_values(slots) == Seq::<ValueV>::empty(),
{
    assert(slot_values(slots) =~= Seq::<ValueV>::empty());
}

} // verus!

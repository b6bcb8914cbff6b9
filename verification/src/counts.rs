//! Counting items by phase.
//!
//! The pipeline's invariants relate running totals (permits out, active
//! tasks, completed items) to how many items currently sit in a class of
//! phases. This module defines that count and the lemmas that track it
//! through a single-item update.

use vstd::prelude::*;
use crate::pipeline::{ItemState, Phase};

verus! {

/// A class of phases that the pipeline keeps a running total of.
pub enum PhaseClass {
    /// Items that have reached their terminal phase.
    Done,
    /// Items whose external generation is currently running.
    Generating,
    /// Items whose task is active: anywhere between submission and
    /// completion.
    Active,
}

/// Whether a phase belongs to a class.
pub open spec fn in_class(ph: Phase, c: PhaseClass) -> bool {
    match c {
        PhaseClass::Done => ph is Done,
        PhaseClass::Generating => ph is Generating,
        PhaseClass::Active => ph is CheckingStore || ph is AwaitingPermit || ph is Generating,
    }
}

/// How many items of `s` are in class `c`.
pub open spec fn count_class(s: Seq<ItemState>, c: PhaseClass) -> nat
    decreases s.len(),
{
    if s.len() == 0 {
        0
    } else {
        count_class(s.drop_last(), c) + if in_class(s.last().phase, c) {
            1nat
        } else {
            0nat
        }
    }
}

/// A count never exceeds the length.
pub proof fn lemma_count_class_le_len(s: Seq<ItemState>, c: PhaseClass)
    ensures
        count_class(s, c) <= s.len(),
    decreases s.len(),
{
    if s.len() > 0 {
        lemma_count_class_le_len(s.drop_last(), c);
    }
}

/// Updating one item changes the count only by that item's contribution.
pub proof fn lemma_count_class_update(s: Seq<ItemState>, c: PhaseClass, i: int, v: ItemState)
    requires
        0 <= i < s.len(),
    ensures
        count_class(s.update(i, v), c) == count_class(s, c) + (if in_class(v.phase, c) {
            1int
        } else {
            0int
        }) - (if in_class(s[i].phase, c) {
            1int
        } else {
            0int
        }),
    decreases s.len(),
{
    let su = s.update(i, v);
    if i == s.len() - 1 {
        assert(su.drop_last() =~= s.drop_last());
        assert(su.last() == v);
    } else {
        assert(su.drop_last() =~= s.drop_last().update(i, v));
        assert(su.last() == s.last());
        lemma_count_class_update(s.drop_last(), c, i, v);
    }
}

/// An item in the class makes the count positive.
pub proof fn lemma_count_class_pos(s: Seq<ItemState>, c: PhaseClass, i: int)
    requires
        0 <= i < s.len(),
        in_class(s[i].phase, c),
    ensures
        count_class(s, c) >= 1,
    decreases s.len(),
{
    if i < s.len() - 1 {
        lemma_count_class_pos(s.drop_last(), c, i);
    }
}

/// If no item is in the class, the count is zero.
pub proof fn lemma_count_class_none(s: Seq<ItemState>, c: PhaseClass)
    requires
        forall|i: int| 0 <= i < s.len() ==> !in_class(s[i].phase, c),
    ensures
        count_class(s, c) == 0,
    decreases s.len(),
{
    if s.len() > 0 {
        lemma_count_class_none(s.drop_last(), c);
    }
}

/// A full count means every item is in the class.
pub proof fn lemma_count_class_full(s: Seq<ItemState>, c: PhaseClass)
    requires
        count_class(s, c) == s.len(),
    ensures
        forall|i: int| 0 <= i < s.len() ==> in_class(s[i].phase, c),
    decreases s.len(),
{
    if s.len() > 0 {
        lemma_count_class_le_len(s.drop_last(), c);
        lemma_count_class_full(s.drop_last(), c);
        assert(forall|i: int| 0 <= i < s.len() - 1 ==> s[i] == s.drop_last()[i]);
    }
}

} // verus!

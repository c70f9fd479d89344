//! The primitives: diffs of single scalar attributes and of sets of labels.

use crate::openapi::{text_of, texts_of, view_of};
use vstd::prelude::*;

verus! {

/// A change of one optional textual attribute.
#[derive(Debug)]
pub struct OptionalStringDiff {
    pub from: Option<String>,
    pub to: Option<String>,
}

/// The mathematical content of an [`OptionalStringDiff`].
pub struct OptionalStringDiffView {
    pub from: Option<Seq<char>>,
    pub to: Option<Seq<char>>,
}

impl View for OptionalStringDiff {
    type V = OptionalStringDiffView;

    open spec fn view(&self) -> OptionalStringDiffView {
        OptionalStringDiffView { from: text_of(self.from), to: text_of(self.to) }
    }
}

/// The change between two optional texts: absent when they agree.
pub open spec fn text_change(base: Option<Seq<char>>, head: Option<Seq<char>>) -> Option<
    OptionalStringDiffView,
> {
    if base == head {
        None
    } else {
        Some(OptionalStringDiffView { from: base, to: head })
    }
}

/// A change of one boolean attribute.
#[derive(Debug, Clone, Copy, PartialEq, Eq, Structural)]
pub struct BoolDiff {
    pub from: bool,
    pub to: bool,
}

/// The change between two booleans: absent when they agree.
pub open spec fn bool_change(base: bool, head: bool) -> Option<BoolDiff> {
    if base == head {
        None
    } else {
        Some(BoolDiff { from: base, to: head })
    }
}

impl BoolDiff {
    /// Compares a boolean attribute of the base with that of the head.
    pub fn from_bools(base: bool, head: bool) -> (change: Option<Self>)
        ensures
            change == bool_change(base, head),
    {
        if base == head {
            None
        } else {
            Some(BoolDiff { from: base, to: head })
        }
    }
}

/// Whether two optional strings hold the same text.
pub fn same_text(a: &Option<String>, b: &Option<String>) -> (same: bool)
    ensures
        same == (text_of(*a) == text_of(*b)),
{
    match (a, b) {
        (Some(x), Some(y)) => *x == *y,
        (None, None) => true,
        _ => false,
    }
}

impl OptionalStringDiff {
    /// Compares an optional attribute of the base with that of the head.
    pub fn from_strings(base: Option<String>, head: Option<String>) -> (change: Option<Self>)
        ensures
            view_of(change) == text_change(text_of(base), text_of(head)),
            change is None <==> text_of(base) == text_of(head),
            change matches Some(diff) ==> diff@.from == text_of(base) && diff@.to == text_of(head),
    {
        if same_text(&base, &head) {
            None
        } else {
            Some(OptionalStringDiff { from: base, to: head })
        }
    }
}

/// A change of one optional boolean attribute.
#[derive(Debug, Clone, Copy, PartialEq, Eq, Structural)]
pub struct OptionalBoolDiff {
    pub from: Option<bool>,
    pub to: Option<bool>,
}

/// The change between two optional booleans: absent when they agree.
pub open spec fn flag_change(base: Option<bool>, head: Option<bool>) -> Option<OptionalBoolDiff> {
    if base == head {
        None
    } else {
        Some(OptionalBoolDiff { from: base, to: head })
    }
}

impl OptionalBoolDiff {
    /// Compares an optional boolean attribute of the base with that of the head.
    pub fn from_flags(base: Option<bool>, head: Option<bool>) -> (change: Option<Self>)
        ensures
            change == flag_change(base, head),
    {
        let same = match (base, head) {
            (Some(x), Some(y)) => x == y,
            (None, None) => true,
            _ => false,
        };
        if same {
            None
        } else {
            Some(OptionalBoolDiff { from: base, to: head })
        }
    }
}

/// The test that a label does not occur in `other`.
pub open spec fn absent_from(other: Seq<Seq<char>>) -> spec_fn(Seq<char>) -> bool {
    |label: Seq<char>| !other.contains(label)
}

/// The labels of `labels` that do not occur in `other`, in their order and
/// as often as `labels` holds them.
pub open spec fn labels_only_in(labels: Seq<Seq<char>>, other: Seq<Seq<char>>) -> Seq<Seq<char>> {
    labels.filter(absent_from(other))
}

/// Whether `labels` holds a string with the text of `label`.
pub fn has_label(labels: &Vec<String>, label: &String) -> (found: bool)
    ensures
        found == texts_of(labels@).contains(label@),
{
    let mut i: usize = 0;
    while i < labels.len()
        invariant
            i <= labels.len(),
            forall|j: int| 0 <= j < i ==> labels@[j]@ != label@,
        decreases labels.len() - i,
    {
        if labels[i] == *label {
            assert(texts_of(labels@)[i as int] == label@);
            return true;
        }
        i += 1;
    }
    false
}

/// Copies of the strings of `labels` whose text `other` lacks.
pub fn collect_only_in(labels: &Vec<String>, other: &Vec<String>) -> (kept: Vec<String>)
    ensures
        texts_of(kept@) == labels_only_in(texts_of(labels@), texts_of(other@)),
{
    let ghost all = texts_of(labels@);
    let ghost absent = absent_from(texts_of(other@));
    let mut kept: Vec<String> = Vec::new();
    let mut i: usize = 0;
    proof {
        reveal(Seq::filter);
        assert(texts_of(kept@) =~= all.take(0).filter(absent));
    }
    while i < labels.len()
        invariant
            i <= labels.len(),
            all == texts_of(labels@),
            absent == absent_from(texts_of(other@)),
            texts_of(kept@) == all.take(i as int).filter(absent),
        decreases labels.len() - i,
    {
        let ghost before = texts_of(kept@);
        proof {
            assert(all.take(i + 1) =~= all.take(i as int).push(labels@[i as int]@));
            all.take(i as int).lemma_filter_push(labels@[i as int]@, absent);
        }
        if !has_label(other, &labels[i]) {
            kept.push(labels[i].clone());
            assert(texts_of(kept@) =~= before.push(labels@[i as int]@));
        }
        i += 1;
    }
    assert(all.take(labels@.len() as int) =~= all);
    kept
}

} // verus!

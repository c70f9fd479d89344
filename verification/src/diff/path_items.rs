//! The diff of one path item: its operations, keyed by HTTP method.

use super::error::{DiffError, DiffErrorView};
use super::error::outcome_of;
use super::operations::{operation_diff, OperationDiff, OperationDiffView};
use crate::openapi::{
    pairs_of, HttpMethod, Operation, OperationView, PathItem, PathItemView, ReferenceOr,
    ReferenceOrView,
};
use vstd::prelude::*;

verus! {

/// A path with the path item that a document holds under it.
pub type PathItemPair = (String, ReferenceOr<PathItem>);

/// The HTTP methods, in the order in which a path item is walked.
pub open spec fn all_methods() -> Seq<HttpMethod> {
    seq![
        HttpMethod::Get,
        HttpMethod::Put,
        HttpMethod::Post,
        HttpMethod::Delete,
        HttpMethod::Options,
        HttpMethod::Head,
        HttpMethod::Patch,
        HttpMethod::Trace,
    ]
}

/// For a method: the operation of `present` under it, where `present`
/// declares one and `absent` declares none.
pub open spec fn declared_only_in(present: PathItemView, absent: PathItemView) -> spec_fn(
    HttpMethod,
) -> Option<(HttpMethod, OperationView)> {
    |method: HttpMethod|
        match (present.operation(method), absent.operation(method)) {
            (Some(operation), None) => Some((method, operation)),
            _ => None,
        }
}

/// For a method: the diff of the operations that `base` and `head` declare
/// under it, where both declare one and the diff has changes.
pub open spec fn changed_between(base: PathItemView, head: PathItemView) -> spec_fn(
    HttpMethod,
) -> Option<(HttpMethod, OperationDiffView)> {
    |method: HttpMethod|
        match (base.operation(method), head.operation(method)) {
            (Some(b), Some(h)) => if operation_diff(b, h).has_changes() {
                Some((method, operation_diff(b, h)))
            } else {
                None
            },
            _ => None,
        }
}

/// The operations that a path item gained, lost and changed.
#[derive(Debug)]
pub struct PathItemDiff {
    pub added: Vec<(HttpMethod, Operation)>,
    pub removed: Vec<(HttpMethod, Operation)>,
    pub changed: Vec<(HttpMethod, OperationDiff)>,
}

/// The mathematical content of a [`PathItemDiff`].
pub struct PathItemDiffView {
    pub added: Seq<(HttpMethod, OperationView)>,
    pub removed: Seq<(HttpMethod, OperationView)>,
    pub changed: Seq<(HttpMethod, OperationDiffView)>,
}

impl View for PathItemDiff {
    type V = PathItemDiffView;

    open spec fn view(&self) -> PathItemDiffView {
        PathItemDiffView {
            added: pairs_of(self.added@),
            removed: pairs_of(self.removed@),
            changed: pairs_of(self.changed@),
        }
    }
}

impl PathItemDiffView {
    /// Whether a method was added or removed, or the operation of a method changed.
    pub open spec fn has_change(self) -> bool {
        self.added.len() > 0 || self.removed.len() > 0 || self.changed.len() > 0
    }
}

/// The diff of two path items: method by method, in the order of
/// [`all_methods`], an operation that only the head declares is added, one
/// that only the base declares is removed, and one that both declare is
/// changed where its diff has changes.
pub open spec fn path_item_diff(base: PathItemView, head: PathItemView) -> PathItemDiffView {
    PathItemDiffView {
        added: all_methods().filter_map(declared_only_in(head, base)),
        removed: all_methods().filter_map(declared_only_in(base, head)),
        changed: all_methods().filter_map(changed_between(base, head)),
    }
}

/// The outcome of comparing two entries of a path table: a reference on
/// either side cannot be looked into, the base's being reported first.
pub open spec fn path_item_outcome(
    base: ReferenceOrView<PathItemView>,
    head: ReferenceOrView<PathItemView>,
) -> Result<PathItemDiffView, DiffErrorView> {
    match (base, head) {
        (ReferenceOrView::Reference { reference }, _) => Err(
            DiffErrorView::UnresolvedReference { reference },
        ),
        (_, ReferenceOrView::Reference { reference }) => Err(
            DiffErrorView::UnresolvedReference { reference },
        ),
        (ReferenceOrView::Item(b), ReferenceOrView::Item(h)) => Ok(path_item_diff(b, h)),
    }
}

/// The method at a position of the walk.
pub fn method_at(position: usize) -> (method: HttpMethod)
    requires
        position < 8,
    ensures
        method == all_methods()[position as int],
{
    if position == 0 {
        HttpMethod::Get
    } else if position == 1 {
        HttpMethod::Put
    } else if position == 2 {
        HttpMethod::Post
    } else if position == 3 {
        HttpMethod::Delete
    } else if position == 4 {
        HttpMethod::Options
    } else if position == 5 {
        HttpMethod::Head
    } else if position == 6 {
        HttpMethod::Patch
    } else {
        HttpMethod::Trace
    }
}

/// The operations that `present` declares under methods for which `absent` declares none.
pub fn operations_only_in(present: &PathItem, absent: &PathItem) -> (kept: Vec<
    (HttpMethod, Operation),
>)
    ensures
        pairs_of(kept@) == all_methods().filter_map(declared_only_in(present@, absent@)),
{
    let ghost pick = declared_only_in(present@, absent@);
    let mut kept: Vec<(HttpMethod, Operation)> = Vec::new();
    let mut i: usize = 0;
    assert(pairs_of(kept@) =~= all_methods().take(0).filter_map(pick));
    while i < 8
        invariant
            i <= 8,
            pick == declared_only_in(present@, absent@),
            pairs_of(kept@) == all_methods().take(i as int).filter_map(pick),
        decreases 8 - i,
    {
        let ghost before = pairs_of(kept@);
        let method = method_at(i);
        proof {
            all_methods().lemma_filter_map_take_succ(pick, i as int);
        }
        match (present.operation(method), absent.operation(method)) {
            (Some(operation), None) => {
                kept.push((method, operation.clone()));
                assert(pairs_of(kept@) =~= before + seq![(method, operation@)]);
            },
            _ => {
                assert(before + Seq::<(HttpMethod, OperationView)>::empty() =~= before);
            },
        }
        i += 1;
    }
    assert(all_methods().take(8) =~= all_methods());
    kept
}

impl PathItemDiff {
    /// Compares the operations of two path items.
    pub fn from_items(base: &PathItem, head: &PathItem) -> (diff: Self)
        ensures
            diff@ == path_item_diff(base@, head@),
    {
        let ghost pick = changed_between(base@, head@);
        let mut changed: Vec<(HttpMethod, OperationDiff)> = Vec::new();
        let mut i: usize = 0;
        assert(pairs_of(changed@) =~= all_methods().take(0).filter_map(pick));
        while i < 8
            invariant
                i <= 8,
                pick == changed_between(base@, head@),
                pairs_of(changed@) == all_methods().take(i as int).filter_map(pick),
            decreases 8 - i,
        {
            let ghost before = pairs_of(changed@);
            let method = method_at(i);
            proof {
                all_methods().lemma_filter_map_take_succ(pick, i as int);
                assert(before + Seq::<(HttpMethod, OperationDiffView)>::empty() =~= before);
            }
            match (base.operation(method), head.operation(method)) {
                (Some(base_operation), Some(head_operation)) => {
                    let diff = OperationDiff::from_operations(base_operation, head_operation);
                    if diff.has_changes() {
                        changed.push((method, diff));
                        assert(pairs_of(changed@) =~= before + seq![
                            (method, operation_diff(base_operation@, head_operation@)),
                        ]);
                    }
                },
                _ => {},
            }
            i += 1;
        }
        assert(all_methods().take(8) =~= all_methods());
        PathItemDiff {
            added: operations_only_in(head, base),
            removed: operations_only_in(base, head),
            changed,
        }
    }

    /// Compares two entries of a path table. Fails where either is a reference.
    pub fn from_path_items(base: &ReferenceOr<PathItem>, head: &ReferenceOr<PathItem>) -> (outcome:
        Result<Self, DiffError>)
        ensures
            outcome_of(outcome) == path_item_outcome(base@, head@),
    {
        match base {
            ReferenceOr::Reference { reference } => Err(
                DiffError::UnresolvedReference { reference: reference.clone() },
            ),
            ReferenceOr::Item(base_item) => match head {
                ReferenceOr::Reference { reference } => Err(
                    DiffError::UnresolvedReference { reference: reference.clone() },
                ),
                ReferenceOr::Item(head_item) => Ok(PathItemDiff::from_items(base_item, head_item)),
            },
        }
    }

    /// Whether a method was added or removed, or the operation of a method changed.
    pub fn has_change(&self) -> (changed: bool)
        ensures
            changed == self@.has_change(),
    {
        !self.added.is_empty() || !self.removed.is_empty() || !self.changed.is_empty()
    }
}

} // verus!

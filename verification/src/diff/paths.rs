//! The top-level diff: the path tables of two documents.

use super::error::{outcome_of, DiffError, DiffErrorView};
use super::keyed::{
    changed_in, distinct_keys, first_failure, has_key, item_of, lemma_changed_in_distinct,
    lemma_changed_in_step, lemma_first_failure_stays, lemma_first_failure_step,
    lemma_first_position, lemma_only_in_distinct, lemma_only_in_step, only_in,
};
use super::path_items::{path_item_outcome, PathItemDiff, PathItemDiffView, PathItemPair};
use crate::openapi::{
    pairs_of, path_at, path_count, path_entries, path_lookup, PathItemView, Paths,
    ReferenceOrView,
};
use vstd::prelude::*;

verus! {

/// The change between two entries of a path table under one path: their
/// diff, where they can be compared and it has a change.
pub open spec fn path_change_fn() -> spec_fn(
    ReferenceOrView<PathItemView>,
    ReferenceOrView<PathItemView>,
) -> Option<PathItemDiffView> {
    |base: ReferenceOrView<PathItemView>, head: ReferenceOrView<PathItemView>|
        match path_item_outcome(base, head) {
            Ok(diff) => if diff.has_change() {
                Some(diff)
            } else {
                None
            },
            Err(_) => None,
        }
}

/// The failure of comparing two entries of a path table, if they cannot be compared.
pub open spec fn path_failure_fn() -> spec_fn(
    ReferenceOrView<PathItemView>,
    ReferenceOrView<PathItemView>,
) -> Option<DiffErrorView> {
    |base: ReferenceOrView<PathItemView>, head: ReferenceOrView<PathItemView>|
        match path_item_outcome(base, head) {
            Ok(_) => None,
            Err(error) => Some(error),
        }
}

/// The paths that a document gained, lost and changed.
///
/// `added` follows the order of the head's path table and `removed` and
/// `changed` that of the base's.
#[derive(Debug)]
pub struct PathsDiff {
    pub added: Vec<PathItemPair>,
    pub removed: Vec<PathItemPair>,
    pub changed: Vec<(String, PathItemDiff)>,
}

/// The mathematical content of a [`PathsDiff`].
pub struct PathsDiffView {
    pub added: Seq<(Seq<char>, ReferenceOrView<PathItemView>)>,
    pub removed: Seq<(Seq<char>, ReferenceOrView<PathItemView>)>,
    pub changed: Seq<(Seq<char>, PathItemDiffView)>,
}

impl View for PathsDiff {
    type V = PathsDiffView;

    open spec fn view(&self) -> PathsDiffView {
        PathsDiffView {
            added: pairs_of(self.added@),
            removed: pairs_of(self.removed@),
            changed: pairs_of(self.changed@),
        }
    }
}

impl PathsDiffView {
    /// Whether any path was added, removed or changed.
    pub open spec fn has_changes(self) -> bool {
        self.added.len() > 0 || self.removed.len() > 0 || self.changed.len() > 0
    }

    /// Whether each partition holds a path at most once, so that `changed`
    /// is a mapping from path to path item diff.
    pub open spec fn keys_distinct(self) -> bool {
        distinct_keys(self.added) && distinct_keys(self.removed) && distinct_keys(self.changed)
    }
}

/// The diff of two path tables, given by their entries in order: the keyed
/// collection diff with the path item diff as the change of an entry. It
/// fails with the first failure met along the base, and then reports nothing else.
pub open spec fn paths_diff(
    base: Seq<(Seq<char>, ReferenceOrView<PathItemView>)>,
    head: Seq<(Seq<char>, ReferenceOrView<PathItemView>)>,
) -> Result<PathsDiffView, DiffErrorView> {
    match first_failure(base, head, path_failure_fn()) {
        Some(error) => Err(error),
        None => Ok(
            PathsDiffView {
                added: only_in(head, base),
                removed: only_in(base, head),
                changed: changed_in(base, head, path_change_fn()),
            },
        ),
    }
}

impl PathsDiff {
    /// Whether any path was added, removed or changed.
    pub fn has_changes(&self) -> (changed: bool)
        ensures
            changed == self@.has_changes(),
    {
        !self.added.is_empty() || !self.removed.is_empty() || !self.changed.is_empty()
    }

    /// The diff of the path items under `path`, where the path is among the changed ones.
    pub fn changed_at(&self, path: &String) -> (found: Option<&PathItemDiff>)
        ensures
            match found {
                Some(diff) => has_key(self@.changed, path@) && item_of(self@.changed, path@)
                    == diff@,
                None => !has_key(self@.changed, path@),
            },
    {
        let ghost entries = pairs_of(self.changed@);
        let mut i: usize = 0;
        while i < self.changed.len()
            invariant
                i <= self.changed.len(),
                entries == pairs_of(self.changed@),
                forall|j: int| 0 <= j < i ==> (#[trigger] entries[j]).0 != path@,
            decreases self.changed.len() - i,
        {
            if self.changed[i].0 == *path {
                proof {
                    lemma_first_position(entries, path@, i as int);
                }
                return Some(&self.changed[i].1);
            }
            i += 1;
        }
        None
    }

    /// Diffs two sets of OpenAPI paths.
    pub fn from_paths(base: &Paths, head: &Paths) -> (outcome: Result<Self, DiffError>)
        ensures
            outcome_of(outcome) == paths_diff(path_entries(*base), path_entries(*head)),
            match outcome {
                Ok(diff) => diff@.keys_distinct(),
                Err(_) => true,
            },
    {
        let ghost b = path_entries(*base);
        let ghost h = path_entries(*head);
        let mut paths_added: Vec<PathItemPair> = Vec::new();
        let mut paths_removed: Vec<PathItemPair> = Vec::new();
        let mut paths_changed: Vec<(String, PathItemDiff)> = Vec::new();

        let base_count = path_count(base);
        let mut i: usize = 0;
        proof {
            reveal(Seq::filter);
            assert(pairs_of(paths_removed@) =~= only_in(b.take(0), h));
            assert(pairs_of(paths_changed@) =~= changed_in(b.take(0), h, path_change_fn()));
            assert(pairs_of(paths_added@) =~= only_in(h.take(0), b));
        }
        while i < base_count
            invariant
                i <= base_count,
                base_count == b.len(),
                b == path_entries(*base),
                h == path_entries(*head),
                first_failure(b.take(i as int), h, path_failure_fn()) is None,
                pairs_of(paths_removed@) == only_in(b.take(i as int), h),
                pairs_of(paths_changed@) == changed_in(b.take(i as int), h, path_change_fn()),
                forall|x: int, y: int|
                    0 <= x < i && 0 <= y < b.len() && x != y ==> (#[trigger] b[x]).0 != (
                    #[trigger] b[y]).0,
            decreases base_count - i,
        {
            let ghost removed_before = pairs_of(paths_removed@);
            let ghost changed_before = pairs_of(paths_changed@);
            proof {
                lemma_only_in_step(b, h, i as int);
                lemma_changed_in_step(b, h, path_change_fn(), i as int);
                lemma_first_failure_step(b, h, path_failure_fn(), i as int);
            }
            match path_at(base, i) {
                Some((path, path_item)) => {
                    match path_lookup(head, path) {
                        Some(head_path_item) => {
                            match PathItemDiff::from_path_items(path_item, head_path_item) {
                                Ok(path_item_diff) => {
                                    if path_item_diff.has_change() {
                                        paths_changed.push((path.clone(), path_item_diff));
                                        assert(pairs_of(paths_changed@) =~= changed_before.push(
                                            (path@, path_item_diff@),
                                        ));
                                    }
                                },
                                Err(error) => {
                                    proof {
                                        lemma_first_failure_stays(
                                            b,
                                            h,
                                            path_failure_fn(),
                                            i + 1,
                                        );
                                    }
                                    return Err(error);
                                },
                            }
                        },
                        None => {
                            paths_removed.push((path.clone(), path_item.clone()));
                            assert(pairs_of(paths_removed@) =~= removed_before.push(b[i as int]));
                        },
                    }
                },
                None => {},
            }
            i += 1;
        }
        assert(b.take(base_count as int) =~= b);

        let head_count = path_count(head);
        let mut k: usize = 0;
        while k < head_count
            invariant
                k <= head_count,
                head_count == h.len(),
                b == path_entries(*base),
                h == path_entries(*head),
                pairs_of(paths_added@) == only_in(h.take(k as int), b),
                forall|x: int, y: int|
                    0 <= x < k && 0 <= y < h.len() && x != y ==> (#[trigger] h[x]).0 != (
                    #[trigger] h[y]).0,
            decreases head_count - k,
        {
            let ghost added_before = pairs_of(paths_added@);
            proof {
                lemma_only_in_step(h, b, k as int);
            }
            match path_at(head, k) {
                Some((path, path_item)) => {
                    match path_lookup(base, path) {
                        Some(_) => {},
                        None => {
                            paths_added.push((path.clone(), path_item.clone()));
                            assert(pairs_of(paths_added@) =~= added_before.push(h[k as int]));
                        },
                    }
                },
                None => {},
            }
            k += 1;
        }
        assert(h.take(head_count as int) =~= h);
        proof {
            lemma_only_in_distinct(h, b);
            lemma_only_in_distinct(b, h);
            lemma_changed_in_distinct(b, h, path_change_fn());
        }

        Ok(PathsDiff { added: paths_added, removed: paths_removed, changed: paths_changed })
    }
}

} // verus!

//! What holds of the diffs as a whole: a document compared with itself shows
//! no change, and the partitions of a keyed diff are disjoint and complete.

use super::common::{absent_from, labels_only_in, text_change, OptionalStringDiffView};
use super::error::DiffErrorView;
use super::keyed::{
    changed_in, differs_under, distinct_keys, has_key, item_of, lemma_changed_in_keys,
    lemma_changed_in_self, lemma_distinct_position, lemma_first_failure_self, lemma_only_in_self,
    lemma_partition, only_in,
};
use super::operations::{operation_diff, tags_diff};
use super::parameters::{keyed_parameters, parameter_change_fn, parameters_diff};
use super::path_items::{
    all_methods, changed_between, declared_only_in, path_item_diff, path_item_outcome,
};
use super::paths::{path_change_fn, path_failure_fn, paths_diff, PathsDiffView};
use super::request_body::request_body_diff;
use crate::openapi::{
    HttpMethod, OperationView, ParameterView, PathItemView, ReferenceOrView, RequestBodyView,
};
use vstd::prelude::*;

verus! {

/// Two optional texts have no diff exactly when they are equal; otherwise
/// the diff runs from the first to the second.
pub proof fn law_text_change(base: Option<Seq<char>>, head: Option<Seq<char>>)
    ensures
        text_change(base, head) is None <==> base == head,
        base != head ==> text_change(base, head) == Some(
            OptionalStringDiffView { from: base, to: head },
        ),
{
}

/// A label is kept by `labels_only_in(labels, other)` exactly when `labels`
/// holds it and `other` does not.
pub proof fn law_labels_only_in(labels: Seq<Seq<char>>, other: Seq<Seq<char>>, label: Seq<char>)
    ensures
        labels_only_in(labels, other).contains(label) <==> labels.contains(label)
            && !other.contains(label),
{
    let kept = labels_only_in(labels, other);
    if kept.contains(label) {
        let i = choose|i: int| 0 <= i < kept.len() && kept[i] == label;
        labels.lemma_filter_pred(absent_from(other), i);
        labels.lemma_filter_contains_rev(absent_from(other), label);
    }
    if labels.contains(label) && !other.contains(label) {
        let j = choose|j: int| 0 <= j < labels.len() && labels[j] == label;
        labels.lemma_filter_contains(absent_from(other), j);
    }
}

/// The added tags are the tags of the head that the base lacks, the removed
/// tags those of the base that the head lacks, and a tag that both have is
/// in neither list.
pub proof fn law_tags_diff(base: Seq<Seq<char>>, head: Seq<Seq<char>>, tag: Seq<char>)
    ensures
        tags_diff(base, head).added.contains(tag) <==> head.contains(tag) && !base.contains(tag),
        tags_diff(base, head).removed.contains(tag) <==> base.contains(tag) && !head.contains(
            tag,
        ),
        base.contains(tag) && head.contains(tag) ==> !tags_diff(base, head).added.contains(tag)
            && !tags_diff(base, head).removed.contains(tag),
{
    law_labels_only_in(head, base, tag);
    law_labels_only_in(base, head, tag);
}

/// A list of labels compared with itself keeps nothing.
pub proof fn law_labels_of_equal(labels: Seq<Seq<char>>)
    ensures
        labels_only_in(labels, labels).len() == 0,
{
    let kept = labels_only_in(labels, labels);
    if kept.len() > 0 {
        assert(kept.contains(kept[0]));
        law_labels_only_in(labels, labels, kept[0]);
    }
}

/// A request body compared with itself has no changes.
pub proof fn law_request_body_of_equal(body: Option<ReferenceOrView<RequestBodyView>>)
    ensures
        !request_body_diff(body, body).has_changes(),
{
    law_labels_of_equal(super::request_body::body_content(body));
}

/// A list of parameters in which no two share a key, compared with itself,
/// has no changes.
pub proof fn law_parameters_of_equal(parameters: Seq<ReferenceOrView<ParameterView>>)
    requires
        distinct_keys(keyed_parameters(parameters)),
    ensures
        !parameters_diff(parameters, parameters).has_changes(),
{
    let entries = keyed_parameters(parameters);
    lemma_only_in_self(entries);
    lemma_changed_in_self(entries, parameter_change_fn());
}

/// An operation compared with itself has no changes: no tag is added or
/// removed, no scalar diff and no request body diff is present, and, where
/// no two of its parameters share a key, no parameter is reported.
pub proof fn law_operation_of_equal(operation: OperationView)
    ensures
        !operation_diff(operation, operation).has_changes(),
        !operation_diff(operation, operation).tags.has_changes(),
        operation_diff(operation, operation).summary is None,
        operation_diff(operation, operation).description is None,
        operation_diff(operation, operation).operation_id is None,
        operation_diff(operation, operation).request_body is None,
        distinct_keys(keyed_parameters(operation.parameters)) ==> !operation_diff(
            operation,
            operation,
        ).parameters.has_changes(),
{
    law_labels_of_equal(operation.tags);
    law_request_body_of_equal(operation.request_body);
    if distinct_keys(keyed_parameters(operation.parameters)) {
        law_parameters_of_equal(operation.parameters);
    }
}

/// A selection that picks nothing yields the empty list.
proof fn lemma_nothing_picked<A, B>(entries: Seq<A>, pick: spec_fn(A) -> Option<B>)
    requires
        forall|entry: A| (#[trigger] pick(entry)) is None,
    ensures
        entries.filter_map(pick).len() == 0,
{
    let picked = entries.filter_map(pick);
    if picked.len() > 0 {
        assert(picked.contains(picked[0]));
        entries.lemma_filter_map_contains(pick, picked[0]);
    }
}

/// A path item compared with itself has no change.
pub proof fn law_path_item_of_equal(item: PathItemView)
    ensures
        !path_item_diff(item, item).has_change(),
{
    assert forall|method: HttpMethod| (#[trigger] changed_between(item, item)(method)) is None by {
        if item.operation(method) is Some {
            law_operation_of_equal(item.operation(method)->0);
        }
    }
    lemma_nothing_picked(all_methods(), declared_only_in(item, item));
    lemma_nothing_picked(all_methods(), changed_between(item, item));
}

/// A path table in which every path item is given in full, compared with
/// itself, has no changes.
pub proof fn law_paths_of_equal(paths: Seq<(Seq<char>, ReferenceOrView<PathItemView>)>)
    requires
        distinct_keys(paths),
        forall|i: int| 0 <= i < paths.len() ==> (#[trigger] paths[i]).1 is Item,
    ensures
        paths_diff(paths, paths) == Ok::<PathsDiffView, DiffErrorView>(
            PathsDiffView { added: Seq::empty(), removed: Seq::empty(), changed: Seq::empty() },
        ),
{
    assert forall|i: int| 0 <= i < paths.len() implies path_failure_fn()(
        (#[trigger] paths[i]).1,
        paths[i].1,
    ) is None && path_change_fn()(paths[i].1, paths[i].1) is None by {
        law_path_item_of_equal(paths[i].1->Item_0);
    }
    lemma_first_failure_self(paths, path_failure_fn(), paths.len() as int);
    assert(paths.take(paths.len() as int) =~= paths);
    lemma_only_in_self(paths);
    lemma_changed_in_self(paths, path_change_fn());
    let diff = paths_diff(paths, paths)->Ok_0;
    assert(diff.added =~= Seq::empty());
    assert(diff.removed =~= Seq::empty());
    assert(diff.changed =~= Seq::empty());
}

/// The partitions of a paths diff are disjoint and complete: a path is
/// added exactly when only the head has it, removed exactly when only the
/// base has it, and changed exactly when both have it and their path items
/// differ; so no path is in two partitions, and a path of either table that
/// is in none is one that both have with nothing reported between its items.
pub proof fn law_paths_partition(
    base: Seq<(Seq<char>, ReferenceOrView<PathItemView>)>,
    head: Seq<(Seq<char>, ReferenceOrView<PathItemView>)>,
    path: Seq<char>,
)
    requires
        paths_diff(base, head) is Ok,
    ensures
        ({
            let diff = paths_diff(base, head)->Ok_0;
            let added = has_key(diff.added, path);
            let removed = has_key(diff.removed, path);
            let changed = has_key(diff.changed, path);
            &&& added <==> has_key(head, path) && !has_key(base, path)
            &&& removed <==> has_key(base, path) && !has_key(head, path)
            &&& changed <==> has_key(base, path) && has_key(head, path) && differs_under(
                base,
                head,
                path_change_fn(),
                path,
            )
            &&& !(added && removed) && !(added && changed) && !(removed && changed)
            &&& (added || removed || changed) ==> has_key(base, path) || has_key(head, path)
            &&& (has_key(base, path) || has_key(head, path)) && !added && !removed && !changed
                ==> has_key(base, path) && has_key(head, path) && !differs_under(
                base,
                head,
                path_change_fn(),
                path,
            )
        }),
{
    lemma_partition(base, head, path_change_fn(), path);
}

/// The partitions of a parameters diff are disjoint and complete in the
/// same way, over the keys of the parameters.
pub proof fn law_parameters_partition(
    base: Seq<ReferenceOrView<ParameterView>>,
    head: Seq<ReferenceOrView<ParameterView>>,
    key: super::parameters::ParameterKeyView,
)
    ensures
        ({
            let diff = parameters_diff(base, head);
            let b = keyed_parameters(base);
            let h = keyed_parameters(head);
            let added = has_key(diff.added, key);
            let removed = has_key(diff.removed, key);
            let changed = has_key(diff.changed, key);
            &&& added <==> has_key(h, key) && !has_key(b, key)
            &&& removed <==> has_key(b, key) && !has_key(h, key)
            &&& changed <==> has_key(b, key) && has_key(h, key) && differs_under(
                b,
                h,
                parameter_change_fn(),
                key,
            )
            &&& !(added && removed) && !(added && changed) && !(removed && changed)
        }),
{
    lemma_partition(keyed_parameters(base), keyed_parameters(head), parameter_change_fn(), key);
}

/// The partitions of a path item diff are disjoint and complete over the
/// methods: a method is added exactly when only the head declares an
/// operation under it, removed exactly when only the base does, and changed
/// exactly when both do and the diff of the two operations has changes.
pub proof fn law_path_item_partition(base: PathItemView, head: PathItemView, method: HttpMethod)
    ensures
        ({
            let diff = path_item_diff(base, head);
            let added = has_key(diff.added, method);
            let removed = has_key(diff.removed, method);
            let changed = has_key(diff.changed, method);
            &&& added <==> base.operation(method) is None && head.operation(method) is Some
            &&& removed <==> base.operation(method) is Some && head.operation(method) is None
            &&& changed <==> base.operation(method) is Some && head.operation(method) is Some
                && operation_diff(
                base.operation(method)->0,
                head.operation(method)->0,
            ).has_changes()
            &&& !(added && removed) && !(added && changed) && !(removed && changed)
        }),
{
    lemma_picked_methods(declared_only_in(head, base), method);
    lemma_picked_methods(declared_only_in(base, head), method);
    lemma_picked_methods(changed_between(base, head), method);
}

/// A selection over the methods that keeps the method as the key holds a
/// method exactly when it picks something for it.
proof fn lemma_picked_methods<B>(pick: spec_fn(HttpMethod) -> Option<(HttpMethod, B)>, method: HttpMethod)
    requires
        forall|m: HttpMethod|
            match #[trigger] pick(m) {
                Some(entry) => entry.0 == m,
                None => true,
            },
    ensures
        has_key(all_methods().filter_map(pick), method) <==> pick(method) is Some,
{
    let picked = all_methods().filter_map(pick);
    if has_key(picked, method) {
        let i = choose|i: int| 0 <= i < picked.len() && (#[trigger] picked[i]).0 == method;
        assert(picked.contains(picked[i]));
        all_methods().lemma_filter_map_contains(pick, picked[i]);
    }
    if pick(method) is Some {
        let position: int = match method {
            HttpMethod::Get => 0,
            HttpMethod::Put => 1,
            HttpMethod::Post => 2,
            HttpMethod::Delete => 3,
            HttpMethod::Options => 4,
            HttpMethod::Head => 5,
            HttpMethod::Patch => 6,
            HttpMethod::Trace => 7,
        };
        assert(all_methods()[position] == method);
        super::keyed::lemma_filter_map_keeps(all_methods(), pick, position);
        let i = choose|i: int| 0 <= i < picked.len() && picked[i] == pick(method)->0;
        assert(picked[i].0 == method);
    }
}

/// A path that both tables hold with the same path item is not among the
/// changed paths.
pub proof fn law_same_path_item_unchanged(
    base: Seq<(Seq<char>, ReferenceOrView<PathItemView>)>,
    head: Seq<(Seq<char>, ReferenceOrView<PathItemView>)>,
    path: Seq<char>,
)
    requires
        distinct_keys(base),
        has_key(base, path),
        has_key(head, path),
        item_of(base, path) == item_of(head, path),
        paths_diff(base, head) is Ok,
    ensures
        !has_key(paths_diff(base, head)->Ok_0.changed, path),
{
    lemma_changed_in_keys(base, head, path_change_fn(), path);
    if differs_under(base, head, path_change_fn(), path) {
        let i = choose|i: int|
            0 <= i < base.len() && (#[trigger] base[i]).0 == path && path_change_fn()(
                base[i].1,
                item_of(head, path),
            ) is Some;
        lemma_distinct_position(base, i);
        match base[i].1 {
            ReferenceOrView::Item(item) => {
                law_path_item_of_equal(item);
            },
            ReferenceOrView::Reference { .. } => {},
        }
    }
}

/// A parameter key that both lists hold with the same parameter is not
/// among the changed parameters.
pub proof fn law_same_parameter_unchanged(
    base: Seq<ReferenceOrView<ParameterView>>,
    head: Seq<ReferenceOrView<ParameterView>>,
    key: super::parameters::ParameterKeyView,
)
    requires
        distinct_keys(keyed_parameters(base)),
        has_key(keyed_parameters(base), key),
        has_key(keyed_parameters(head), key),
        item_of(keyed_parameters(base), key) == item_of(keyed_parameters(head), key),
    ensures
        !has_key(parameters_diff(base, head).changed, key),
{
    let b = keyed_parameters(base);
    let h = keyed_parameters(head);
    lemma_changed_in_keys(b, h, parameter_change_fn(), key);
    if differs_under(b, h, parameter_change_fn(), key) {
        let i = choose|i: int|
            0 <= i < b.len() && (#[trigger] b[i]).0 == key && parameter_change_fn()(
                b[i].1,
                item_of(h, key),
            ) is Some;
        lemma_distinct_position(b, i);
    }
}

/// A method under which both path items declare the same operation is not
/// among the changed methods.
pub proof fn law_same_operation_unchanged(base: PathItemView, head: PathItemView, method: HttpMethod)
    requires
        base.operation(method) is Some,
        base.operation(method) == head.operation(method),
    ensures
        !has_key(path_item_diff(base, head).changed, method),
{
    law_path_item_partition(base, head, method);
    law_operation_of_equal(base.operation(method)->0);
}

} // verus!

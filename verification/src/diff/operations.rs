//! The diff of one operation, and of the tags it carries.

use super::common::{
    collect_only_in, labels_only_in, text_change, OptionalStringDiff, OptionalStringDiffView,
};
use super::parameters::{parameters_diff, ParametersDiff, ParametersDiffView};
use super::request_body::{request_body_diff, RequestBodyDiff, RequestBodyDiffView};
use crate::openapi::{copy_text, texts_of, view_of, Operation, OperationView};
use vstd::prelude::*;

verus! {

/// The tags that an operation gained and lost.
#[derive(Debug)]
pub struct TagsDiff {
    pub added: Vec<String>,
    pub removed: Vec<String>,
}

/// The mathematical content of a [`TagsDiff`].
pub struct TagsDiffView {
    pub added: Seq<Seq<char>>,
    pub removed: Seq<Seq<char>>,
}

impl View for TagsDiff {
    type V = TagsDiffView;

    open spec fn view(&self) -> TagsDiffView {
        TagsDiffView { added: texts_of(self.added@), removed: texts_of(self.removed@) }
    }
}

impl TagsDiffView {
    /// Whether any tag was added or removed.
    pub open spec fn has_changes(self) -> bool {
        self.added.len() > 0 || self.removed.len() > 0
    }
}

/// The tags diff between two lists of tags: what the head has and the base
/// lacks is added, what the base has and the head lacks is removed.
pub open spec fn tags_diff(base: Seq<Seq<char>>, head: Seq<Seq<char>>) -> TagsDiffView {
    TagsDiffView { added: labels_only_in(head, base), removed: labels_only_in(base, head) }
}

impl TagsDiff {
    /// Compares the tags of the base with those of the head.
    pub fn from_tags(base: &Vec<String>, head: &Vec<String>) -> (diff: Self)
        ensures
            diff@ == tags_diff(texts_of(base@), texts_of(head@)),
    {
        let added = collect_only_in(head, base);
        let removed = collect_only_in(base, head);
        TagsDiff { added, removed }
    }

    /// Whether any tag was added or removed.
    pub fn has_changes(&self) -> (changed: bool)
        ensures
            changed == self@.has_changes(),
    {
        !self.added.is_empty() || !self.removed.is_empty()
    }
}

/// What changed in one operation that the base and the head both have.
#[derive(Debug)]
pub struct OperationDiff {
    pub tags: TagsDiff,
    pub summary: Option<OptionalStringDiff>,
    pub description: Option<OptionalStringDiff>,
    pub operation_id: Option<OptionalStringDiff>,
    pub parameters: ParametersDiff,
    pub request_body: Option<RequestBodyDiff>,
}

/// The mathematical content of an [`OperationDiff`].
pub struct OperationDiffView {
    pub tags: TagsDiffView,
    pub summary: Option<OptionalStringDiffView>,
    pub description: Option<OptionalStringDiffView>,
    pub operation_id: Option<OptionalStringDiffView>,
    pub parameters: ParametersDiffView,
    pub request_body: Option<RequestBodyDiffView>,
}

impl View for OperationDiff {
    type V = OperationDiffView;

    open spec fn view(&self) -> OperationDiffView {
        OperationDiffView {
            tags: self.tags@,
            summary: view_of(self.summary),
            description: view_of(self.description),
            operation_id: view_of(self.operation_id),
            parameters: self.parameters@,
            request_body: view_of(self.request_body),
        }
    }
}

impl OperationDiffView {
    /// Whether the tags, the summary, the description or the operation id
    /// changed. The parameters and the request body are not consulted.
    pub open spec fn has_changes(self) -> bool {
        ||| self.tags.has_changes()
        ||| self.summary is Some
        ||| self.description is Some
        ||| self.operation_id is Some
    }
}

/// The diff of two operations, each field compared on its own. The request
/// body diff is present only where it has changes.
pub open spec fn operation_diff(base: OperationView, head: OperationView) -> OperationDiffView {
    OperationDiffView {
        tags: tags_diff(base.tags, head.tags),
        summary: text_change(base.summary, head.summary),
        description: text_change(base.description, head.description),
        operation_id: text_change(base.operation_id, head.operation_id),
        parameters: parameters_diff(base.parameters, head.parameters),
        request_body: if request_body_diff(base.request_body, head.request_body).has_changes() {
            Some(request_body_diff(base.request_body, head.request_body))
        } else {
            None
        },
    }
}

impl OperationDiff {
    /// Whether the tags, the summary, the description or the operation id changed.
    pub fn has_changes(&self) -> (changed: bool)
        ensures
            changed == self@.has_changes(),
    {
        self.tags.has_changes() || self.summary.is_some() || self.description.is_some()
            || self.operation_id.is_some()
    }

    /// Compares an operation of the base with the operation of the head
    /// under the same path and method.
    pub fn from_operations(base: &Operation, head: &Operation) -> (diff: Self)
        ensures
            diff@ == operation_diff(base@, head@),
    {
        let tags_diff = TagsDiff::from_tags(&base.tags, &head.tags);

        let summary_diff = OptionalStringDiff::from_strings(
            copy_text(&base.summary),
            copy_text(&head.summary),
        );

        let description_diff = OptionalStringDiff::from_strings(
            copy_text(&base.description),
            copy_text(&head.description),
        );

        let operation_id_diff = OptionalStringDiff::from_strings(
            copy_text(&base.operation_id),
            copy_text(&head.operation_id),
        );

        let parameters = ParametersDiff::from_params(&base.parameters, &head.parameters);

        let request_body_diff = RequestBodyDiff::from_request_bodies(
            &base.request_body,
            &head.request_body,
        );

        let request_body = if request_body_diff.has_changes() {
            Some(request_body_diff)
        } else {
            None
        };

        OperationDiff {
            tags: tags_diff,
            summary: summary_diff,
            description: description_diff,
            operation_id: operation_id_diff,
            parameters,
            request_body,
        }
    }
}

} // verus!

//! The diff of the request body of an operation.

use super::common::{
    collect_only_in, flag_change, labels_only_in, text_change, OptionalBoolDiff,
    OptionalStringDiff, OptionalStringDiffView,
};
use crate::openapi::{
    copy_text, text_of, texts_of, view_of, ReferenceOr, ReferenceOrView, RequestBody,
    RequestBodyView,
};
use vstd::prelude::*;

verus! {

/// The reference that stands for a request body, where one does.
pub open spec fn body_reference(body: Option<ReferenceOrView<RequestBodyView>>) -> Option<
    Seq<char>,
> {
    match body {
        Some(ReferenceOrView::Reference { reference }) => Some(reference),
        _ => None,
    }
}

/// The description of a request body that is given in full.
pub open spec fn body_description(body: Option<ReferenceOrView<RequestBodyView>>) -> Option<
    Seq<char>,
> {
    match body {
        Some(ReferenceOrView::Item(item)) => item.description,
        _ => None,
    }
}

/// Whether a request body that is given in full is required.
pub open spec fn body_required(body: Option<ReferenceOrView<RequestBodyView>>) -> Option<bool> {
    match body {
        Some(ReferenceOrView::Item(item)) => Some(item.required),
        _ => None,
    }
}

/// The media types of a request body that is given in full; none otherwise.
pub open spec fn body_content(body: Option<ReferenceOrView<RequestBodyView>>) -> Seq<Seq<char>> {
    match body {
        Some(ReferenceOrView::Item(item)) => item.content,
        _ => Seq::empty(),
    }
}

/// What changed in the request body of an operation.
#[derive(Debug)]
pub struct RequestBodyDiff {
    pub reference: Option<OptionalStringDiff>,
    pub description: Option<OptionalStringDiff>,
    pub required: Option<OptionalBoolDiff>,
    pub content_added: Vec<String>,
    pub content_removed: Vec<String>,
}

/// The mathematical content of a [`RequestBodyDiff`].
pub struct RequestBodyDiffView {
    pub reference: Option<OptionalStringDiffView>,
    pub description: Option<OptionalStringDiffView>,
    pub required: Option<OptionalBoolDiff>,
    pub content_added: Seq<Seq<char>>,
    pub content_removed: Seq<Seq<char>>,
}

impl View for RequestBodyDiff {
    type V = RequestBodyDiffView;

    open spec fn view(&self) -> RequestBodyDiffView {
        RequestBodyDiffView {
            reference: view_of(self.reference),
            description: view_of(self.description),
            required: self.required,
            content_added: texts_of(self.content_added@),
            content_removed: texts_of(self.content_removed@),
        }
    }
}

impl RequestBodyDiffView {
    /// Whether anything of the request body changed.
    pub open spec fn has_changes(self) -> bool {
        ||| self.reference is Some
        ||| self.description is Some
        ||| self.required is Some
        ||| self.content_added.len() > 0
        ||| self.content_removed.len() > 0
    }
}

/// The diff of two request bodies, each of which may be absent, a reference
/// or given in full.
pub open spec fn request_body_diff(
    base: Option<ReferenceOrView<RequestBodyView>>,
    head: Option<ReferenceOrView<RequestBodyView>>,
) -> RequestBodyDiffView {
    RequestBodyDiffView {
        reference: text_change(body_reference(base), body_reference(head)),
        description: text_change(body_description(base), body_description(head)),
        required: flag_change(body_required(base), body_required(head)),
        content_added: labels_only_in(body_content(head), body_content(base)),
        content_removed: labels_only_in(body_content(base), body_content(head)),
    }
}

fn reference_of(body: &Option<ReferenceOr<RequestBody>>) -> (reference: Option<String>)
    ensures
        text_of(reference) == body_reference(view_of(*body)),
{
    match body {
        Some(ReferenceOr::Reference { reference }) => Some(reference.clone()),
        _ => None,
    }
}

fn description_of(body: &Option<ReferenceOr<RequestBody>>) -> (description: Option<String>)
    ensures
        text_of(description) == body_description(view_of(*body)),
{
    match body {
        Some(ReferenceOr::Item(item)) => copy_text(&item.description),
        _ => None,
    }
}

fn required_of(body: &Option<ReferenceOr<RequestBody>>) -> (required: Option<bool>)
    ensures
        required == body_required(view_of(*body)),
{
    match body {
        Some(ReferenceOr::Item(item)) => Some(item.required),
        _ => None,
    }
}

fn content_of<'a>(body: &'a Option<ReferenceOr<RequestBody>>, none: &'a Vec<String>) -> (content:
    &'a Vec<String>)
    requires
        none@.len() == 0,
    ensures
        texts_of(content@) == body_content(view_of(*body)),
{
    match body {
        Some(ReferenceOr::Item(item)) => &item.content,
        _ => {
            assert(texts_of(none@) =~= Seq::empty());
            none
        },
    }
}

impl RequestBodyDiff {
    /// Compares the request body of the base with that of the head.
    pub fn from_request_bodies(
        base: &Option<ReferenceOr<RequestBody>>,
        head: &Option<ReferenceOr<RequestBody>>,
    ) -> (diff: Self)
        ensures
            diff@ == request_body_diff(view_of(*base), view_of(*head)),
    {
        let none: Vec<String> = Vec::new();
        let base_content = content_of(base, &none);
        let head_content = content_of(head, &none);
        RequestBodyDiff {
            reference: OptionalStringDiff::from_strings(reference_of(base), reference_of(head)),
            description: OptionalStringDiff::from_strings(
                description_of(base),
                description_of(head),
            ),
            required: OptionalBoolDiff::from_flags(required_of(base), required_of(head)),
            content_added: collect_only_in(head_content, base_content),
            content_removed: collect_only_in(base_content, head_content),
        }
    }

    /// Whether anything of the request body changed.
    pub fn has_changes(&self) -> (changed: bool)
        ensures
            changed == self@.has_changes(),
    {
        self.reference.is_some() || self.description.is_some() || self.required.is_some()
            || !self.content_added.is_empty() || !self.content_removed.is_empty()
    }
}

} // verus!

use openapi_diff::diff::common::OptionalBoolDiff;
use openapi_diff::diff::request_body::RequestBodyDiff;
use openapi_diff::openapi::{ReferenceOr, RequestBody};

fn body(description: Option<&str>, content: &[&str], required: bool) -> Option<ReferenceOr<RequestBody>> {
    Some(ReferenceOr::Item(RequestBody {
        description: description.map(|text| text.to_string()),
        content: content.iter().map(|text| text.to_string()).collect(),
        required,
    }))
}

#[test]
fn request_body_absent_on_both_sides() {
    let diff = RequestBodyDiff::from_request_bodies(&None, &None);
    assert!(!diff.has_changes());
}

#[test]
fn request_body_compared_with_itself() {
    let same = body(Some("A cat."), &["application/json", "text/plain"], true);
    let diff = RequestBodyDiff::from_request_bodies(&same, &same);
    assert!(!diff.has_changes());
    assert!(diff.reference.is_none());
    assert!(diff.description.is_none());
    assert!(diff.required.is_none());
    assert!(diff.content_added.is_empty());
    assert!(diff.content_removed.is_empty());
}

#[test]
fn request_body_appears() {
    let diff = RequestBodyDiff::from_request_bodies(&None, &Some(ReferenceOr::Item(RequestBody::default())));
    assert!(diff.has_changes());
    assert!(diff.reference.is_none());
    assert!(diff.description.is_none());
    assert_eq!(diff.required, Some(OptionalBoolDiff { from: None, to: Some(false) }));
    assert!(diff.content_added.is_empty());
    assert!(diff.content_removed.is_empty());
}

#[test]
fn request_body_attributes_change() {
    let base = body(Some("A cat."), &["application/json", "text/plain"], false);
    let head = body(Some("A feline."), &["application/xml", "application/json"], true);

    let diff = RequestBodyDiff::from_request_bodies(&base, &head);

    assert!(diff.has_changes());
    assert!(diff.reference.is_none());
    let description = diff.description.unwrap();
    assert_eq!(description.from, Some("A cat.".to_string()));
    assert_eq!(description.to, Some("A feline.".to_string()));
    assert_eq!(diff.required, Some(OptionalBoolDiff { from: Some(false), to: Some(true) }));
    assert_eq!(diff.content_added, vec!["application/xml".to_string()]);
    assert_eq!(diff.content_removed, vec!["text/plain".to_string()]);
}

#[test]
fn request_body_becomes_a_reference() {
    let base = body(Some("A cat."), &["application/json"], true);
    let head = Some(ReferenceOr::Reference { reference: "#/components/requestBodies/Cat".to_string() });

    let diff = RequestBodyDiff::from_request_bodies(&base, &head);

    assert!(diff.has_changes());
    let reference = diff.reference.unwrap();
    assert_eq!(reference.from, None);
    assert_eq!(reference.to, Some("#/components/requestBodies/Cat".to_string()));
    let description = diff.description.unwrap();
    assert_eq!(description.from, Some("A cat.".to_string()));
    assert_eq!(description.to, None);
    assert_eq!(diff.required, Some(OptionalBoolDiff { from: Some(true), to: None }));
    assert!(diff.content_added.is_empty());
    assert_eq!(diff.content_removed, vec!["application/json".to_string()]);
}

#[test]
fn request_body_same_reference() {
    let same = Some(ReferenceOr::Reference { reference: "#/a".to_string() });
    let other = Some(ReferenceOr::Reference { reference: "#/b".to_string() });

    assert!(!RequestBodyDiff::from_request_bodies(&same, &same).has_changes());
    let diff = RequestBodyDiff::from_request_bodies(&same, &other);
    let reference = diff.reference.unwrap();
    assert_eq!(reference.from, Some("#/a".to_string()));
    assert_eq!(reference.to, Some("#/b".to_string()));
}

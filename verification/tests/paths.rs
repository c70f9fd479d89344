use openapi_diff::diff::paths::PathsDiff;
use openapi_diff::diff::DiffError;
use openapi_diff::openapi::{HttpMethod, Operation, PathItem, Paths, ReferenceOr};

#[test]
fn path_added() {
    let base = Paths::default();
    let mut head = Paths::default();
    head.insert("/cats".into(), ReferenceOr::Item(PathItem::default()));

    let diff = PathsDiff::from_paths(&base, &head).expect("Failed to diff paths");

    assert_eq!(diff.added.len(), 1);
    assert_eq!(diff.added.first().unwrap().0, "/cats");
}

#[test]
fn path_removed() {
    let mut base = Paths::default();
    base.insert("/cats".into(), ReferenceOr::Item(PathItem::default()));
    let head = Paths::default();

    let diff = PathsDiff::from_paths(&base, &head).expect("Failed to diff paths");

    assert_eq!(diff.added.len(), 0);
    assert_eq!(diff.removed.len(), 1);
    assert_eq!(diff.removed.first().unwrap().0, "/cats");
}

fn item_with_get(summary: &str) -> ReferenceOr<PathItem> {
    let mut operation = Operation::default();
    operation.summary = Some(summary.into());
    let mut item = PathItem::default();
    item.get = Some(operation);
    ReferenceOr::Item(item)
}

#[test]
fn path_added_leaves_other_partitions_empty() {
    let base = Paths::default();
    let mut head = Paths::default();
    head.insert("/cats".into(), ReferenceOr::Item(PathItem::default()));

    let diff = PathsDiff::from_paths(&base, &head).unwrap();

    assert!(diff.removed.is_empty());
    assert!(diff.changed.is_empty());
    assert!(diff.has_changes());
}

#[test]
fn path_removed_leaves_other_partitions_empty() {
    let mut base = Paths::default();
    base.insert("/cats".into(), ReferenceOr::Item(PathItem::default()));
    let head = Paths::default();

    let diff = PathsDiff::from_paths(&base, &head).unwrap();

    assert!(diff.added.is_empty());
    assert!(diff.changed.is_empty());
    assert!(diff.has_changes());
}

#[test]
fn identical_documents_have_no_changes() {
    let mut base = Paths::default();
    base.insert("/cats".into(), item_with_get("Lists cats."));
    base.insert("/dogs".into(), ReferenceOr::Item(PathItem::default()));
    let mut head = Paths::default();
    head.insert("/cats".into(), item_with_get("Lists cats."));
    head.insert("/dogs".into(), ReferenceOr::Item(PathItem::default()));

    let diff = PathsDiff::from_paths(&base, &head).unwrap();

    assert!(!diff.has_changes());
    assert!(diff.added.is_empty());
    assert!(diff.removed.is_empty());
    assert!(diff.changed.is_empty());
}

#[test]
fn partitions_follow_the_order_of_their_table() {
    let mut base = Paths::default();
    base.insert("/z".into(), ReferenceOr::Item(PathItem::default()));
    base.insert("/cats".into(), item_with_get("Lists cats."));
    base.insert("/a".into(), ReferenceOr::Item(PathItem::default()));
    base.insert("/same".into(), item_with_get("Same."));
    let mut head = Paths::default();
    head.insert("/y".into(), ReferenceOr::Item(PathItem::default()));
    head.insert("/same".into(), item_with_get("Same."));
    head.insert("/cats".into(), item_with_get("Lists felines."));
    head.insert("/b".into(), ReferenceOr::Item(PathItem::default()));

    let diff = PathsDiff::from_paths(&base, &head).unwrap();

    let added: Vec<&str> = diff.added.iter().map(|entry| entry.0.as_str()).collect();
    let removed: Vec<&str> = diff.removed.iter().map(|entry| entry.0.as_str()).collect();
    let changed: Vec<&str> = diff.changed.iter().map(|entry| entry.0.as_str()).collect();
    assert_eq!(added, vec!["/y", "/b"]);
    assert_eq!(removed, vec!["/z", "/a"]);
    assert_eq!(changed, vec!["/cats"]);

    let path_item_diff = &diff.changed[0].1;
    assert!(path_item_diff.added.is_empty());
    assert!(path_item_diff.removed.is_empty());
    assert_eq!(path_item_diff.changed.len(), 1);
    assert_eq!(path_item_diff.changed[0].0, HttpMethod::Get);
    let summary = path_item_diff.changed[0].1.summary.as_ref().unwrap();
    assert_eq!(summary.from, Some("Lists cats.".to_string()));
    assert_eq!(summary.to, Some("Lists felines.".to_string()));
}

#[test]
fn reference_under_a_shared_path_fails() {
    let mut base = Paths::default();
    base.insert("/cats".into(), ReferenceOr::Item(PathItem::default()));
    base.insert("/dogs".into(), ReferenceOr::Reference { reference: "#/dogs".into() });
    base.insert("/fish".into(), ReferenceOr::Reference { reference: "#/fish".into() });
    let mut head = Paths::default();
    head.insert("/fish".into(), ReferenceOr::Item(PathItem::default()));
    head.insert("/dogs".into(), ReferenceOr::Item(PathItem::default()));

    let error = PathsDiff::from_paths(&base, &head).unwrap_err();

    assert_eq!(error.reference(), "#/dogs");
    assert!(matches!(error, DiffError::UnresolvedReference { .. }));
}

#[test]
fn reference_in_head_under_a_shared_path_fails() {
    let mut base = Paths::default();
    base.insert("/cats".into(), ReferenceOr::Item(PathItem::default()));
    let mut head = Paths::default();
    head.insert("/cats".into(), ReferenceOr::Reference { reference: "#/cats".into() });

    let error = PathsDiff::from_paths(&base, &head).unwrap_err();

    assert_eq!(error.reference(), "#/cats");
}

#[test]
fn reference_under_an_unshared_path_is_carried_along() {
    let mut base = Paths::default();
    base.insert("/dogs".into(), ReferenceOr::Reference { reference: "#/dogs".into() });
    let mut head = Paths::default();
    head.insert("/cats".into(), ReferenceOr::Reference { reference: "#/cats".into() });

    let diff = PathsDiff::from_paths(&base, &head).unwrap();

    assert_eq!(diff.removed.len(), 1);
    assert_eq!(diff.removed[0].0, "/dogs");
    assert!(matches!(&diff.removed[0].1, ReferenceOr::Reference { reference } if reference == "#/dogs"));
    assert_eq!(diff.added.len(), 1);
    assert_eq!(diff.added[0].0, "/cats");
    assert!(diff.changed.is_empty());
}

#[test]
fn lookup_finds_the_item_under_the_path_not_at_the_position() {
    let mut base = Paths::default();
    base.insert("/a".into(), item_with_get("A."));
    base.insert("/b".into(), item_with_get("B."));
    let mut head = Paths::default();
    head.insert("/b".into(), item_with_get("B."));
    head.insert("/a".into(), item_with_get("A."));

    let diff = PathsDiff::from_paths(&base, &head).unwrap();

    assert!(!diff.has_changes());
}

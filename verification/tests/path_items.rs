use openapi_diff::diff::path_items::{method_at, PathItemDiff};
use openapi_diff::diff::paths::PathsDiff;
use openapi_diff::openapi::{HttpMethod, Operation, PathItem, Paths, ReferenceOr};

fn operation(summary: &str) -> Operation {
    let mut operation = Operation::default();
    operation.summary = Some(summary.into());
    operation
}

#[test]
fn methods_are_walked_in_a_fixed_order() {
    let order: Vec<HttpMethod> = (0..8).map(method_at).collect();
    assert_eq!(
        order,
        vec![
            HttpMethod::Get,
            HttpMethod::Put,
            HttpMethod::Post,
            HttpMethod::Delete,
            HttpMethod::Options,
            HttpMethod::Head,
            HttpMethod::Patch,
            HttpMethod::Trace,
        ]
    );
}

#[test]
fn operation_by_method() {
    let mut item = PathItem::default();
    item.patch = Some(operation("Patches."));
    item.head = Some(operation("Heads."));

    assert!(item.operation(HttpMethod::Get).is_none());
    assert_eq!(item.operation(HttpMethod::Patch).unwrap().summary, Some("Patches.".to_string()));
    assert_eq!(item.operation(HttpMethod::Head).unwrap().summary, Some("Heads.".to_string()));
}

#[test]
fn path_item_compared_with_itself() {
    let mut item = PathItem::default();
    item.get = Some(operation("Lists."));
    item.post = Some(operation("Creates."));

    let diff = PathItemDiff::from_items(&item, &item);

    assert!(!diff.has_change());
    assert!(diff.added.is_empty());
    assert!(diff.removed.is_empty());
    assert!(diff.changed.is_empty());
}

#[test]
fn path_item_partitions_by_method() {
    let mut base = PathItem::default();
    base.trace = Some(operation("Traces."));
    base.get = Some(operation("Lists cats."));
    base.put = Some(operation("Replaces."));
    base.delete = Some(operation("Deletes."));
    let mut head = PathItem::default();
    head.get = Some(operation("Lists felines."));
    head.put = Some(operation("Replaces."));
    head.patch = Some(operation("Patches."));
    head.post = Some(operation("Creates."));

    let diff = PathItemDiff::from_items(&base, &head);

    let added: Vec<HttpMethod> = diff.added.iter().map(|entry| entry.0).collect();
    let removed: Vec<HttpMethod> = diff.removed.iter().map(|entry| entry.0).collect();
    let changed: Vec<HttpMethod> = diff.changed.iter().map(|entry| entry.0).collect();
    assert_eq!(added, vec![HttpMethod::Post, HttpMethod::Patch]);
    assert_eq!(removed, vec![HttpMethod::Delete, HttpMethod::Trace]);
    assert_eq!(changed, vec![HttpMethod::Get]);
    assert!(diff.has_change());
    assert_eq!(diff.added[0].1.summary, Some("Creates.".to_string()));
    assert_eq!(diff.removed[1].1.summary, Some("Traces.".to_string()));
    let summary = diff.changed[0].1.summary.as_ref().unwrap();
    assert_eq!(summary.from, Some("Lists cats.".to_string()));
    assert_eq!(summary.to, Some("Lists felines.".to_string()));
}

#[test]
fn path_item_reference_cannot_be_compared() {
    let item = ReferenceOr::Item(PathItem::default());
    let base_reference = ReferenceOr::Reference { reference: "#/base".to_string() };
    let head_reference = ReferenceOr::Reference { reference: "#/head".to_string() };

    assert!(PathItemDiff::from_path_items(&item, &item).is_ok());
    let error = PathItemDiff::from_path_items(&item, &head_reference).unwrap_err();
    assert_eq!(error.reference(), "#/head");
    let error = PathItemDiff::from_path_items(&base_reference, &item).unwrap_err();
    assert_eq!(error.reference(), "#/base");
    let error = PathItemDiff::from_path_items(&base_reference, &head_reference).unwrap_err();
    assert_eq!(error.reference(), "#/base");
}

#[test]
fn changed_path_is_found_by_its_path() {
    let mut base_item = PathItem::default();
    base_item.get = Some(operation("Lists cats."));
    let mut head_item = PathItem::default();
    head_item.get = Some(operation("Lists felines."));
    let mut base = Paths::default();
    base.insert("/dogs".into(), ReferenceOr::Item(PathItem::default()));
    base.insert("/cats".into(), ReferenceOr::Item(base_item));
    let mut head = Paths::default();
    head.insert("/cats".into(), ReferenceOr::Item(head_item));
    head.insert("/dogs".into(), ReferenceOr::Item(PathItem::default()));

    let diff = PathsDiff::from_paths(&base, &head).unwrap();

    assert!(diff.changed_at(&"/dogs".to_string()).is_none());
    assert!(diff.changed_at(&"/fish".to_string()).is_none());
    let found = diff.changed_at(&"/cats".to_string()).unwrap();
    assert_eq!(found.changed.len(), 1);
    assert_eq!(found.changed[0].0, HttpMethod::Get);
}

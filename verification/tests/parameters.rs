use openapi_diff::diff::common::{BoolDiff, OptionalBoolDiff};
use openapi_diff::diff::parameters::{
    find_parameter, same_parameter, ParameterDiff, ParameterKey, ParametersDiff,
};
use openapi_diff::openapi::{Parameter, ParameterLocation, ReferenceOr};

fn parameter(
    name: &str,
    location: ParameterLocation,
    description: Option<&str>,
    required: bool,
) -> ReferenceOr<Parameter> {
    ReferenceOr::Item(Parameter {
        name: name.into(),
        location,
        description: description.map(|text| text.to_string()),
        required,
    })
}

fn reference(target: &str) -> ReferenceOr<Parameter> {
    ReferenceOr::Reference { reference: target.into() }
}

fn key_name(key: &ParameterKey) -> String {
    match key {
        ParameterKey::Reference { reference } => format!("ref {}", reference),
        ParameterKey::Named { name, location } => format!("{:?} {}", location, name),
    }
}

#[test]
fn parameters_are_keyed_by_name_and_location() {
    let a = parameter("id", ParameterLocation::Path, None, true);
    let b = parameter("id", ParameterLocation::Query, None, true);
    let c = parameter("id", ParameterLocation::Path, Some("The id."), false);

    assert!(!same_parameter(&a, &b));
    assert!(same_parameter(&a, &c));
    assert!(same_parameter(&reference("#/p"), &reference("#/p")));
    assert!(!same_parameter(&reference("#/p"), &reference("#/q")));
    assert!(!same_parameter(&reference("id"), &a));
}

#[test]
fn find_parameter_gives_the_first_position() {
    let list = vec![
        parameter("a", ParameterLocation::Query, None, false),
        parameter("id", ParameterLocation::Path, Some("first"), false),
        parameter("id", ParameterLocation::Path, Some("second"), false),
    ];

    let wanted = parameter("id", ParameterLocation::Path, None, true);
    assert_eq!(find_parameter(&list, &wanted), Some(1));
    assert_eq!(find_parameter(&list, &reference("#/p")), None);
    assert_eq!(find_parameter(&Vec::new(), &wanted), None);
}

#[test]
fn parameter_diff_reports_each_attribute() {
    let base = Parameter {
        name: "id".into(),
        location: ParameterLocation::Path,
        description: Some("The id.".into()),
        required: false,
    };
    let head = Parameter {
        name: "id".into(),
        location: ParameterLocation::Path,
        description: None,
        required: true,
    };

    let diff = ParameterDiff::from_parameters(&base, &head);

    assert!(diff.has_changes());
    let description = diff.description.unwrap();
    assert_eq!(description.from, Some("The id.".to_string()));
    assert_eq!(description.to, None);
    assert_eq!(diff.required, Some(BoolDiff { from: false, to: true }));

    let same = ParameterDiff::from_parameters(&base, &base);
    assert!(!same.has_changes());
    assert!(same.description.is_none());
    assert!(same.required.is_none());
}

#[test]
fn parameters_diff_partitions() {
    let base = vec![
        parameter("gone", ParameterLocation::Query, None, false),
        parameter("id", ParameterLocation::Path, None, true),
        reference("#/shared"),
        parameter("limit", ParameterLocation::Query, Some("Page size."), false),
        reference("#/old"),
    ];
    let head = vec![
        reference("#/new"),
        parameter("limit", ParameterLocation::Query, Some("Size of a page."), false),
        parameter("id", ParameterLocation::Path, None, true),
        parameter("id", ParameterLocation::Header, None, true),
        reference("#/shared"),
    ];

    let diff = ParametersDiff::from_params(&base, &head);

    let added: Vec<String> = diff.added.iter().map(|entry| key_name(&entry.0)).collect();
    let removed: Vec<String> = diff.removed.iter().map(|entry| key_name(&entry.0)).collect();
    let changed: Vec<String> = diff.changed.iter().map(|entry| key_name(&entry.0)).collect();
    assert_eq!(added, vec!["ref #/new", "Header id"]);
    assert_eq!(removed, vec!["Query gone", "ref #/old"]);
    assert_eq!(changed, vec!["Query limit"]);
    assert!(diff.has_changes());

    let description = diff.changed[0].1.description.as_ref().unwrap();
    assert_eq!(description.from, Some("Page size.".to_string()));
    assert_eq!(description.to, Some("Size of a page.".to_string()));
    assert!(diff.changed[0].1.required.is_none());
}

#[test]
fn parameters_compared_with_themselves() {
    let list = vec![
        parameter("id", ParameterLocation::Path, None, true),
        reference("#/shared"),
    ];

    let diff = ParametersDiff::from_params(&list, &list);

    assert!(!diff.has_changes());
    assert!(diff.added.is_empty());
    assert!(diff.removed.is_empty());
    assert!(diff.changed.is_empty());
}

#[test]
fn repeated_key_is_compared_with_the_first_of_the_head() {
    let list = vec![
        parameter("id", ParameterLocation::Path, Some("first"), true),
        parameter("id", ParameterLocation::Path, Some("second"), true),
    ];

    let diff = ParametersDiff::from_params(&list, &list);

    assert!(diff.added.is_empty());
    assert!(diff.removed.is_empty());
    assert_eq!(diff.changed.len(), 1);
    let description = diff.changed[0].1.description.as_ref().unwrap();
    assert_eq!(description.from, Some("second".to_string()));
    assert_eq!(description.to, Some("first".to_string()));
}

#[test]
fn bool_and_flag_changes() {
    assert_eq!(BoolDiff::from_bools(true, true), None);
    assert_eq!(BoolDiff::from_bools(true, false), Some(BoolDiff { from: true, to: false }));
    assert_eq!(OptionalBoolDiff::from_flags(None, None), None);
    assert_eq!(OptionalBoolDiff::from_flags(Some(false), Some(false)), None);
    assert_eq!(
        OptionalBoolDiff::from_flags(None, Some(false)),
        Some(OptionalBoolDiff { from: None, to: Some(false) })
    );
    assert_eq!(
        OptionalBoolDiff::from_flags(Some(true), Some(false)),
        Some(OptionalBoolDiff { from: Some(true), to: Some(false) })
    );
}

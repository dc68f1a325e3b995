use manatsu::error::Error;
use manatsu::scaffold::component;
use manatsu::scaffold::composable;

#[test]
fn composable_should_determine_if_name_is_valid() {
    let name = "useManatsu";
    assert!(composable::is_valid_name(name));

    let name = "composable-name";
    assert!(!composable::is_valid_name(name));
}

#[test]
fn component_should_determine_if_name_is_valid() {
    let name = "button";
    assert!(component::is_valid(name));

    let name = "Select99@";
    assert!(!component::is_valid(name));
}

#[test]
fn composable_accepts_prefixed_segmented_names() {
    assert!(composable::is_valid_name("use"));
    assert!(composable::is_valid_name("useData"));
    assert!(composable::is_valid_name("use-manatsu"));
    assert!(composable::is_valid_name("useFoo-Bar"));
}

#[test]
fn composable_rejects_malformed_names() {
    assert!(!composable::is_valid_name(""));
    assert!(!composable::is_valid_name("us"));
    assert!(!composable::is_valid_name("Use"));
    assert!(!composable::is_valid_name("-use"));
    assert!(!composable::is_valid_name("use-"));
    assert!(!composable::is_valid_name("use--x"));
    assert!(!composable::is_valid_name("use2"));
    assert!(!composable::is_valid_name("useManatsu9"));
    assert!(!composable::is_valid_name("use manatsu"));
}

#[test]
fn component_accepts_kebab_names() {
    assert!(component::is_valid("a"));
    assert!(component::is_valid("data-table"));
    assert!(component::is_valid("a-"));
}

#[test]
fn component_rejects_malformed_names() {
    assert!(!component::is_valid(""));
    assert!(!component::is_valid("-a"));
    assert!(!component::is_valid("Button"));
    assert!(!component::is_valid("select99"));
    assert!(!component::is_valid("data_table"));
}

#[test]
fn error_variants_are_distinguishable() {
    assert_ne!(Error::InvalidName, Error::AlreadyExists);
    assert_ne!(Error::EmptyRequest, Error::NothingBuildable);
    assert_ne!(
        Error::CollaboratorFailure(String::from("pnpm exec prettier")),
        Error::IoFailure(String::from("pnpm exec prettier"))
    );
}

#[test]
fn composable_unit_name_projects_to_camel() {
    assert_eq!(composable::unit_name("use-manatsu").unwrap(), "useManatsu");
    assert_eq!(composable::unit_name("useManatsu").unwrap(), "useManatsu");
    assert_eq!(composable::unit_name("nope"), Err(Error::InvalidName));
}

#[test]
fn component_unit_names_project_to_kebab_and_pascal() {
    let (kebab, pascal) = component::unit_names("data-table").unwrap();
    assert_eq!(kebab, "data-table");
    assert_eq!(pascal, "DataTable");

    let (kebab, pascal) = component::unit_names("button").unwrap();
    assert_eq!(kebab, "button");
    assert_eq!(pascal, "Button");

    assert_eq!(component::unit_names("Nope"), Err(Error::InvalidName));
}

use heck::cases::{AsCase, Case, CaseNotFound, ToCase, CASES, EXPECTED_CASES};

const TEXT: &str = "We are going to inherit the earth";

fn expected() -> Vec<(Case, &'static str, &'static str)> {
    vec![
        (Case::LowerCamelCase, "camelCase", "weAreGoingToInheritTheEarth"),
        (Case::UpperCamelCase, "UpperCamelCase", "WeAreGoingToInheritTheEarth"),
        (Case::PascalCase, "PascalCase", "WeAreGoingToInheritTheEarth"),
        (Case::SnakeCase, "snake_case", "we_are_going_to_inherit_the_earth"),
        (Case::ScreamingSnakeCase, "UPPER_SNAKE_CASE", "WE_ARE_GOING_TO_INHERIT_THE_EARTH"),
        (Case::KebabCase, "kebab-case", "we-are-going-to-inherit-the-earth"),
        (Case::ScreamingKebabCase, "UPPER-KEBAB-CASE", "WE-ARE-GOING-TO-INHERIT-THE-EARTH"),
        (Case::TitleCase, "Title Case", "We Are Going To Inherit The Earth"),
        (Case::TrainCase, "Train-Case", "We-Are-Going-To-Inherit-The-Earth"),
        (Case::UpperCase, "UPPERCASE", "WE ARE GOING TO INHERIT THE EARTH"),
        (Case::LowerCase, "lowercase", "we are going to inherit the earth"),
    ]
}

#[test]
fn to_case_by_value() {
    for (case, _, expected) in expected() {
        assert_eq!(TEXT.to_case(case), expected);
        assert_eq!(TEXT.to_optional_case(Some(case)), expected);
    }
    assert_eq!(TEXT.to_optional_case(None), TEXT);
}

#[test]
fn to_case_by_name() {
    for (case, name, expected) in expected() {
        let parsed: Case = name.parse().expect("Failed to parse case");
        assert_eq!(parsed, case);
        assert_eq!(Case::from_str(name), Ok(case));
        assert_eq!(TEXT.to_case(parsed), expected);
    }
}

#[test]
fn aliases_are_recognized() {
    let aliases = [
        ("camelCase", Case::LowerCamelCase),
        ("lowerCamelCase", Case::LowerCamelCase),
        ("lower_snake_case", Case::SnakeCase),
        ("snake_case", Case::SnakeCase),
        ("snek_case", Case::SnakeCase),
        ("UPPER_SNAKE_CASE", Case::ScreamingSnakeCase),
        ("SCREAMING_SNAKE_CASE", Case::ScreamingSnakeCase),
        ("SHOUTY_SNEK_CASE", Case::ScreamingSnakeCase),
        ("lower-kebab-case", Case::KebabCase),
        ("kebab-case", Case::KebabCase),
        ("UPPER-KEBAB-CASE", Case::ScreamingKebabCase),
        ("SCREAMING-KEBAB-CASE", Case::ScreamingKebabCase),
        ("TitleCase", Case::TitleCase),
        ("Title Case", Case::TitleCase),
    ];
    for (name, case) in aliases {
        assert_eq!(Case::from_str(name), Ok(case));
    }
}

#[test]
fn unknown_name_is_an_error() {
    for name in ["", "camelcase", "CamelCase", "snake case", "kebab_case", " lowercase"] {
        assert_eq!(Case::from_str(name), Err(CaseNotFound(name.to_string())));
        assert_eq!(name.parse::<Case>(), Err(CaseNotFound(name.to_string())));
        assert!(AsCase::try_from("text", name).is_err());
    }
    let error = Case::from_str("no case").unwrap_err();
    assert_eq!(error.name(), "no case");
}

#[test]
fn message_of_the_error() {
    let error = CaseNotFound("sna\"ke".to_string());
    assert_eq!(
        error.to_string(),
        "Invalid Case: \"sna\\\"ke\" expected one of [`lowerCamelCase`, `UpperCamelCase`, `PascalCase`, `snake_case`, `UPPER_SNAKE_CASE`, `kebab-case`, `UPPER-KEBAB-CASE`, `Title Case`, `Train-Case`, `UPPERCASE`, `lowercase`, ]"
    );
    assert!(error.to_string().ends_with(EXPECTED_CASES));
}

#[test]
fn names_of_the_cases() {
    let names: Vec<&str> = expected().iter().map(|(case, _, _)| case.as_ref()).collect();
    assert_eq!(names, CASES);
    assert_eq!(Case::LowerCamelCase.as_ref(), "lowerCamelCase");
    assert_eq!(Case::ScreamingKebabCase.to_string(), "UPPER-KEBAB-CASE");
    for name in CASES {
        assert_eq!(Case::from_str(name).unwrap().as_ref(), name);
    }
}

#[test]
fn as_case_wrappers() {
    for (case, name, expected) in expected() {
        assert_eq!(case.as_case(TEXT).to_string(), expected);
        assert_eq!(AsCase::from(TEXT, case).to_string(), expected);
        match AsCase::try_from(TEXT, name) {
            Ok(wrapped) => assert_eq!(wrapped.to_string(), expected),
            Err(_) => panic!("{name} names a case"),
        }
    }
    assert!(matches!(Case::PascalCase.as_case("x"), AsCase::PascalCase(_)));
    assert!(matches!(Case::UpperCamelCase.as_case("x"), AsCase::UpperCamelCase(_)));
    assert!(matches!(Case::ScreamingSnakeCase.as_case("x"), AsCase::ShoutySnakeCase(_)));
    assert!(matches!(Case::LowerCase.as_case("x"), AsCase::LowerCase("x")));
}

#[test]
fn whole_text_cases_keep_separators() {
    // lowercase and UPPERCASE are the mappings of the standard library for
    // the whole text: nothing is segmented, nothing is dropped.
    assert_eq!("Foo_Bar baz".to_case(Case::LowerCase), "foo_bar baz");
    assert_eq!("Foo_Bar baz".to_case(Case::UpperCase), "FOO_BAR BAZ");
}

#[test]
fn conversions_of_the_standard_library() {
    assert_eq!(Case::try_from("snek_case"), Ok(Case::SnakeCase));
    assert_eq!(Case::try_from("Title Case".to_string()), Ok(Case::TitleCase));
    assert_eq!(Case::try_from("title case"), Err(CaseNotFound("title case".to_string())));
    assert_eq!(Case::try_from("no".to_string()), Err(CaseNotFound("no".to_string())));
    let parsed: Result<Case, CaseNotFound> = "kebab-case".try_into();
    assert_eq!(parsed, Ok(Case::KebabCase));
    assert_eq!(CaseNotFound::from("x"), CaseNotFound("x".to_string()));
    assert_eq!(CaseNotFound::from("y".to_string()), CaseNotFound("y".to_string()));
    let error: CaseNotFound = "z".into();
    assert_eq!(error.name(), "z");
}

use declarative_env::accepted_rust_type::AcceptedRustType;
use declarative_env::env_resolution::{resolve_env_values, RequiredEnvNotFoundError};
use declarative_env::variable_declarations::{
    EnvVariableDeclarations, EnvVariableSpec, RawVariableEntry, SchemaEntryError,
};

fn u16_var_with_default() -> EnvVariableDeclarations {
    EnvVariableDeclarations::new(vec![EnvVariableSpec::from_name_and_fields(
        "TEST_VAR".to_owned(),
        AcceptedRustType::U16,
        "x".to_owned(),
        Some("10".to_owned()),
    )])
}

#[test]
fn absent_variable_falls_back_to_default() {
    let decls = u16_var_with_default();
    let env: Vec<(String, String)> = vec![];
    let values = resolve_env_values(&decls, &env).expect("a default covers the absence");
    assert_eq!(values, vec!["10".to_owned()]);
    let parsed: u16 = values[0].parse().expect("the default parses as u16");
    assert_eq!(parsed, 10);
}

#[test]
fn present_variable_wins_over_default() {
    let decls = u16_var_with_default();
    let env = vec![("TEST_VAR".to_owned(), "42".to_owned())];
    let values = resolve_env_values(&decls, &env).expect("the variable is present");
    assert_eq!(values, vec!["42".to_owned()]);
    let parsed: u16 = values[0].parse().expect("the environment text parses as u16");
    assert_eq!(parsed, 42);
}

#[test]
fn absent_string_variable_without_default_fails() {
    let decls = EnvVariableDeclarations::new(vec![EnvVariableSpec::from_name_and_fields(
        "TEST_VAR".to_owned(),
        AcceptedRustType::Text,
        "x".to_owned(),
        None,
    )]);
    let env: Vec<(String, String)> = vec![];
    let error = resolve_env_values(&decls, &env).expect_err("nothing covers the absence");
    assert_eq!(error.key, "TEST_VAR");
    assert_eq!(
        error.message(),
        "failed to load configuration from env: variable TEST_VAR not found \
         and no default value specified"
    );
}

#[test]
fn first_uncovered_variable_names_the_failure() {
    let decls = EnvVariableDeclarations::new(vec![
        EnvVariableSpec::from_name_and_fields(
            "COVERED_VAR".to_owned(),
            AcceptedRustType::U8,
            "a".to_owned(),
            Some("1".to_owned()),
        ),
        EnvVariableSpec::from_name_and_fields(
            "FIRST_MISSING".to_owned(),
            AcceptedRustType::U8,
            "b".to_owned(),
            None,
        ),
        EnvVariableSpec::from_name_and_fields(
            "SECOND_MISSING".to_owned(),
            AcceptedRustType::U8,
            "c".to_owned(),
            None,
        ),
    ]);
    let env: Vec<(String, String)> = vec![];
    let error = resolve_env_values(&decls, &env).expect_err("two variables are uncovered");
    assert_eq!(error.key, "FIRST_MISSING");
}

#[test]
fn values_keep_schema_order() {
    let decls = EnvVariableDeclarations::new(vec![
        EnvVariableSpec::from_name_and_fields(
            "B_VAR".to_owned(),
            AcceptedRustType::U8,
            "b".to_owned(),
            None,
        ),
        EnvVariableSpec::from_name_and_fields(
            "A_VAR".to_owned(),
            AcceptedRustType::U8,
            "a".to_owned(),
            None,
        ),
    ]);
    let env = vec![
        ("A_VAR".to_owned(), "1".to_owned()),
        ("B_VAR".to_owned(), "2".to_owned()),
    ];
    let values = resolve_env_values(&decls, &env).expect("both variables are present");
    assert_eq!(values, vec!["2".to_owned(), "1".to_owned()]);
}

#[test]
fn unparsable_default_fails_later_parsing() {
    let decls = EnvVariableDeclarations::new(vec![EnvVariableSpec::from_name_and_fields(
        "TEST_VAR".to_owned(),
        AcceptedRustType::U16,
        "x".to_owned(),
        Some("abc".to_owned()),
    )]);
    let env: Vec<(String, String)> = vec![];
    let values = resolve_env_values(&decls, &env).expect("the default is used as text");
    assert_eq!(values, vec!["abc".to_owned()]);
    assert!(values[0].parse::<u16>().is_err());
}

#[test]
fn error_constructor_keeps_the_name() {
    let error = RequiredEnvNotFoundError::new("SOME_VAR");
    assert_eq!(error.key, "SOME_VAR");
}

#[test]
fn schema_entries_keep_declared_content() {
    let entries = vec![
        RawVariableEntry {
            name: "PORT_VAR".to_owned(),
            type_text: "u16".to_owned(),
            description: "listen port".to_owned(),
            default_value: Some("8080".to_owned()),
        },
        RawVariableEntry {
            name: "HOST_VAR".to_owned(),
            type_text: "String".to_owned(),
            description: "host name".to_owned(),
            default_value: None,
        },
    ];
    let decls = EnvVariableDeclarations::from_entries(&entries).expect("both kinds are supported");
    assert_eq!(decls.len(), 2);
    assert_eq!(decls.get(0).name(), "PORT_VAR");
    assert!(matches!(decls.get(0).rust_type(), AcceptedRustType::U16));
    assert_eq!(decls.get(0).description(), "listen port");
    assert_eq!(decls.get(0).default_value(), Some("8080"));
    assert_eq!(decls.get(1).name(), "HOST_VAR");
    assert!(matches!(decls.get(1).rust_type(), AcceptedRustType::Text));
    assert_eq!(decls.get(1).default_value(), None);
}

#[test]
fn first_unsupported_entry_names_the_failure() {
    let entries = vec![
        RawVariableEntry {
            name: "GOOD_VAR".to_owned(),
            type_text: "bool".to_owned(),
            description: "fine".to_owned(),
            default_value: None,
        },
        RawVariableEntry {
            name: "BAD_VAR".to_owned(),
            type_text: "decimal".to_owned(),
            description: "first bad".to_owned(),
            default_value: None,
        },
        RawVariableEntry {
            name: "WORSE_VAR".to_owned(),
            type_text: "complex".to_owned(),
            description: "second bad".to_owned(),
            default_value: None,
        },
    ];
    match EnvVariableDeclarations::from_entries(&entries) {
        Err(SchemaEntryError::UnsupportedType(error)) => assert_eq!(error.type_text, "decimal"),
        other => panic!("expected the first unsupported kind to fail, got {other:?}"),
    }
}

#[test]
fn unsupported_schema_type_fails_the_schema() {
    let entries = vec![RawVariableEntry {
        name: "ODD_VAR".to_owned(),
        type_text: "char".to_owned(),
        description: "odd".to_owned(),
        default_value: None,
    }];
    match EnvVariableDeclarations::from_entries(&entries) {
        Err(SchemaEntryError::UnsupportedType(error)) => {
            assert_eq!(error.type_text, "char");
            assert_eq!(error.message(), "unsupported type 'char'");
        },
        other => panic!("expected an unsupported-kind failure, got {other:?}"),
    }
}

#[test]
fn schema_name_must_be_an_identifier() {
    let entries = vec![RawVariableEntry {
        name: "1BAD".to_owned(),
        type_text: "u16".to_owned(),
        description: "starts with a digit".to_owned(),
        default_value: None,
    }];
    match EnvVariableDeclarations::from_entries(&entries) {
        Err(SchemaEntryError::InvalidName(error)) => {
            assert_eq!(error.name, "1BAD");
            assert_eq!(error.message(), "invalid variable name '1BAD'");
        },
        other => panic!("expected an invalid-name failure, got {other:?}"),
    }
}

#[test]
fn identifier_names_pass_validation() {
    let entries = vec![
        RawVariableEntry {
            name: "_UNDER_START9".to_owned(),
            type_text: "bool".to_owned(),
            description: "fine".to_owned(),
            default_value: None,
        },
        RawVariableEntry {
            name: "lower_case".to_owned(),
            type_text: "i32".to_owned(),
            description: "fine too".to_owned(),
            default_value: None,
        },
    ];
    let decls = EnvVariableDeclarations::from_entries(&entries).expect("both names are identifiers");
    assert_eq!(decls.len(), 2);
}

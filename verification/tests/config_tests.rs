use declarative_env::accepted_rust_type::AcceptedRustType;
use declarative_env::empty_struct::{EmptyStruct, MarkerParseError, Visibility};
use declarative_env::macro_config::{AcceptedFormat, ConfigParseError, MacroConfig, MacroConfigBuilder};
use declarative_env::raw_token::RawToken;

fn ident(s: &str) -> RawToken {
    RawToken::Ident(s.to_owned())
}

fn lit(s: &str) -> RawToken {
    RawToken::Lit(s.to_owned())
}

#[test]
fn path_alone_parses_with_default_format() {
    let tokens = vec![ident("path"), RawToken::Punct('='), lit("./example.hjson")];
    let config = MacroConfig::parse(&tokens).expect("path alone is a complete configuration");
    assert_eq!(config.path(), "./example.hjson");
    assert!(matches!(config.format(), AcceptedFormat::Hjson));
}

#[test]
fn omitted_format_equals_explicit_hjson() {
    let short = vec![ident("path"), RawToken::Punct('='), lit("./example.hjson")];
    let long = vec![
        ident("path"),
        RawToken::Punct('='),
        lit("./example.hjson"),
        RawToken::Punct(','),
        ident("format"),
        RawToken::Punct('='),
        lit("hjson"),
    ];
    let a = MacroConfig::parse(&short).expect("short form parses");
    let b = MacroConfig::parse(&long).expect("long form parses");
    assert_eq!(a.path(), b.path());
    assert!(matches!(a.format(), AcceptedFormat::Hjson));
    assert!(matches!(b.format(), AcceptedFormat::Hjson));
}

#[test]
fn unsupported_format_is_rejected() {
    let tokens = vec![
        ident("path"),
        RawToken::Punct('='),
        lit("./example.hjson"),
        RawToken::Punct(','),
        ident("format"),
        RawToken::Punct('='),
        lit("xml"),
    ];
    match MacroConfig::parse(&tokens) {
        Err(ConfigParseError::InvalidFormat { error, position }) => {
            assert_eq!(error.format, "xml");
            assert_eq!(error.message(), "invalid format 'xml'");
            assert_eq!(position, 6);
        },
        other => panic!("expected the invalid-format failure, got {other:?}"),
    }
}

#[test]
fn unknown_keyword_is_rejected() {
    let tokens = vec![ident("length"), RawToken::Punct('='), lit("5")];
    match MacroConfig::parse(&tokens) {
        Err(ConfigParseError::UnknownOption { error, position }) => {
            assert_eq!(error.keyword, "length");
            assert_eq!(error.message(), "unknown option 'length'");
            assert_eq!(position, 0);
        },
        other => panic!("expected the unknown-option failure, got {other:?}"),
    }
}

#[test]
fn missing_path_is_rejected() {
    let tokens = vec![ident("format"), RawToken::Punct('='), lit("hjson")];
    match MacroConfig::parse(&tokens) {
        Err(ConfigParseError::MissingPath(error)) => {
            assert_eq!(error.keyword, "path");
            assert_eq!(error.message(), "the required configuration 'path' is missing");
        },
        other => panic!("expected the missing-path failure, got {other:?}"),
    }
}

#[test]
fn missing_comma_between_pairs_is_rejected() {
    let tokens = vec![
        ident("path"),
        RawToken::Punct('='),
        lit("./a.hjson"),
        ident("format"),
        RawToken::Punct('='),
        lit("hjson"),
    ];
    assert!(matches!(
        MacroConfig::parse(&tokens),
        Err(ConfigParseError::UnexpectedToken { position: 3 })
    ));
}

#[test]
fn builder_checks_path_only_at_build() {
    let mut builder = MacroConfigBuilder::new();
    assert!(builder.build().is_err());
    builder.set_format(AcceptedFormat::Hjson);
    assert!(builder.build().is_err());
    builder.set_path("./vars.hjson".to_owned());
    let config = builder.build().expect("path was set");
    assert_eq!(config.path(), "./vars.hjson");
    assert!(matches!(config.format(), AcceptedFormat::Hjson));
}

#[test]
fn marker_with_inherited_visibility_parses() {
    let tokens = vec![ident("struct"), ident("MyConfig"), RawToken::Punct(';')];
    let marker = EmptyStruct::parse(&tokens).expect("a bare empty struct parses");
    assert_eq!(marker.struct_name(), "MyConfig");
    assert!(matches!(marker.visibility(), Visibility::Inherited));
}

#[test]
fn marker_with_public_visibility_parses() {
    let tokens = vec![ident("pub"), ident("struct"), ident("Conf"), RawToken::Punct(';')];
    let marker = EmptyStruct::parse(&tokens).expect("a pub empty struct parses");
    assert_eq!(marker.struct_name(), "Conf");
    assert!(matches!(marker.visibility(), Visibility::Public));
}

#[test]
fn marker_with_restricted_visibility_parses() {
    let tokens = vec![
        ident("pub"),
        RawToken::Group("crate".to_owned()),
        ident("struct"),
        ident("Conf"),
        RawToken::Punct(';'),
    ];
    let marker = EmptyStruct::parse(&tokens).expect("a pub(crate) empty struct parses");
    match marker.visibility() {
        Visibility::Restricted(scope) => assert_eq!(scope, "crate"),
        other => panic!("expected a restricted visibility, got {other:?}"),
    }
}

#[test]
fn marker_without_terminator_is_rejected() {
    let tokens = vec![ident("struct"), ident("MyConfig")];
    assert!(matches!(EmptyStruct::parse(&tokens), Err(MarkerParseError::UnexpectedEnd)));
}

#[test]
fn marker_with_trailing_tokens_is_rejected() {
    let tokens = vec![
        ident("struct"),
        ident("MyConfig"),
        RawToken::Punct(';'),
        ident("extra"),
    ];
    assert!(matches!(
        EmptyStruct::parse(&tokens),
        Err(MarkerParseError::UnexpectedToken(3))
    ));
}

#[test]
fn type_strings_parse_exactly() {
    assert!(matches!(
        AcceptedRustType::from_type_str("u16"),
        Some(AcceptedRustType::U16)
    ));
    assert!(matches!(
        AcceptedRustType::from_type_str("String"),
        Some(AcceptedRustType::Text)
    ));
    assert!(matches!(
        AcceptedRustType::from_type_str("f64"),
        Some(AcceptedRustType::F64)
    ));
    assert!(AcceptedRustType::from_type_str("u3").is_none());
    assert!(AcceptedRustType::from_type_str("STRING").is_none());
    assert!(AcceptedRustType::from_type_str("").is_none());
}

#[test]
fn kind_spellings_drive_accessor_shape() {
    assert_eq!(AcceptedRustType::U16.spelling(), "u16");
    assert_eq!(AcceptedRustType::Text.spelling(), "String");
    assert_eq!(AcceptedRustType::Text.to_struct_return_type(), "&str");
    assert_eq!(AcceptedRustType::Bool.to_struct_return_type(), "bool");
    assert_eq!(AcceptedRustType::Text.to_struct_self_caller(), "&self");
    assert_eq!(AcceptedRustType::I128.to_struct_self_caller(), "self");
}

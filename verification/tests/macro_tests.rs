use declarative_env::accepted_rust_type::AcceptedRustType;
use declarative_env::declarative_env_generator::DeclarativeEnvGenerator;
use declarative_env::empty_struct::{EmptyStruct, Visibility};
use declarative_env::variable_declarations::{EnvVariableDeclarations, EnvVariableSpec};

fn my_config_generator() -> DeclarativeEnvGenerator {
    let marker = EmptyStruct {
        visibility: Visibility::Inherited,
        struct_name: "MyConfig".to_owned(),
    };
    let spec = EnvVariableSpec::from_name_and_fields(
        "TEST_VAR".to_owned(),
        AcceptedRustType::U16,
        "x".to_owned(),
        Some("10".to_owned()),
    );
    let decls = EnvVariableDeclarations::new(vec![spec]);
    DeclarativeEnvGenerator::new(marker, decls)
}

#[test]
fn test_config_load() {
    let src = my_config_generator().generate_source();
    assert!(src.contains("struct MyConfig {"));
    assert!(src.contains("TEST_VAR: u16,"));
    assert!(src.contains("}"));
}

#[test]
fn generation_is_deterministic() {
    let first = my_config_generator().generate_source();
    let second = my_config_generator().generate_source();
    assert_eq!(first, second);
}

#[test]
fn fields_follow_schema_order() {
    let marker = EmptyStruct {
        visibility: Visibility::Inherited,
        struct_name: "Ordered".to_owned(),
    };
    let decls = EnvVariableDeclarations::new(vec![
        EnvVariableSpec::from_name_and_fields(
            "ZETA_VAR".to_owned(),
            AcceptedRustType::U8,
            "z".to_owned(),
            None,
        ),
        EnvVariableSpec::from_name_and_fields(
            "ALPHA_VAR".to_owned(),
            AcceptedRustType::Bool,
            "a".to_owned(),
            None,
        ),
    ]);
    let src = DeclarativeEnvGenerator::new(marker, decls).generate_source();
    let zeta = src.find("ZETA_VAR: u8,").expect("first field emitted");
    let alpha = src.find("ALPHA_VAR: bool,").expect("second field emitted");
    assert!(zeta < alpha);
}

#[test]
fn loader_reads_env_with_default_fallback() {
    let src = my_config_generator().generate_source();
    assert!(src.contains(
        "let TEST_VAR = match std::env::var(\"TEST_VAR\") { Ok(v) => v.parse::<u16>()?, \
         Err(std::env::VarError::NotPresent) => \"10\".parse::<u16>()?, \
         Err(e) => return Err(e.into()), }; "
    ));
    assert!(src.contains("pub fn from_env() -> Result<Self, Box<dyn std::error::Error>> {"));
    assert!(src.contains("Ok(MyConfig { TEST_VAR })"));
}

#[test]
fn loader_errors_without_default() {
    let marker = EmptyStruct {
        visibility: Visibility::Public,
        struct_name: "Strict".to_owned(),
    };
    let decls = EnvVariableDeclarations::new(vec![EnvVariableSpec::from_name_and_fields(
        "NEEDED_VAR".to_owned(),
        AcceptedRustType::I64,
        "required".to_owned(),
        None,
    )]);
    let src = DeclarativeEnvGenerator::new(marker, decls).generate_source();
    assert!(src.contains("pub struct Strict {"));
    assert!(src.contains(
        "Err(std::env::VarError::NotPresent) => \
         return Err(StrictRequiredEnvNotFoundError::new(\"NEEDED_VAR\").into())"
    ));
    assert!(src.contains("pub struct StrictRequiredEnvNotFoundError { key: String, }"));
    assert!(src.contains(
        "write!(f, \"failed to load configuration from env: variable {} not found \
         and no default value specified\", self.key)"
    ));
}

#[test]
fn text_accessor_returns_borrowed_view() {
    let marker = EmptyStruct {
        visibility: Visibility::Inherited,
        struct_name: "Texty".to_owned(),
    };
    let decls = EnvVariableDeclarations::new(vec![
        EnvVariableSpec::from_name_and_fields(
            "NAME_VAR".to_owned(),
            AcceptedRustType::Text,
            "t".to_owned(),
            None,
        ),
        EnvVariableSpec::from_name_and_fields(
            "FLAG_VAR".to_owned(),
            AcceptedRustType::Bool,
            "b".to_owned(),
            None,
        ),
    ]);
    let src = DeclarativeEnvGenerator::new(marker, decls).generate_source();
    assert!(src.contains("NAME_VAR: String,"));
    assert!(src.contains("pub fn NAME_VAR(&self) -> &str { &self.NAME_VAR } "));
    assert!(src.contains("pub fn FLAG_VAR(&self) -> bool { self.FLAG_VAR } "));
}

#[test]
fn visibility_is_carried_over() {
    let marker = EmptyStruct {
        visibility: Visibility::Restricted("crate".to_owned()),
        struct_name: "Scoped".to_owned(),
    };
    let decls = EnvVariableDeclarations::new(vec![]);
    let src = DeclarativeEnvGenerator::new(marker, decls).generate_source();
    assert!(src.contains("pub(crate) struct Scoped { }"));
}

#[test]
fn default_literals_are_escaped() {
    let marker = EmptyStruct {
        visibility: Visibility::Inherited,
        struct_name: "Quoted".to_owned(),
    };
    let decls = EnvVariableDeclarations::new(vec![EnvVariableSpec::from_name_and_fields(
        "GREETING_VAR".to_owned(),
        AcceptedRustType::Text,
        "q".to_owned(),
        Some("he\"llo\\there".to_owned()),
    )]);
    let src = DeclarativeEnvGenerator::new(marker, decls).generate_source();
    assert!(src.contains("\"he\\\"llo\\\\there\".parse::<String>()?"));
}

#[test]
fn control_characters_are_escaped() {
    let marker = EmptyStruct {
        visibility: Visibility::Inherited,
        struct_name: "Lines".to_owned(),
    };
    let decls = EnvVariableDeclarations::new(vec![EnvVariableSpec::from_name_and_fields(
        "NOTE_VAR".to_owned(),
        AcceptedRustType::Text,
        "n".to_owned(),
        Some("a\rb\nc\td".to_owned()),
    )]);
    let src = DeclarativeEnvGenerator::new(marker, decls).generate_source();
    assert!(src.contains("\"a\\rb\\nc\\td\".parse::<String>()?"));
    assert!(!src.contains('\r'));
}

#[test]
fn generated_source_lexes_to_tokens() {
    let tokens = my_config_generator().generate().expect("emitted source must lex");
    let rendered = tokens.to_string();
    assert!(rendered.contains("MyConfig"));
    assert!(rendered.contains("from_env"));
}

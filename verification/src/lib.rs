//! Compile-time generator for environment-backed configuration structures.
//!
//! Given a marker declaration (an empty `struct` item) and a schema that maps
//! environment-variable names to a declared kind, a description and an
//! optional default, this library parses the macro's configuration, parses the
//! marker, models the schema, and synthesizes the source of a structure with
//! one typed field per declared variable, a loader that reads the process
//! environment, one accessor per field, and a dedicated missing-variable
//! error type.

pub mod accepted_rust_type;
pub mod declarative_env_generator;
pub mod empty_struct;
pub mod env_resolution;
pub mod macro_config;
pub mod raw_token;
pub mod variable_declarations;

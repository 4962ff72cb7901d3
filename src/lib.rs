//! Format-preserving update of the version field of a Cargo manifest.
pub mod cargo;
pub mod error;
pub mod toml_doc;

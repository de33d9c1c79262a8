//! Errors of the infrastructure.
use vstd::prelude::*;

verus! {

#[verifier::external_type_specification]
#[verifier::external_body]
pub struct ExIoError(std::io::Error);

#[verifier::external_type_specification]
#[verifier::external_body]
pub struct ExTomlDeError(toml::de::Error);

#[verifier::external_type_specification]
#[verifier::external_body]
pub struct ExTomlSerError(toml::ser::Error);

#[verifier::external_type_specification]
#[verifier::external_body]
pub struct ExJsonError(serde_json::Error);

/// A failure outside the domain: reading or writing files, reading stored
/// data, running outside programs.
#[derive(Debug)]
pub enum InfrastructureError {
    Io(std::io::Error),
    TomlDeserialize(toml::de::Error),
    TomlSerialize(toml::ser::Error),
    Json(serde_json::Error),
    ConfigNotFound(String),
    ProjectMetadataNotFound(String),
    InvalidPath(String),
    GitError(String),
    EditorError(String),
    ProcessError(String),
    KeyringError(String),
}

} // verus!

//! Errors of the use cases.
use vstd::prelude::*;
use crate::domain::errors::DomainError;
use crate::infrastructure::errors::InfrastructureError;

verus! {

/// Why a use case failed.
#[derive(Debug)]
pub enum ApplicationError {
    Domain(DomainError),
    Infrastructure(InfrastructureError),
    ProjectNotFound(String),
    ProjectAlreadyExists(String),
    InvalidCommand(String),
    ValidationError(String),
}

} // verus!

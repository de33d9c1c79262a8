//! Use cases: the commands and queries the tool accepts, and what each of
//! them computes before the outside work is done.
pub mod commands;
pub mod dto;
pub mod errors;
pub mod services;

pub use errors::ApplicationError;

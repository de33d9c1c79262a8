//! Inputs of the use cases.
pub mod commands;
pub mod filters;
pub mod queries;

pub use commands::{CreateProjectCommand, UpdateProjectCommand};
pub use filters::ProjectFilters;
pub use queries::{ListProjectsQuery, ProjectQuery};

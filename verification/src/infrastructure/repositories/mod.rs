//! Where projects are stored: one `project.toml` per project directory.
pub mod filesystem_repository;

pub use filesystem_repository::{FileSystemPortfolioRepository, ProjectDto};

//! Infrastructure: configuration, the persistence format of projects, and
//! the plans for the outside programs the tool starts.
pub mod config;
pub mod errors;
pub mod repositories;
pub mod services;

pub use config::{Config, ConfigLoader, ConfigStructure};
pub use errors::InfrastructureError;
pub use repositories::FileSystemPortfolioRepository;

//! The domain: validated identifiers and names, the project entity, the
//! portfolio aggregate, and the errors raised when a business rule is broken.
pub mod errors;
pub mod models;
pub mod value_objects;

pub use errors::DomainError;
pub use models::{Architecture, Language, Portfolio, PortfolioStatistics, Project, Status, Timestamp};
pub use value_objects::{ProjectId, ProjectName};

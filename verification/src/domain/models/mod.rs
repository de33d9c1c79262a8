//! Domain entities: the project, the portfolio, and the enumerations they use.
pub mod enums;
pub mod portfolio;
pub mod project;
pub mod timestamp;

pub use enums::{Architecture, Language, Status};
pub use project::Project;
pub use portfolio::{Portfolio, PortfolioStatistics};
pub use timestamp::Timestamp;

//! What each use case computes.
pub mod portfolio_service;
pub mod project_service;
pub mod documentation_service;

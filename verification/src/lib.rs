//! Portfolio management library.
//!
//! The library models a portfolio of software-architecture projects: validated
//! identifiers and names, languages, architectures, project statuses and their
//! transitions, the portfolio aggregate with its filters and statistics, the
//! persistence format of a project, and the plans that the command-line tool
//! carries out on disk (directory layouts, generated files, launch commands).
//! The modules `models`, `commands` and `config` work on plain project
//! records, and `application::commands` creates projects from them.
#![allow(unused_imports)]

pub mod text;
pub mod domain;
pub mod infrastructure;
pub mod application;
pub mod presentation;
pub mod models;
pub mod commands;
pub mod config;

pub use domain::{Architecture, DomainError, Language, Portfolio, Project, Status};
pub use domain::{ProjectId, ProjectName};
pub use infrastructure::{Config, ConfigStructure};

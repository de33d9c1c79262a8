//! Presentation: the command line, what the tool decides from it, and how
//! listings are laid out.
pub mod cli;
pub mod cli_application;
pub mod commands;
pub mod formatters;

pub use formatters::{CompactFormatter, FormatterFactory, FormatterKind, JsonFormatter, TableFormatter};
pub use cli::{Cli, Commands};

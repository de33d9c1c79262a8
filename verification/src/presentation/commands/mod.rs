//! What the `list` and `new` commands decide before the outside work.
pub mod list;
pub mod new;

//! The commands over plain project records:
//! what each of them decides, before anything is printed, opened or run.
pub mod docs;
pub mod list;
pub mod open;
pub mod run;

//! Commands over plain project records: what they compute.
pub mod new;

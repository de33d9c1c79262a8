//! Value objects: validated text that cannot be built in an invalid form.
pub mod project_id;
pub mod project_name;

pub use project_id::ProjectId;
pub use project_name::ProjectName;

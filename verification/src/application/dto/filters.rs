//! Filters of a project listing.
use vstd::prelude::*;
use crate::domain::models::enums::{Architecture, Language, Status};

verus! {

/// Which projects to list: an absent filter lets every project through.
#[derive(Debug, Clone)]
pub struct ProjectFilters {
    pub language: Option<Language>,
    pub architecture: Option<Architecture>,
    pub status: Option<Status>,
}

impl ProjectFilters {
    /// No filter.
    pub fn new() -> (r: ProjectFilters)
        ensures
            r.language is None,
            r.architecture is None,
            r.status is None,
    {
        ProjectFilters { language: None, architecture: None, status: None }
    }

    /// These filters, and the language.
    pub fn with_language(self, language: Language) -> (r: ProjectFilters)
        ensures
            r.language == Some(language),
            r.architecture == self.architecture,
            r.status == self.status,
    {
        ProjectFilters { language: Some(language), ..self }
    }

    /// These filters, and the architecture.
    pub fn with_architecture(self, architecture: Architecture) -> (r: ProjectFilters)
        ensures
            r.language == self.language,
            r.architecture == Some(architecture),
            r.status == self.status,
    {
        ProjectFilters { architecture: Some(architecture), ..self }
    }

    /// These filters, and the status.
    pub fn with_status(self, status: Status) -> (r: ProjectFilters)
        ensures
            r.language == self.language,
            r.architecture == self.architecture,
            r.status == Some(status),
    {
        ProjectFilters { status: Some(status), ..self }
    }
}

impl Default for ProjectFilters {
    fn default() -> (r: ProjectFilters)
        ensures
            r.language is None,
            r.architecture is None,
            r.status is None,
    {
        ProjectFilters::new()
    }
}

} // verus!

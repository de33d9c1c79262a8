//! Queries over the portfolio.
use vstd::prelude::*;

verus! {

/// A single project, by identifier or name.
#[derive(Debug, Clone)]
pub struct ProjectQuery {
    pub identifier: String,
}

/// A listing of projects, with filters given as the user wrote them.
#[derive(Debug, Clone)]
pub struct ListProjectsQuery {
    pub language: Option<String>,
    pub architecture: Option<String>,
    pub status: Option<String>,
}

impl Default for ListProjectsQuery {
    fn default() -> (r: ListProjectsQuery)
        ensures
            r.language is None,
            r.architecture is None,
            r.status is None,
    {
        ListProjectsQuery { language: None, architecture: None, status: None }
    }
}

} // verus!

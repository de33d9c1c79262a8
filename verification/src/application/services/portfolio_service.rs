//! Listing and statistics of the portfolio.
use vstd::prelude::*;
use crate::application::dto::filters::ProjectFilters;
use crate::application::dto::queries::ListProjectsQuery;
use crate::application::errors::ApplicationError;
use crate::domain::errors::DomainErrorView;
use crate::domain::models::enums::{
    Architecture, Language, Status, language_named, architecture_named, status_named,
    drop_separators,
};
use crate::domain::models::portfolio::{Portfolio, found_by, has_id, project_views, project_ref_views, select};
use crate::domain::models::project::Project;
use crate::text::{owned, unicode_lowercase};

verus! {

/// Reads the filters of a listing query: language, then architecture, then
/// status; the first that does not name a known value is reported.
pub fn parse_filters(query: ListProjectsQuery) -> (r: Result<ProjectFilters, ApplicationError>)
    ensures
        match r {
            Ok(f) => {
                &&& (match query.language {
                    Some(t) => language_named(unicode_lowercase(t@)) matches Some(l) && f.language
                        == Some(l),
                    None => f.language is None,
                })
                &&& (match query.architecture {
                    Some(t) => architecture_named(unicode_lowercase(t@)) matches Some(a)
                        && f.architecture == Some(a),
                    None => f.architecture is None,
                })
                &&& (match query.status {
                    Some(t) => status_named(drop_separators(unicode_lowercase(t@))) matches Some(s)
                        && f.status == Some(s),
                    None => f.status is None,
                })
            },
            Err(e) => e matches ApplicationError::Domain(d) && (match query.language {
                Some(t) if language_named(unicode_lowercase(t@)) is None => d@
                    == DomainErrorView::InvalidLanguage(t@),
                _ => match query.architecture {
                    Some(t) if architecture_named(unicode_lowercase(t@)) is None => d@
                        == DomainErrorView::InvalidArchitecture(t@),
                    _ => match query.status {
                        Some(t) => status_named(drop_separators(unicode_lowercase(t@))) is None
                            && d@ == DomainErrorView::InvalidStatus(t@),
                        None => false,
                    },
                },
            }),
        },
{
    let mut filters = ProjectFilters::new();
    if let Some(lang) = &query.language {
        match Language::parse(lang.as_str()) {
            Ok(l) => filters = filters.with_language(l),
            Err(e) => return Err(ApplicationError::Domain(e)),
        }
    }
    if let Some(arch) = &query.architecture {
        match Architecture::parse(arch.as_str()) {
            Ok(a) => filters = filters.with_architecture(a),
            Err(e) => return Err(ApplicationError::Domain(e)),
        }
    }
    if let Some(st) = &query.status {
        match Status::parse(st.as_str()) {
            Ok(s) => filters = filters.with_status(s),
            Err(e) => return Err(ApplicationError::Domain(e)),
        }
    }
    Ok(filters)
}

/// The project a query names, searched among all projects: the first whose
/// lowercased name or whose identifier equals the query lowercased; when
/// there is none, the query is reported as not found.
pub fn find_in_portfolio(portfolio: &Portfolio, identifier: &str) -> (r: Result<Project, ApplicationError>)
    ensures
        match r {
            Ok(p) => exists|i: int|
                0 <= i < portfolio@.len() && portfolio@[i] == p@ && found_by(
                    portfolio@[i],
                    unicode_lowercase(identifier@),
                ) && forall|j: int|
                    0 <= j < i ==> !found_by(portfolio@[j], unicode_lowercase(identifier@)),
            Err(e) => (e matches ApplicationError::ProjectNotFound(m) && m@ == identifier@)
                && forall|i: int|
                0 <= i < portfolio@.len() ==> !found_by(portfolio@[i], unicode_lowercase(identifier@)),
        },
        has_id(portfolio@, unicode_lowercase(identifier@)) ==> r is Ok,
{
    match portfolio.find_by_name_or_id(identifier) {
        Some(p) => Ok(p.clone()),
        None => Err(ApplicationError::ProjectNotFound(owned(identifier))),
    }
}

/// The filters a listing query names, when each filter it gives names a
/// known value (a language, an architecture, a status, as
/// [`parse_filters`] reads them).
pub open spec fn query_filters(query: ListProjectsQuery) -> Option<
    (Option<Language>, Option<Architecture>, Option<Status>),
> {
    let l = match query.language {
        Some(t) => match language_named(unicode_lowercase(t@)) {
            Some(x) => Some(Some(x)),
            None => None,
        },
        None => Some(None),
    };
    let a = match query.architecture {
        Some(t) => match architecture_named(unicode_lowercase(t@)) {
            Some(x) => Some(Some(x)),
            None => None,
        },
        None => Some(None),
    };
    let s = match query.status {
        Some(t) => match status_named(drop_separators(unicode_lowercase(t@))) {
            Some(x) => Some(Some(x)),
            None => None,
        },
        None => Some(None),
    };
    match (l, a, s) {
        (Some(l), Some(a), Some(s)) => Some((l, a, s)),
        _ => None,
    }
}

/// The projects a listing query selects, in order: its filters are read
/// (see [`parse_filters`]), then applied to all projects; a filter that
/// names no known value is refused as a domain error.
pub fn list_from_portfolio(portfolio: &Portfolio, query: ListProjectsQuery) -> (r: Result<
    Vec<Project>,
    ApplicationError,
>)
    ensures
        match query_filters(query) {
            Some((l, a, s)) => r matches Ok(v) && project_views(v@) == select(portfolio@, l, a, s),
            None => r matches Err(ApplicationError::Domain(_)),
        },
{
    let filters = match parse_filters(query) {
        Ok(f) => f,
        Err(e) => return Err(e),
    };
    let selected = portfolio.apply_filters(filters.language, filters.architecture, filters.status);
    let mut out: Vec<Project> = Vec::new();
    let mut i: usize = 0;
    while i < selected.len()
        invariant
            i <= selected@.len(),
            out@.len() == i,
            project_views(out@) == project_ref_views(selected@.take(i as int)),
        decreases selected@.len() - i,
    {
        let p = selected[i].clone();
        let ghost before = out@;
        out.push(p);
        proof {
            let want = project_ref_views(selected@.take(i + 1));
            assert forall|k: int| 0 <= k < out@.len() implies #[trigger] project_views(out@)[k] == want[k] by {
                if k < i {
                    assert(out@[k] == before[k]);
                    assert(project_views(before)[k] == project_ref_views(selected@.take(i as int))[k]);
                }
            }
            assert(project_views(out@) =~= want);
        }
        i = i + 1;
    }
    proof {
        assert(selected@.take(selected@.len() as int) =~= selected@);
    }
    Ok(out)
}

} // verus!

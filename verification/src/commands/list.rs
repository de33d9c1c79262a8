//! Listing projects: the filtered projects, their rows, and the layout.
use vstd::prelude::*;
use vstd::string::*;
use crate::models::{
    Portfolio, Project, Status, architecture_display, derefs, language_display, opt_view, select,
};
use crate::presentation::formatters::{FormatterKind, formatter_for};
use crate::text::{owned, text_eq};

verus! {

/// How a status is shown in a listing: a symbol, a space, its name.
pub open spec fn status_label(s: Status) -> Seq<char> {
    match s {
        Status::Completed => "✓ Completed"@,
        Status::InProgress => "◐ In Progress"@,
        Status::Planned => "○ Planned"@,
    }
}

/// One row of the project table.
pub struct ProjectRow {
    pub name: String,
    pub language: String,
    pub architecture: String,
    pub status: String,
}

/// How a status is shown in a listing.
pub fn format_status(status: &Status) -> (r: String)
    ensures
        r@ == status_label(*status),
{
    match status {
        Status::Completed => owned("✓ Completed"),
        Status::InProgress => owned("◐ In Progress"),
        Status::Planned => owned("○ Planned"),
    }
}

/// The table row of a project: its name, language, architecture and status.
pub fn project_row(p: &Project) -> (r: ProjectRow)
    ensures
        r.name@ == p.name@,
        r.language@ == language_display(p.language),
        r.architecture@ == architecture_display(p.architecture),
        r.status@ == status_label(p.status),
{
    ProjectRow {
        name: p.name.clone(),
        language: p.language.to_string(),
        architecture: p.architecture.to_string(),
        status: format_status(&p.status),
    }
}

/// The layout a format name asks for, as written: `json`, `compact`, and the
/// table for any other name.
pub fn layout_for(format: &str) -> (r: FormatterKind)
    ensures
        r == formatter_for(format@),
{
    if text_eq(format, "json") {
        FormatterKind::Json
    } else if text_eq(format, "compact") {
        FormatterKind::Compact
    } else {
        FormatterKind::Table
    }
}

/// What a listing shows: the projects that pass the filters, in order, and
/// the layout to show them in.
pub fn execute<'a>(
    portfolio: &'a Portfolio,
    language: Option<String>,
    architecture: Option<String>,
    status: Option<String>,
    format: &str,
) -> (r: (Vec<&'a Project>, FormatterKind))
    ensures
        derefs(r.0@) == select(
            portfolio.projects@,
            opt_view(language),
            opt_view(architecture),
            opt_view(status),
        ),
        r.1 == formatter_for(format@),
{
    let projects = portfolio.apply_filters(language, architecture, status);
    (projects, layout_for(format))
}

} // verus!

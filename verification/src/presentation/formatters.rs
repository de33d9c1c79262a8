//! The layouts of a project listing and the choice among them.
use vstd::prelude::*;
use vstd::string::*;
use crate::domain::models::enums::{
    Status, architecture_display, language_display, status_display, status_symbol,
};
use crate::domain::models::project::Project;
use crate::text::{decimal, decimal_text, owned, text_eq, to_lowercase, unicode_lowercase};

verus! {

/// The layouts of a project listing.
#[derive(Debug, Clone, Copy, PartialEq, Eq, Structural)]
pub enum FormatterKind {
    Json,
    Compact,
    Table,
}

/// The layout a lowercased format name asks for: `json`, `compact`, and the
/// table for any other name.
pub open spec fn formatter_for(t: Seq<char>) -> FormatterKind {
    if t == "json"@ {
        FormatterKind::Json
    } else if t == "compact"@ {
        FormatterKind::Compact
    } else {
        FormatterKind::Table
    }
}

/// Projects as pretty-printed JSON.
pub struct JsonFormatter;

/// One line per project.
pub struct CompactFormatter;

/// A table with a row per project.
pub struct TableFormatter;

/// Chooses the layout of a listing.
pub struct FormatterFactory;

impl FormatterFactory {
    /// The layout that `format` asks for, whatever its case.
    pub fn create(format: &str) -> (r: FormatterKind)
        ensures
            r == formatter_for(unicode_lowercase(format@)),
    {
        let lowered = to_lowercase(format);
        if text_eq(lowered.as_str(), "json") {
            FormatterKind::Json
        } else if text_eq(lowered.as_str(), "compact") {
            FormatterKind::Compact
        } else {
            FormatterKind::Table
        }
    }
}

/// How a status is shown in a listing: its symbol, a space, its name.
pub open spec fn status_label(s: Status) -> Seq<char> {
    status_symbol(s) + " "@ + status_display(s)
}

/// How a status is shown in a listing.
pub fn status_label_text(status: Status) -> (r: String)
    ensures
        r@ == status_label(status),
{
    let mut text = owned(status.symbol());
    text.append(" ");
    text.append(status.display_name());
    text
}

/// What a listing shows when no project passes.
pub fn empty_listing_text() -> (r: &'static str)
    ensures
        r@ == "No projects found."@,
{
    "No projects found."
}

/// One row of the project table.
pub struct TableRow {
    pub id: String,
    pub name: String,
    pub language: String,
    pub architecture: String,
    pub status: String,
}

impl TableFormatter {
    /// The table row of a project: identifier, name, language,
    /// architecture and status label.
    pub fn row(p: &Project) -> (r: TableRow)
        ensures
            r.id@ == p@.id,
            r.name@ == p@.name,
            r.language@ == language_display(p@.language),
            r.architecture@ == architecture_display(p@.architecture),
            r.status@ == status_label(p@.status),
    {
        TableRow {
            id: owned(p.id().as_str()),
            name: owned(p.name().as_str()),
            language: p.language().to_string(),
            architecture: p.architecture().to_string(),
            status: status_label_text(p.status()),
        }
    }
}

impl CompactFormatter {
    /// The line of a project: its name as shown (`shown_name`, which may
    /// carry emphasis), its language in parentheses, a dash, its
    /// architecture, and its status label in brackets.
    pub fn line(p: &Project, shown_name: &str) -> (r: String)
        ensures
            r@ == shown_name@ + " ("@ + language_display(p@.language) + ") - "@
                + architecture_display(p@.architecture) + " ["@ + status_label(p@.status) + "]\n"@,
    {
        let mut text = owned(shown_name);
        text.append(" (");
        text.append(p.language().display_name());
        text.append(") - ");
        text.append(p.architecture().display_name());
        text.append(" [");
        text.append(status_label_text(p.status()).as_str());
        text.append("]\n");
        text
    }
}

/// The line closing a listing: the label (which may carry emphasis), a
/// colon and the number of projects.
pub fn total_line(shown_label: &str, count: usize) -> (r: String)
    ensures
        r@ == shown_label@ + ": "@ + decimal(count as nat),
{
    let mut text = owned(shown_label);
    text.append(": ");
    text.append(decimal_text(count).as_str());
    text
}

} // verus!

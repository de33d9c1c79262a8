//! Opening a project: the project named, and what opens it.
use vstd::prelude::*;
use vstd::string::*;
use crate::models::{Portfolio, Project, found_by};
use crate::text::{concat, owned, unicode_lowercase};

verus! {

/// What opens a project: a terminal in its directory, or an editor on it.
pub enum OpenAction {
    Terminal { path: String },
    Editor { program: String, path: String },
}

/// The message of a project that cannot be found.
pub open spec fn not_found_message(name: Seq<char>) -> Seq<char> {
    "Project not found: "@ + name
}

/// The project named `project_name` (see [`Portfolio::find_by_name`]), or
/// the message that it cannot be found.
pub fn find_project<'a>(portfolio: &'a Portfolio, project_name: &str) -> (r: Result<&'a Project, String>)
    ensures
        match r {
            Ok(p) => exists|i: int|
                0 <= i < portfolio.projects@.len() && portfolio.projects@[i] == *p && found_by(
                    portfolio.projects@[i],
                    unicode_lowercase(project_name@),
                ) && forall|j: int|
                    0 <= j < i ==> !found_by(
                        portfolio.projects@[j],
                        unicode_lowercase(project_name@),
                    ),
            Err(m) => m@ == not_found_message(project_name@) && forall|i: int|
                0 <= i < portfolio.projects@.len() ==> !found_by(
                    portfolio.projects@[i],
                    unicode_lowercase(project_name@),
                ),
        },
{
    match portfolio.find_by_name(project_name) {
        Some(p) => Ok(p),
        None => Err(concat("Project not found: ", project_name)),
    }
}

/// How to open the project named `project_name`: a terminal in its
/// directory when asked, else the given editor, or the default one, on its
/// directory.
pub fn execute(
    portfolio: &Portfolio,
    project_name: &str,
    editor: Option<&str>,
    default_editor: &str,
    terminal: bool,
) -> (r: Result<OpenAction, String>)
    ensures
        match r {
            Ok(action) => exists|i: int|
                0 <= i < portfolio.projects@.len() && found_by(
                    portfolio.projects@[i],
                    unicode_lowercase(project_name@),
                ) && (forall|j: int|
                    0 <= j < i ==> !found_by(
                        portfolio.projects@[j],
                        unicode_lowercase(project_name@),
                    )) && match action {
                    OpenAction::Terminal { path } => terminal && path@ == portfolio.projects@[i].path@,
                    OpenAction::Editor { program, path } => !terminal && path@
                        == portfolio.projects@[i].path@ && program@ == match editor {
                        Some(e) => e@,
                        None => default_editor@,
                    },
                },
            Err(m) => m@ == not_found_message(project_name@) && forall|i: int|
                0 <= i < portfolio.projects@.len() ==> !found_by(
                    portfolio.projects@[i],
                    unicode_lowercase(project_name@),
                ),
        },
{
    let project = match find_project(portfolio, project_name) {
        Ok(p) => p,
        Err(m) => return Err(m),
    };
    if terminal {
        Ok(OpenAction::Terminal { path: project.path.clone() })
    } else {
        let program = match editor {
            Some(e) => owned(e),
            None => owned(default_editor),
        };
        Ok(OpenAction::Editor { program, path: project.path.clone() })
    }
}

} // verus!

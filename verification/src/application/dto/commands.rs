//! Commands that change the portfolio.
use vstd::prelude::*;
use crate::domain::models::enums::{Architecture, Language};
use crate::text::{is_blank, is_blank_text, concat, owned};

verus! {

/// Create a project named `name` under the directory `base_path`.
#[derive(Debug, Clone)]
pub struct CreateProjectCommand {
    pub name: String,
    pub language: Language,
    pub architecture: Architecture,
    pub description: Option<String>,
    pub base_path: String,
}

/// Why a creation command is refused, given whether its base directory
/// exists: a blank name first, then a missing base directory.
pub open spec fn create_command_problem(name: Seq<char>, base_path: Seq<char>, base_path_exists: bool) -> Option<
    Seq<char>,
> {
    if is_blank(name) {
        Some("Project name cannot be empty"@)
    } else if !base_path_exists {
        Some("Base path does not exist: "@ + base_path)
    } else {
        None
    }
}

impl CreateProjectCommand {
    /// A command without description.
    pub fn new(name: String, language: Language, architecture: Architecture, base_path: String) -> (r:
        CreateProjectCommand)
        ensures
            r.name@ == name@,
            r.language == language,
            r.architecture == architecture,
            r.description is None,
            r.base_path@ == base_path@,
    {
        CreateProjectCommand { name, language, architecture, description: None, base_path }
    }

    /// The same command with a description.
    pub fn with_description(self, description: String) -> (r: CreateProjectCommand)
        ensures
            r.name@ == self.name@,
            r.language == self.language,
            r.architecture == self.architecture,
            r.description matches Some(d) && d@ == description@,
            r.base_path@ == self.base_path@,
    {
        CreateProjectCommand { description: Some(description), ..self }
    }

    /// Checks the command, given whether its base directory exists.
    pub fn validate(&self, base_path_exists: bool) -> (r: Result<(), String>)
        ensures
            match r {
                Ok(()) => create_command_problem(self.name@, self.base_path@, base_path_exists) is None,
                Err(m) => create_command_problem(self.name@, self.base_path@, base_path_exists)
                    == Some(m@),
            },
    {
        if is_blank_text(self.name.as_str()) {
            return Err(owned("Project name cannot be empty"));
        }
        if !base_path_exists {
            return Err(concat("Base path does not exist: ", self.base_path.as_str()));
        }
        Ok(())
    }
}

/// Change a project: each given field is applied, in the order of the fields.
#[derive(Debug, Clone)]
pub struct UpdateProjectCommand {
    pub project_id: String,
    pub description: Option<String>,
    pub status: Option<String>,
    pub add_frameworks: Vec<String>,
    pub remove_frameworks: Vec<String>,
    pub gitlab_url: Option<String>,
}

impl UpdateProjectCommand {
    /// A command that changes nothing of the project `project_id`.
    pub fn new(project_id: String) -> (r: UpdateProjectCommand)
        ensures
            r.project_id@ == project_id@,
            r.description is None,
            r.status is None,
            r.add_frameworks@.len() == 0,
            r.remove_frameworks@.len() == 0,
            r.gitlab_url is None,
    {
        UpdateProjectCommand {
            project_id,
            description: None,
            status: None,
            add_frameworks: Vec::new(),
            remove_frameworks: Vec::new(),
            gitlab_url: None,
        }
    }

    /// The same command, also setting the description.
    pub fn with_description(self, description: String) -> (r: UpdateProjectCommand)
        ensures
            r.project_id@ == self.project_id@,
            r.description matches Some(d) && d@ == description@,
            r.status == self.status,
            r.add_frameworks@ == self.add_frameworks@,
            r.remove_frameworks@ == self.remove_frameworks@,
            r.gitlab_url == self.gitlab_url,
    {
        UpdateProjectCommand { description: Some(description), ..self }
    }

    /// The same command, also setting the status.
    pub fn with_status(self, status: String) -> (r: UpdateProjectCommand)
        ensures
            r.project_id@ == self.project_id@,
            r.description == self.description,
            r.status matches Some(s) && s@ == status@,
            r.add_frameworks@ == self.add_frameworks@,
            r.remove_frameworks@ == self.remove_frameworks@,
            r.gitlab_url == self.gitlab_url,
    {
        UpdateProjectCommand { status: Some(status), ..self }
    }
}

impl Default for UpdateProjectCommand {
    fn default() -> (r: UpdateProjectCommand)
        ensures
            r.project_id@.len() == 0,
            r.description is None,
            r.status is None,
            r.add_frameworks@.len() == 0,
            r.remove_frameworks@.len() == 0,
            r.gitlab_url is None,
    {
        UpdateProjectCommand::new(String::new())
    }
}

} // verus!

//! The stored form of a project and where it is stored.
use vstd::prelude::*;
use vstd::string::*;
use vstd::utf8::is_ascii_chars;
use crate::domain::errors::{DomainErrorView, domain_error_text};
use crate::domain::models::enums::{
    Architecture, Language, Status, language_named, architecture_named, status_named,
    drop_separators, language_display, architecture_display, status_variant_name,
    lemma_language_display_parses_back, lemma_architecture_display_parses_back,
    lemma_status_variant_name_parses_back,
};
use crate::domain::models::project::{Project, ProjectView, option_string_view};
use crate::domain::models::timestamp::Timestamp;
use crate::domain::value_objects::{ProjectId, ProjectName};
use crate::domain::value_objects::project_id::{project_id_problem, is_valid_project_id};
use crate::domain::value_objects::project_name::{project_name_problem, is_valid_project_name};
use crate::infrastructure::errors::InfrastructureError;
use crate::text::{
    owned, join_path, path_join, to_lowercase, unicode_lowercase, ascii_lowercase,
    lemma_ascii_lowercase_idempotent, string_views, copy_strings,
};

verus! {

/// The name of the file that holds a project's stored form.
pub open spec fn metadata_file_name() -> Seq<char> {
    "project.toml"@
}

/// Projects stored under a root directory, each in the directory named by its
/// identifier.
pub struct FileSystemPortfolioRepository {
    root_path: String,
}

impl View for FileSystemPortfolioRepository {
    type V = Seq<char>;

    closed spec fn view(&self) -> Seq<char> {
        self.root_path@
    }
}

impl FileSystemPortfolioRepository {
    /// A repository rooted at `root_path`.
    pub fn new(root_path: &str) -> (r: FileSystemPortfolioRepository)
        ensures
            r@ == root_path@,
    {
        FileSystemPortfolioRepository { root_path: owned(root_path) }
    }

    /// The root directory.
    pub fn root_path(&self) -> (r: &str)
        ensures
            r@ == self@,
    {
        self.root_path.as_str()
    }

    /// The directory of the project with identifier `project_id`.
    pub fn project_dir(&self, project_id: &ProjectId) -> (r: String)
        ensures
            r@ == path_join(self@, project_id@),
    {
        join_path(self.root_path.as_str(), project_id.as_str())
    }

    /// The file holding the stored form of the project with identifier
    /// `project_id`.
    pub fn metadata_path(&self, project_id: &ProjectId) -> (r: String)
        ensures
            r@ == path_join(path_join(self@, project_id@), metadata_file_name()),
    {
        let dir = self.project_dir(project_id);
        join_path(dir.as_str(), "project.toml")
    }
}

/// The stored form of a project: every field as text, the language, the
/// architecture and the status by their lowercase names.
pub struct ProjectDto {
    pub id: String,
    pub name: String,
    pub description: String,
    pub language: String,
    pub architecture: String,
    pub path: String,
    pub status: String,
    pub frameworks: Vec<String>,
    pub gitlab_url: Option<String>,
    pub created_at: Timestamp,
    pub updated_at: Timestamp,
}

/// The mathematical model of a [`ProjectDto`].
pub struct ProjectDtoView {
    pub id: Seq<char>,
    pub name: Seq<char>,
    pub description: Seq<char>,
    pub language: Seq<char>,
    pub architecture: Seq<char>,
    pub path: Seq<char>,
    pub status: Seq<char>,
    pub frameworks: Seq<Seq<char>>,
    pub gitlab_url: Option<Seq<char>>,
    pub created_at: (i64, u32),
    pub updated_at: (i64, u32),
}

impl View for ProjectDto {
    type V = ProjectDtoView;

    open spec fn view(&self) -> ProjectDtoView {
        ProjectDtoView {
            id: self.id@,
            name: self.name@,
            description: self.description@,
            language: self.language@,
            architecture: self.architecture@,
            path: self.path@,
            status: self.status@,
            frameworks: string_views(self.frameworks@),
            gitlab_url: option_string_view(self.gitlab_url),
            created_at: self.created_at@,
            updated_at: self.updated_at@,
        }
    }
}

/// The stored form of a project.
pub open spec fn dto_of(v: ProjectView) -> ProjectDtoView {
    ProjectDtoView {
        id: v.id,
        name: v.name,
        description: v.description,
        language: ascii_lowercase(language_display(v.language)),
        architecture: ascii_lowercase(architecture_display(v.architecture)),
        path: v.path,
        status: ascii_lowercase(status_variant_name(v.status)),
        frameworks: v.frameworks,
        gitlab_url: v.gitlab_url,
        created_at: v.created_at,
        updated_at: v.updated_at,
    }
}

/// The first field of a stored form that does not read back, with the
/// message of the error it raises, taking `lower` as the lowercasing of text:
/// identifier, name, language, architecture, status, in this order.
pub open spec fn dto_problem(d: ProjectDtoView, lower: spec_fn(Seq<char>) -> Seq<char>) -> Option<
    Seq<char>,
> {
    if project_id_problem(d.id) is Some {
        Some(domain_error_text(DomainErrorView::InvalidProjectId(project_id_problem(d.id)->0)))
    } else if project_name_problem(d.name) is Some {
        Some(domain_error_text(project_name_problem(d.name)->0))
    } else if language_named(lower(d.language)) is None {
        Some(domain_error_text(DomainErrorView::InvalidLanguage(d.language)))
    } else if architecture_named(lower(d.architecture)) is None {
        Some(domain_error_text(DomainErrorView::InvalidArchitecture(d.architecture)))
    } else if status_named(drop_separators(lower(d.status))) is None {
        Some(domain_error_text(DomainErrorView::InvalidStatus(d.status)))
    } else {
        None
    }
}

/// The project a stored form reads back as, taking `lower` as the
/// lowercasing of text.
pub open spec fn dto_project(d: ProjectDtoView, lower: spec_fn(Seq<char>) -> Seq<char>) -> ProjectView {
    ProjectView {
        id: d.id,
        name: d.name,
        description: d.description,
        language: language_named(lower(d.language))->0,
        architecture: architecture_named(lower(d.architecture))->0,
        path: d.path,
        status: status_named(drop_separators(lower(d.status)))->0,
        frameworks: d.frameworks,
        gitlab_url: d.gitlab_url,
        created_at: d.created_at,
        updated_at: d.updated_at,
    }
}

pub open spec fn unicode_lower() -> spec_fn(Seq<char>) -> Seq<char> {
    |t: Seq<char>| unicode_lowercase(t)
}

pub open spec fn ascii_lower() -> spec_fn(Seq<char>) -> Seq<char> {
    |t: Seq<char>| ascii_lowercase(t)
}

/// The language, architecture and status of a stored form are ASCII text.
pub open spec fn dto_tags_ascii(d: ProjectDtoView) -> bool {
    is_ascii_chars(d.language) && is_ascii_chars(d.architecture) && is_ascii_chars(d.status)
}

impl ProjectDto {
    /// The stored form of `project`.
    pub fn from_domain(project: &Project) -> (r: ProjectDto)
        ensures
            r@ == dto_of(project@),
    {
        proof {
            lemma_language_display_parses_back(project@.language);
            lemma_architecture_display_parses_back(project@.architecture);
            lemma_status_variant_name_parses_back(project@.status);
        }
        let frameworks = copy_strings(project.frameworks());
        proof {
            assert(string_views(frameworks@) =~= project@.frameworks);
        }
        let gitlab_url = match project.gitlab_url() {
            Some(u) => Some(owned(u)),
            None => None,
        };
        ProjectDto {
            id: owned(project.id().as_str()),
            name: owned(project.name().as_str()),
            description: owned(project.description()),
            language: to_lowercase(project.language().display_name()),
            architecture: to_lowercase(project.architecture().display_name()),
            path: owned(project.path()),
            status: to_lowercase(project.status().variant_name()),
            frameworks,
            gitlab_url,
            created_at: project.created_at(),
            updated_at: project.updated_at(),
        }
    }

    /// Reads the project back: the identifier, the name, the language, the
    /// architecture and the status are checked in this order, and the first
    /// that does not read back is reported as an invalid path with the
    /// message of its domain error.
    pub fn into_domain(self) -> (r: Result<Project, InfrastructureError>)
        ensures
            match r {
                Ok(p) => dto_problem(self@, unicode_lower()) is None && p@ == dto_project(
                    self@,
                    unicode_lower(),
                ),
                Err(e) => dto_problem(self@, unicode_lower()) is Some && (e matches InfrastructureError::InvalidPath(
                    m,
                ) && m@ == dto_problem(self@, unicode_lower())->0),
            },
            dto_tags_ascii(self@) ==> ((r is Ok) == (dto_problem(self@, ascii_lower()) is None)),
            dto_tags_ascii(self@) && r is Ok ==> r->Ok_0@ == dto_project(self@, ascii_lower()),
    {
        let ghost d = self@;
        let id = match ProjectId::new(self.id.as_str()) {
            Ok(id) => id,
            Err(e) => return Err(InfrastructureError::InvalidPath(e.message())),
        };
        let name = match ProjectName::new(self.name.as_str()) {
            Ok(n) => n,
            Err(e) => return Err(InfrastructureError::InvalidPath(e.message())),
        };
        let language = match Language::parse(self.language.as_str()) {
            Ok(l) => l,
            Err(e) => return Err(InfrastructureError::InvalidPath(e.message())),
        };
        let architecture = match Architecture::parse(self.architecture.as_str()) {
            Ok(a) => a,
            Err(e) => return Err(InfrastructureError::InvalidPath(e.message())),
        };
        let status = match Status::parse(self.status.as_str()) {
            Ok(s) => s,
            Err(e) => return Err(InfrastructureError::InvalidPath(e.message())),
        };
        let p = Project::with_all_fields(
            id,
            name,
            self.description,
            language,
            architecture,
            self.path,
            status,
            self.frameworks,
            self.gitlab_url,
            self.created_at,
            self.updated_at,
        );
        proof {
            assert(p@ == dto_project(d, unicode_lower()));
        }
        Ok(p)
    }
}

/// What is stored of a project reads back as that project: a project whose
/// identifier is valid is stored with ASCII tags and reads back unchanged
/// (with [`ProjectDto::into_domain`]'s clauses for ASCII tags).
pub proof fn lemma_stored_project_reads_back(v: ProjectView)
    requires
        is_valid_project_id(v.id),
        is_valid_project_name(v.name),
    ensures
        dto_tags_ascii(dto_of(v)),
        dto_problem(dto_of(v), ascii_lower()) is None,
        dto_project(dto_of(v), ascii_lower()) == v,
{
    lemma_language_display_parses_back(v.language);
    lemma_architecture_display_parses_back(v.architecture);
    lemma_status_variant_name_parses_back(v.status);
    lemma_ascii_lowercase_idempotent(language_display(v.language));
    lemma_ascii_lowercase_idempotent(architecture_display(v.architecture));
    lemma_ascii_lowercase_idempotent(status_variant_name(v.status));
    let d = dto_of(v);
    assert((ascii_lower())(d.language) == ascii_lowercase(language_display(v.language)));
    assert((ascii_lower())(d.architecture) == ascii_lowercase(architecture_display(v.architecture)));
    assert((ascii_lower())(d.status) == ascii_lowercase(ascii_lowercase(status_variant_name(v.status))));
    assert(dto_project(d, ascii_lower()) == v);
}

} // verus!

use portfolio_cli::domain::models::timestamp::Timestamp;
use portfolio_cli::application::dto::commands::CreateProjectCommand;
use portfolio_cli::application::services::project_service::{creation_plan, prepare_project, refuse_duplicate};
use portfolio_cli::domain::{Architecture, Language, Project, ProjectName};
use portfolio_cli::infrastructure::repositories::filesystem_repository::{FileSystemPortfolioRepository, ProjectDto};
use portfolio_cli::infrastructure::services::version_control::GitService;

// The time the tests create and change projects at.
fn clock() -> Timestamp {
    Timestamp::from_parts(1_700_000_000, 0).unwrap()
}

// What creating "Test Project" decides: the project, and among the files it
// writes the Cargo manifest and the README in the project's directory.
#[test]
fn test_create_project() {
    let command = CreateProjectCommand::new(
        "Test Project".to_string(),
        Language::Rust,
        Architecture::Hexagonal,
        "/tmp/portfolio".to_string(),
    );
    let project = prepare_project(command, true, &clock()).unwrap();
    assert!(refuse_duplicate(project.id(), false).is_ok());
    assert_eq!(project.name().as_str(), "Test Project");
    assert_eq!(project.language(), Language::Rust);
    let plan = creation_plan(&project);
    assert!(plan.files.iter().any(|f| f.0 == format!("{}/Cargo.toml", project.path())));
    assert!(plan.files.iter().any(|f| f.0 == format!("{}/README.md", project.path())));
}

// A saved project is found again under its identifier and reads back.
#[test]
fn save_and_load_project() {
    let repo = FileSystemPortfolioRepository::new("/tmp/portfolio");
    let project = Project::new(
        ProjectName::new("Test Project").unwrap(),
        Language::Rust,
        Architecture::Hexagonal,
        "/tmp/portfolio/test-project",
        &clock(),
    );
    assert_eq!(repo.metadata_path(project.id()), "/tmp/portfolio/test-project/project.toml");
    let loaded = ProjectDto::from_domain(&project).into_domain();
    assert!(loaded.is_ok());
    assert_eq!(loaded.unwrap().name().as_str(), "Test Project");
}

// Starting a repository runs `git init` in the directory, and a directory
// is a repository when it holds `.git`.
#[test]
fn test_git_init() {
    let git = GitService::new();
    assert_eq!(git.init_arguments(), vec!["init"]);
    assert_eq!(git.git_dir("/tmp/portfolio/test-project"), "/tmp/portfolio/test-project/.git");
}

use portfolio_cli::domain::models::timestamp::Timestamp;
use portfolio_cli::domain::models::portfolio::Portfolio;
use portfolio_cli::domain::{Architecture, Language, Project, ProjectName, Status};

// The time the tests create and change projects at.
fn clock() -> Timestamp {
    Timestamp::from_parts(1_700_000_000, 0).unwrap()
}

#[test]
fn language_from_str() {
    assert_eq!("kotlin".parse::<Language>().unwrap(), Language::Kotlin);
    assert_eq!("java".parse::<Language>().unwrap(), Language::Java);
    assert_eq!("rust".parse::<Language>().unwrap(), Language::Rust);
    assert!("python".parse::<Language>().is_err());
}

#[test]
fn architecture_from_str() {
    assert_eq!(
        "hexagonal".parse::<Architecture>().unwrap(),
        Architecture::Hexagonal
    );
    assert!("unknown".parse::<Architecture>().is_err());
}

#[test]
fn status_transitions() {
    assert!(Status::Planned.can_transition_to(Status::InProgress));
    assert!(Status::InProgress.can_transition_to(Status::Completed));
    assert!(!Status::Planned.can_transition_to(Status::Completed));
}

fn sample_project() -> Project {
    Project::new(
        ProjectName::new("Test Project").unwrap(),
        Language::Rust,
        Architecture::Hexagonal,
        "/test",
        &clock(),
    )
}

#[test]
fn create_new_project() {
    let project = sample_project();
    assert_eq!(project.id().as_str(), "test-project");
    assert_eq!(project.name().as_str(), "Test Project");
    assert_eq!(project.language(), Language::Rust);
    assert_eq!(project.status(), Status::Planned);
}

#[test]
fn status_transition_validation() {
    let mut project = sample_project();

    // Valid transition
    assert!(project.set_status(Status::InProgress, &clock()).is_ok());
    assert_eq!(project.status(), Status::InProgress);

    // Valid transition
    assert!(project.set_status(Status::Completed, &clock()).is_ok());

    // Invalid transition (Completed -> Planned not allowed)
    assert!(project.set_status(Status::Planned, &clock()).is_err());
}

#[test]
fn add_frameworks() {
    let mut project = sample_project();

    assert!(project.add_framework("tokio", &clock()).is_ok());
    assert!(project.add_framework("serde", &clock()).is_ok());
    assert_eq!(project.frameworks().len(), 2);

    // Duplicate should fail
    assert!(project.add_framework("tokio", &clock()).is_err());

    // Empty should fail
    assert!(project.add_framework("", &clock()).is_err());
}

#[test]
fn query_methods() {
    let mut project = sample_project();

    assert!(project.is_planned());
    assert!(!project.is_completed());

    project.force_set_status(Status::InProgress, &clock());
    assert!(project.is_in_progress());

    project.add_framework("tokio", &clock()).unwrap();
    assert!(project.uses_framework("tokio"));
    assert!(!project.uses_framework("async-std"));
}

fn portfolio_project(name: &str, lang: Language, status: Status) -> Project {
    let mut project = Project::new(
        ProjectName::new(name).unwrap(),
        lang,
        Architecture::Hexagonal,
        "/test",
        &clock(),
    );
    project.force_set_status(status, &clock());
    project
}

#[test]
fn add_and_find_projects() {
    let mut portfolio = Portfolio::new();

    let project1 = portfolio_project("Project 1", Language::Rust, Status::InProgress);
    let id1 = project1.id().clone();

    assert!(portfolio.add_project(project1).is_ok());
    assert_eq!(portfolio.len(), 1);

    let found = portfolio.find_by_id(&id1);
    assert!(found.is_some());
    assert_eq!(found.unwrap().name().as_str(), "Project 1");
}

#[test]
fn duplicate_project_rejected() {
    let mut portfolio = Portfolio::new();

    let project1 = portfolio_project("Project", Language::Rust, Status::Planned);
    let project2 = portfolio_project("Project", Language::Rust, Status::Planned);

    assert!(portfolio.add_project(project1).is_ok());
    assert!(portfolio.add_project(project2).is_err());
}

#[test]
fn filter_projects() {
    let mut portfolio = Portfolio::new();

    portfolio
        .add_project(portfolio_project("Rust 1", Language::Rust, Status::Completed))
        .unwrap();
    portfolio
        .add_project(portfolio_project("Java 1", Language::Java, Status::Completed))
        .unwrap();
    portfolio
        .add_project(portfolio_project("Rust 2", Language::Rust, Status::InProgress))
        .unwrap();

    let rust_projects = portfolio.filter_by_language(Language::Rust);
    assert_eq!(rust_projects.len(), 2);

    let completed = portfolio.filter_by_status(Status::Completed);
    assert_eq!(completed.len(), 2);
}

/// The completion percentage, written with floating point where the library
/// holds only integers.
fn completion_percentage(completed: usize, total: usize) -> f64 {
    if total == 0 {
        return 0.0;
    }
    (completed as f64 / total as f64) * 100.0
}

#[test]
fn portfolio_statistics() {
    let mut portfolio = Portfolio::new();

    portfolio
        .add_project(portfolio_project("Rust 1", Language::Rust, Status::Completed))
        .unwrap();
    portfolio
        .add_project(portfolio_project("Java 1", Language::Java, Status::Completed))
        .unwrap();
    portfolio
        .add_project(portfolio_project("Rust 2", Language::Rust, Status::InProgress))
        .unwrap();

    let stats = portfolio.statistics();
    assert_eq!(stats.total_projects, 3);
    assert_eq!(stats.completed_count, 2);
    assert_eq!(stats.in_progress_count, 1);
    assert_eq!(stats.most_used_language(), Some(Language::Rust));
    assert!((completion_percentage(stats.completed_count, stats.total_projects) - 66.67).abs() < 0.1);
}

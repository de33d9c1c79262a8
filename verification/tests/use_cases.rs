use portfolio_cli::domain::models::timestamp::Timestamp;
use portfolio_cli::application::dto::commands::{CreateProjectCommand, UpdateProjectCommand};
use portfolio_cli::application::dto::queries::ListProjectsQuery;
use portfolio_cli::application::errors::ApplicationError;
use portfolio_cli::application::services::documentation_service::{join_strings, DocumentationService};
use portfolio_cli::application::services::portfolio_service::{find_in_portfolio, list_from_portfolio, parse_filters};
use portfolio_cli::application::services::project_service::{
    apply_update, creation_plan, prepare_project, refuse_duplicate, refuse_missing, update_found,
};
use portfolio_cli::domain::models::portfolio::Portfolio;
use portfolio_cli::domain::{Architecture, DomainError, Language, Project, ProjectId, ProjectName, Status};

// The time the tests create and change projects at.
fn clock() -> Timestamp {
    Timestamp::from_parts(1_700_000_000, 0).unwrap()
}

fn project(name: &str, language: Language, architecture: Architecture) -> Project {
    let n = ProjectName::new(name).unwrap();
    let id = n.to_id();
    Project::new(n, language, architecture, &format!("/work/{}", id.as_str()), &clock())
}

fn portfolio() -> Portfolio {
    let mut p = Portfolio::new();
    p.add_project(project("Order Service", Language::Kotlin, Architecture::Hexagonal)).unwrap();
    p.add_project(project("Billing", Language::Java, Architecture::Layered)).unwrap();
    p.add_project(project("Ingest", Language::Rust, Architecture::Pipeline)).unwrap();
    p
}

fn query(language: Option<&str>, architecture: Option<&str>, status: Option<&str>) -> ListProjectsQuery {
    ListProjectsQuery {
        language: language.map(|s| s.to_string()),
        architecture: architecture.map(|s| s.to_string()),
        status: status.map(|s| s.to_string()),
    }
}

#[test]
fn query_filters_are_read() {
    let f = parse_filters(query(Some("KT"), Some("n-tier"), Some("in progress"))).unwrap();
    assert_eq!(f.language, Some(Language::Kotlin));
    assert_eq!(f.architecture, Some(Architecture::Layered));
    assert_eq!(f.status, Some(Status::InProgress));
    let f = parse_filters(ListProjectsQuery::default()).unwrap();
    assert_eq!(f.language, None);
    match parse_filters(query(Some("cobol"), Some("blob"), None)) {
        Err(ApplicationError::Domain(DomainError::InvalidLanguage(t))) => assert_eq!(t, "cobol"),
        other => panic!("unexpected {:?}", other),
    }
    match parse_filters(query(None, Some("blob"), Some("x"))) {
        Err(ApplicationError::Domain(DomainError::InvalidArchitecture(t))) => assert_eq!(t, "blob"),
        other => panic!("unexpected {:?}", other),
    }
    match parse_filters(query(None, None, Some("done"))) {
        Err(ApplicationError::Domain(DomainError::InvalidStatus(t))) => assert_eq!(t, "done"),
        other => panic!("unexpected {:?}", other),
    }
}

#[test]
fn project_found_by_name_or_identifier() {
    let p = portfolio();
    assert_eq!(find_in_portfolio(&p, "ORDER SERVICE").unwrap().id().as_str(), "order-service");
    assert_eq!(find_in_portfolio(&p, "billing").unwrap().name().as_str(), "Billing");
    match find_in_portfolio(&p, "nothing") {
        Err(ApplicationError::ProjectNotFound(m)) => assert_eq!(m, "nothing"),
        other => panic!("unexpected {:?}", other),
    }
}

#[test]
fn listing_selects_in_order() {
    let p = portfolio();
    let all = list_from_portfolio(&p, ListProjectsQuery::default()).unwrap();
    assert_eq!(all.len(), 3);
    assert_eq!(all[2].id().as_str(), "ingest");
    let rust = list_from_portfolio(&p, query(Some("rs"), None, None)).unwrap();
    assert_eq!(rust.len(), 1);
    assert_eq!(rust[0].id().as_str(), "ingest");
    let planned = list_from_portfolio(&p, query(None, None, Some("PLANNED"))).unwrap();
    assert_eq!(planned.len(), 3);
    assert!(list_from_portfolio(&p, query(None, None, Some("completed"))).unwrap().is_empty());
    assert!(matches!(list_from_portfolio(&p, query(Some("go"), None, None)), Err(ApplicationError::Domain(_))));
}

#[test]
fn creation_prepared_from_command() {
    let cmd = CreateProjectCommand::new("My New App".to_string(), Language::Java, Architecture::Onion, "/base".to_string())
        .with_description("A demo".to_string());
    let p = prepare_project(cmd, true, &clock()).unwrap();
    assert_eq!(p.id().as_str(), "my-new-app");
    assert_eq!(p.path(), "/base/my-new-app");
    assert_eq!(p.description(), "A demo");
    assert_eq!(p.status(), Status::Planned);
    let blank = CreateProjectCommand::new("   ".to_string(), Language::Java, Architecture::Onion, "/base".to_string());
    assert!(matches!(prepare_project(blank, true, &clock()), Err(ApplicationError::ValidationError(_))));
    let missing_base = CreateProjectCommand::new("App".to_string(), Language::Java, Architecture::Onion, "/none".to_string());
    assert!(matches!(prepare_project(missing_base, false, &clock()), Err(ApplicationError::ValidationError(_))));
    let bad = CreateProjectCommand::new("bad/name".to_string(), Language::Java, Architecture::Onion, "/base".to_string());
    assert!(matches!(prepare_project(bad, true, &clock()), Err(ApplicationError::Domain(_))));
}

#[test]
fn duplicates_and_missing_projects_refused() {
    let id = ProjectId::new("demo").unwrap();
    assert!(refuse_duplicate(&id, false).is_ok());
    match refuse_duplicate(&id, true) {
        Err(ApplicationError::ProjectAlreadyExists(m)) => assert_eq!(m, "demo"),
        other => panic!("unexpected {:?}", other),
    }
    assert!(refuse_missing("demo", true).is_ok());
    match refuse_missing("Demo", false) {
        Err(ApplicationError::ProjectNotFound(m)) => assert_eq!(m, "Demo"),
        other => panic!("unexpected {:?}", other),
    }
}

#[test]
fn creation_plan_lists_what_is_written() {
    let p = project("Ingest", Language::Rust, Architecture::Microkernel);
    let plan = creation_plan(&p);
    assert_eq!(plan.directories, vec!["/work/ingest", "/work/ingest/src/core", "/work/ingest/src/plugins", "/work/ingest/docs"]);
    let paths: Vec<&str> = plan.files.iter().map(|f| f.0.as_str()).collect();
    assert_eq!(paths, vec!["/work/ingest/Cargo.toml", "/work/ingest/README.md", "/work/ingest/ARCHITECTURE.md"]);
    assert!(plan.files[2].1.contains("## Structure\n\n- `core`\n- `plugins`\n\n"));
    assert_eq!(plan.gitignore, ("/work/ingest/.gitignore".to_string(), "target/\n**/*.rs.bk\nCargo.lock\n".to_string()));
}

#[test]
fn updates_apply_in_order() {
    let p = project("Billing", Language::Java, Architecture::Layered);
    let cmd = UpdateProjectCommand {
        project_id: "billing".to_string(),
        description: Some("Invoices".to_string()),
        status: Some("in-progress".to_string()),
        add_frameworks: vec!["spring".to_string(), "jpa".to_string()],
        remove_frameworks: vec!["spring".to_string()],
        gitlab_url: Some("https://gitlab.com/x/billing".to_string()),
    };
    let q = apply_update(p.clone(), cmd.clone(), &clock()).unwrap();
    assert_eq!(q.description(), "Invoices");
    assert_eq!(q.status(), Status::InProgress);
    assert_eq!(q.frameworks(), &["jpa".to_string()]);
    assert_eq!(q.gitlab_url(), Some("https://gitlab.com/x/billing"));
    let refused = UpdateProjectCommand::new("billing".to_string()).with_status("completed".to_string());
    assert!(matches!(apply_update(p.clone(), refused, &clock()), Err(ApplicationError::Domain(DomainError::InvalidStatusTransition { .. }))));
    let dup = UpdateProjectCommand { add_frameworks: vec!["a".to_string(), "a".to_string()], ..UpdateProjectCommand::new("billing".to_string()) };
    assert!(matches!(apply_update(p.clone(), dup, &clock()), Err(ApplicationError::Domain(DomainError::DuplicateFramework(_)))));
    match update_found(None, cmd.clone(), &clock()) {
        Err(ApplicationError::ProjectNotFound(m)) => assert_eq!(m, "billing"),
        other => panic!("unexpected {:?}", other),
    }
    assert!(update_found(Some(p), cmd, &clock()).is_ok());
}

#[test]
fn joining_texts() {
    assert_eq!(join_strings(&[], ", "), "");
    assert_eq!(join_strings(&["a".to_string()], ", "), "a");
    assert_eq!(join_strings(&["a".to_string(), "b".to_string(), "c".to_string()], ", "), "a, b, c");
}

#[test]
fn portfolio_document_rendered() {
    let p = portfolio();
    let doc = DocumentationService::new().render(&p, false, "0.0");
    assert!(doc.starts_with("# Architecture Portfolio\n\n## Projects Overview\n\n**Total Projects**: 3\n**Completion Rate**: 0.0%\n\n### Projects by Status\n\n- Planned: 3\n- In Progress: 0\n- Completed: 0\n- Archived: 0\n\n---\n\n"));
    assert!(doc.contains("### Billing\n\n- **ID**: `billing`\n- **Language**: Java\n- **Architecture**: Layered\n- **Status**: ○ Planned\n\n---\n\n"));
    let empty = DocumentationService::new().render(&Portfolio::new(), true, "0.0");
    assert!(empty.ends_with("- Archived: 0\n\n---\n\n"));
}

#[test]
fn update_time_follows_what_changes() {
    let later = Timestamp::from_parts(1_700_000_500, 0).unwrap();
    let p = project("Billing", Language::Java, Architecture::Layered);
    let unchanged = apply_update(p.clone(), UpdateProjectCommand::new("billing".to_string()), &later).unwrap();
    assert_eq!(unchanged.updated_at(), clock());
    let absent = UpdateProjectCommand { remove_frameworks: vec!["x".to_string()], ..UpdateProjectCommand::new("billing".to_string()) };
    assert_eq!(apply_update(p.clone(), absent, &later).unwrap().updated_at(), clock());
    let described = UpdateProjectCommand::new("billing".to_string()).with_description("d".to_string());
    assert_eq!(apply_update(p, described, &later).unwrap().updated_at(), later);
}

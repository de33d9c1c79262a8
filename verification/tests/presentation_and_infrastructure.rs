use portfolio_cli::application::dto::commands::UpdateProjectCommand;
use portfolio_cli::domain::models::portfolio::Portfolio;
use portfolio_cli::domain::models::timestamp::Timestamp;
use portfolio_cli::domain::{Architecture, DomainError, Language, Project, ProjectId, ProjectName, Status};
use portfolio_cli::infrastructure::config::{Config, ConfigLoader, ConfigStructure};
use portfolio_cli::infrastructure::errors::InfrastructureError;
use portfolio_cli::infrastructure::repositories::filesystem_repository::{FileSystemPortfolioRepository, ProjectDto};
use portfolio_cli::infrastructure::services::editor::{components_of, starts_with_path, SystemEditorService};
use portfolio_cli::infrastructure::services::process_runner::{RunConfig, SystemProcessRunner};
use portfolio_cli::infrastructure::services::version_control::GitService;
use portfolio_cli::presentation::cli::{Cli, Commands};
use portfolio_cli::presentation::cli_application::{deletion_confirmed, stats_body, update_command, CliApplication};
use portfolio_cli::presentation::commands::list::{list_query, stats_summary};
use portfolio_cli::presentation::commands::new::creation_command;
use portfolio_cli::presentation::formatters::{status_label_text, total_line, CompactFormatter, TableFormatter};
use portfolio_cli::presentation::{FormatterFactory, FormatterKind};
use portfolio_cli::text::{decimal_text, is_blank_text, join_path};

// The time the tests create and change projects at.
fn clock() -> Timestamp {
    Timestamp::from_parts(1_700_000_000, 0).unwrap()
}

fn project(name: &str, language: Language, architecture: Architecture) -> Project {
    let n = ProjectName::new(name).unwrap();
    let id = n.to_id();
    Project::new(n, language, architecture, &format!("/work/{}", id.as_str()), &clock())
}

fn app(command: Commands, verbose: bool) -> CliApplication {
    CliApplication::from_cli(Cli { command, config: None, verbose })
}

#[test]
fn init_is_recognised() {
    assert_eq!(app(Commands::Init { force: true }, false).init_request(), Some(true));
    assert_eq!(app(Commands::Init { force: false }, false).init_request(), Some(false));
    assert_eq!(app(Commands::Stats, false).init_request(), None);
}

#[test]
fn logging_follows_verbosity() {
    assert_eq!(app(Commands::Stats, true).tracing_filter(), "portfolio_cli=debug,info");
    assert_eq!(app(Commands::Stats, false).tracing_filter(), "portfolio_cli=warn");
}

#[test]
fn deletion_answers() {
    assert!(deletion_confirmed("y"));
    assert!(deletion_confirmed("Y\n"));
    assert!(deletion_confirmed("  y  "));
    assert!(!deletion_confirmed(""));
    assert!(!deletion_confirmed("\n"));
    assert!(!deletion_confirmed("yes"));
    assert!(!deletion_confirmed("n"));
    assert!(!deletion_confirmed("y y"));
}

#[test]
fn update_command_from_fields() {
    let c: UpdateProjectCommand = update_command(
        "demo".to_string(),
        Some("d".to_string()),
        None,
        vec!["a".to_string()],
        vec![],
        Some("u".to_string()),
    );
    assert_eq!(c.project_id, "demo");
    assert_eq!(c.description.as_deref(), Some("d"));
    assert_eq!(c.status, None);
    assert_eq!(c.add_frameworks, vec!["a".to_string()]);
    assert!(c.remove_frameworks.is_empty());
    assert_eq!(c.gitlab_url.as_deref(), Some("u"));
}

#[test]
fn statistics_shown() {
    let mut p = Portfolio::new();
    p.add_project(project("A", Language::Rust, Architecture::Onion)).unwrap();
    p.add_project(project("B", Language::Rust, Architecture::Layered)).unwrap();
    p.add_project(project("C", Language::Java, Architecture::Layered)).unwrap();
    let stats = p.statistics();
    let body = stats_body(&stats, "0.0");
    assert!(body.starts_with("Total Projects: 3\n\nBy Status:\n  Completed: 0 (0.0%)\n  In Progress: 0\n  Planned: 3\n"));
    assert!(!body.contains("Archived"));
    assert!(body.contains("\nMost Used Language: Rust\n"));
    assert!(body.ends_with("Most Used Architecture: Layered\n"));
    let empty = stats_body(&Portfolio::new().statistics(), "0.0");
    assert_eq!(empty, "Total Projects: 0\n\nBy Status:\n  Completed: 0 (0.0%)\n  In Progress: 0\n  Planned: 0\n");
    assert_eq!(
        stats_summary(&stats, "0.0"),
        "Total Projects: 3\nCompleted: 0 (0.0%)\nIn Progress: 0\nPlanned: 3\n\n"
    );
}

#[test]
fn list_query_keeps_filters() {
    let q = list_query(Some("rust".to_string()), None, Some("planned".to_string()));
    assert_eq!(q.language.as_deref(), Some("rust"));
    assert_eq!(q.architecture, None);
    assert_eq!(q.status.as_deref(), Some("planned"));
}

#[test]
fn new_command_reads_names() {
    let c = creation_command("/root".to_string(), "App".to_string(), "RS".to_string(), "plug-in".to_string(), Some("d".to_string())).unwrap();
    assert_eq!(c.language, Language::Rust);
    assert_eq!(c.architecture, Architecture::Microkernel);
    assert_eq!(c.base_path, "/root");
    assert_eq!(c.description.as_deref(), Some("d"));
    assert_eq!(
        creation_command("/root".to_string(), "App".to_string(), "go".to_string(), "x".to_string(), None).err(),
        Some(DomainError::InvalidLanguage("go".to_string()))
    );
    assert_eq!(
        creation_command("/root".to_string(), "App".to_string(), "java".to_string(), "x".to_string(), None).err(),
        Some(DomainError::InvalidArchitecture("x".to_string()))
    );
}

#[test]
fn listing_layouts() {
    assert_eq!(FormatterFactory::create("JSON"), FormatterKind::Json);
    assert_eq!(FormatterFactory::create("Compact"), FormatterKind::Compact);
    assert_eq!(FormatterFactory::create("table"), FormatterKind::Table);
    assert_eq!(FormatterFactory::create("anything"), FormatterKind::Table);
    assert_eq!(status_label_text(Status::Archived), "📦 Archived");
    let p = project("Order Service", Language::Kotlin, Architecture::Hexagonal);
    let row = TableFormatter::row(&p);
    assert_eq!(row.id, "order-service");
    assert_eq!(row.name, "Order Service");
    assert_eq!(row.language, "Kotlin");
    assert_eq!(row.architecture, "Hexagonal");
    assert_eq!(row.status, "○ Planned");
    assert_eq!(CompactFormatter::line(&p, "Order Service"), "Order Service (Kotlin) - Hexagonal [○ Planned]\n");
    assert_eq!(total_line("Total", 12), "Total: 12");
}

#[test]
fn configuration_defaults_and_paths() {
    let c = ConfigStructure::from_environment(Some("/home/me"), None);
    assert_eq!(c.portfolio_root, "/home/me");
    assert_eq!(c.gitlab_url, "https://gitlab.com");
    assert_eq!(c.templates_dir, "/home/me/templates");
    assert_eq!(c.default_editor, "code");
    assert_eq!(c.cache_dir.as_deref(), Some("/home/me/.cache"));
    let d = Config::from_environment(None, Some("t"), Some("vim"));
    assert_eq!(d.portfolio_root, ".");
    assert_eq!(d.templates_dir, "./templates");
    assert_eq!(d.default_editor, "vim");
    assert_eq!(d.gitlab_token.as_deref(), Some("t"));
    assert!(c.validate(true).is_ok());
    assert_eq!(c.validate(false).err().unwrap(), "Portfolio root does not exist: /home/me");
    assert_eq!(ConfigLoader::resolve_config_path(Some("x.toml"), Some("/w"), true, Some("/cfg")), "x.toml");
    assert_eq!(ConfigLoader::resolve_config_path(None, Some("/w"), true, Some("/cfg")), "/w/portfolio.toml");
    assert_eq!(ConfigLoader::resolve_config_path(None, Some("/w"), false, Some("/cfg")), "/cfg/portfolio-cli/config.toml");
    assert_eq!(ConfigLoader::default_config_path(None, false, None), "portfolio.toml");
    assert!(ConfigLoader::check_init("/c/p.toml", true, true).is_ok());
    match ConfigLoader::check_init("/c/p.toml", true, false) {
        Err(InfrastructureError::ConfigNotFound(m)) => assert_eq!(m, "Configuration file already exists at: /c/p.toml"),
        other => panic!("unexpected {:?}", other),
    }
}

#[test]
fn stored_project_reads_back() {
    let mut p = project("Order Service", Language::Kotlin, Architecture::Hexagonal);
    p.set_description("Orders", &clock());
    p.add_framework("spring", &clock()).unwrap();
    p.set_gitlab_url("https://gitlab.com/o", &clock());
    p.set_status(Status::InProgress, &clock()).unwrap();
    let dto = ProjectDto::from_domain(&p);
    assert_eq!(dto.language, "kotlin");
    assert_eq!(dto.architecture, "hexagonal");
    assert_eq!(dto.status, "inprogress");
    let back = dto.into_domain().unwrap();
    assert_eq!(back.id().as_str(), "order-service");
    assert_eq!(back.name().as_str(), "Order Service");
    assert_eq!(back.description(), "Orders");
    assert_eq!(back.language(), Language::Kotlin);
    assert_eq!(back.status(), Status::InProgress);
    assert_eq!(back.frameworks(), &["spring".to_string()]);
    assert_eq!(back.gitlab_url(), Some("https://gitlab.com/o"));
    assert_eq!(back.created_at(), p.created_at());
    let mut bad = ProjectDto::from_domain(&p);
    bad.language = "cobol".to_string();
    assert!(matches!(bad.into_domain(), Err(InfrastructureError::InvalidPath(_))));
}

#[test]
fn repository_paths() {
    let repo = FileSystemPortfolioRepository::new("/portfolio");
    let id = ProjectId::new("demo").unwrap();
    assert_eq!(repo.root_path(), "/portfolio");
    assert_eq!(repo.project_dir(&id), "/portfolio/demo");
    assert_eq!(repo.metadata_path(&id), "/portfolio/demo/project.toml");
}

#[test]
fn editor_root_checks() {
    assert_eq!(components_of("/a//b/./c/"), vec!["/", "a", "b", "c"]);
    assert!(starts_with_path("/a/b/c", "/a/b"));
    assert!(!starts_with_path("/a/bc", "/a/b"));
    let open = SystemEditorService::new();
    assert!(open.check_canonical_path("/anywhere").is_ok());
    let limited = SystemEditorService::with_allowed_root("/portfolio");
    assert!(limited.check_canonical_path("/portfolio/demo").is_ok());
    match limited.check_canonical_path("/etc") {
        Err(InfrastructureError::InvalidPath(m)) => assert_eq!(m, "Path /etc is outside allowed root /portfolio"),
        other => panic!("unexpected {:?}", other),
    }
}

#[test]
fn launch_plans() {
    let runner = SystemProcessRunner::new();
    let cfg = RunConfig { port: Some(9000), profile: Some("test".to_string()), debug: false };
    let plan = runner.plan("/p", Language::Java, true, false, &cfg).unwrap();
    assert_eq!(plan.program, "./gradlew");
    assert_eq!(plan.env, vec![("SERVER_PORT".to_string(), "9000".to_string()), ("SPRING_PROFILES_ACTIVE".to_string(), "test".to_string())]);
    assert!(runner.plan("/p", Language::Kotlin, false, false, &cfg).is_err());
    let plan = runner.rust_plan("/p", &RunConfig { port: None, profile: None, debug: true });
    assert_eq!(plan.args, vec!["run"]);
    assert!(plan.env.is_empty());
    assert_eq!(runner.gradle_wrapper_path("/p"), "/p/gradlew");
}

#[test]
fn version_control_arguments() {
    let git = GitService::new();
    assert_eq!(git.init_arguments(), vec!["init"]);
    assert_eq!(git.add_arguments(&["."]), vec!["add", "."]);
    assert_eq!(git.commit_arguments("Initial commit"), vec!["commit", "-m", "Initial commit"]);
    assert_eq!(git.git_dir("/p"), "/p/.git");
}

#[test]
fn calendar_arithmetic() {
    let a = Timestamp::from_parts(0, 0).unwrap();
    let b = Timestamp::from_parts(86_400 * 3 + 5, 0).unwrap();
    assert_eq!(b.days_since(&a), 3);
    assert_eq!(a.days_since(&b), -3);
    assert_eq!(a.date_text(), "1970-01-01");
    assert_eq!(b.date_text(), "1970-01-04");
    assert!(Timestamp::from_parts(i64::MAX, 0).is_none());
}

#[test]
fn text_helpers() {
    assert_eq!(decimal_text(0), "0");
    assert_eq!(decimal_text(1234567), "1234567");
    assert_eq!(join_path("/a", "b"), "/a/b");
    assert_eq!(join_path("/a/", "b"), "/a/b");
    assert_eq!(join_path("", "b"), "b");
    assert_eq!(join_path("/a", "/b"), "/b");
    assert!(is_blank_text(" \t\u{3000}\n"));
    assert!(!is_blank_text(" x "));
}

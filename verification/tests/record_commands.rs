use portfolio_cli::application::commands::new::{
    cargo_manifest_path, create_build_config, create_documentation, create_structure,
    gitignore_file, project_id_for, project_metadata, read_request,
};
use portfolio_cli::commands::docs::{output_file, portfolio_markdown, project_section};
use portfolio_cli::commands::list::{execute as list_execute, format_status, layout_for, project_row};
use portfolio_cli::commands::open::{execute as open_execute, find_project, OpenAction};
use portfolio_cli::commands::run::launch_plan;
use portfolio_cli::config::{check_init as record_check_init, with_environment_token};
use portfolio_cli::domain::models::timestamp::Timestamp;
use portfolio_cli::infrastructure::config::Config;
use portfolio_cli::models::{Architecture, Language, Portfolio, Project, Status, without_dashes};
use portfolio_cli::presentation::FormatterKind;

fn record(id: &str, name: &str, language: Language, architecture: Architecture, status: Status) -> Project {
    let t = Timestamp::from_parts(1_700_000_000, 0).unwrap();
    Project {
        id: id.to_string(),
        name: name.to_string(),
        description: format!("About {}", name),
        language,
        architecture,
        path: format!("/work/{}", id),
        status,
        frameworks: vec![],
        gitlab_url: None,
        created_at: t.clone(),
        updated_at: t,
    }
}

fn sample_portfolio() -> Portfolio {
    let mut p = Portfolio::new();
    p.projects.push(record("order-service", "Order Service", Language::Kotlin, Architecture::Hexagonal, Status::InProgress));
    p.projects.push(record("billing", "Billing", Language::Java, Architecture::Layered, Status::Completed));
    p.projects.push(record("ingest", "Ingest", Language::Rust, Architecture::Pipeline, Status::Planned));
    p
}

#[test]
fn record_language_names() {
    assert_eq!(Language::from_str("Kotlin"), Some(Language::Kotlin));
    assert_eq!(Language::from_str("JAVA"), Some(Language::Java));
    assert_eq!(Language::from_str("rust"), Some(Language::Rust));
    assert_eq!(Language::from_str("kt"), None);
    assert_eq!(Language::from_str(""), None);
    assert_eq!(Language::Kotlin.to_string(), "Kotlin");
}

#[test]
fn record_architecture_names() {
    assert_eq!(Architecture::from_str("hexagonal"), Some(Architecture::Hexagonal));
    assert_eq!(Architecture::from_str("ONION"), Some(Architecture::Onion));
    assert_eq!(Architecture::from_str("Layered"), Some(Architecture::Layered));
    assert_eq!(Architecture::from_str("pipeline"), Some(Architecture::Pipeline));
    assert_eq!(Architecture::from_str("MicroKernel"), Some(Architecture::Microkernel));
    assert_eq!(Architecture::from_str("n-tier"), None);
}

#[test]
fn record_status_names() {
    assert_eq!(Status::from_str("planned"), Some(Status::Planned));
    assert_eq!(Status::from_str("in-progress"), Some(Status::InProgress));
    assert_eq!(Status::from_str("IN_PROGRESS"), Some(Status::InProgress));
    assert_eq!(Status::from_str("Completed"), Some(Status::Completed));
    assert_eq!(Status::from_str("in progress"), None);
    assert_eq!(Status::from_str("archived"), None);
    assert_eq!(without_dashes("a-b_c d"), "abc d");
}

#[test]
fn record_display_reads_back() {
    for l in [Language::Kotlin, Language::Java, Language::Rust] {
        assert_eq!(Language::from_str(&l.to_string()), Some(l));
    }
    for a in [Architecture::Hexagonal, Architecture::Onion, Architecture::Layered, Architecture::Pipeline, Architecture::Microkernel] {
        assert_eq!(Architecture::from_str(&a.to_string()), Some(a));
    }
    assert_eq!(Status::from_str(&Status::Planned.to_string()), Some(Status::Planned));
    assert_eq!(Status::from_str(&Status::Completed.to_string()), Some(Status::Completed));
    assert_eq!(Status::from_str(&Status::InProgress.to_string()), None);
}

#[test]
fn record_find_by_name() {
    let p = sample_portfolio();
    assert_eq!(p.find_by_name("billing").unwrap().id, "billing");
    assert_eq!(p.find_by_name("ORDER SERVICE").unwrap().id, "order-service");
    assert_eq!(p.find_by_name("Order-Service").unwrap().name, "Order Service");
    assert!(p.find_by_name("missing").is_none());
    assert!(Portfolio::new().find_by_name("billing").is_none());
}

#[test]
fn record_apply_filters() {
    let p = sample_portfolio();
    assert_eq!(p.apply_filters(None, None, None).len(), 3);
    let kotlin = p.apply_filters(Some("KOTLIN".to_string()), None, None);
    assert_eq!(kotlin.len(), 1);
    assert_eq!(kotlin[0].id, "order-service");
    let layered = p.apply_filters(None, Some("layered".to_string()), None);
    assert_eq!(layered.len(), 1);
    assert_eq!(layered[0].id, "billing");
    let in_progress = p.apply_filters(None, None, Some("in_progress".to_string()));
    assert_eq!(in_progress.len(), 1);
    assert_eq!(in_progress[0].id, "order-service");
    assert_eq!(p.apply_filters(None, None, Some("In-Progress".to_string())).len(), 1);
    assert_eq!(p.apply_filters(Some("java".to_string()), None, Some("planned".to_string())).len(), 0);
    assert_eq!(p.apply_filters(Some("kt".to_string()), None, None).len(), 0);
}

#[test]
fn record_project_identifier() {
    assert_eq!(project_id_for("My Cool Project"), "my-cool-project");
    assert_eq!(project_id_for("Already-Fine"), "already-fine");
    assert_eq!(project_id_for(""), "");
}

#[test]
fn record_request_reading() {
    let r = read_request("/work", "My App", "Rust", "Onion").unwrap();
    assert_eq!(r.id, "my-app");
    assert_eq!(r.path, "/work/my-app");
    assert_eq!(r.language, Language::Rust);
    assert_eq!(r.architecture, Architecture::Onion);
    assert_eq!(read_request("/work", "x", "cobol", "onion").err().unwrap(), "Invalid language: cobol");
    assert_eq!(read_request("/work", "x", "java", "blob").err().unwrap(), "Invalid architecture: blob");
}

#[test]
fn record_structure() {
    let dirs = create_structure("/w/p", Architecture::Microkernel, Language::Kotlin);
    assert_eq!(dirs, vec!["/w/p", "/w/p/src/main/kotlin/core", "/w/p/src/main/kotlin/plugins", "/w/p/../../../docs"]);
    let dirs = create_structure("/w/p", Architecture::Pipeline, Language::Rust);
    assert_eq!(dirs, vec!["/w/p", "/w/p/../../ingestion", "/w/p/../../processing", "/w/p/../../output", "/w/p/../../../docs"]);
    let dirs = create_structure("/w/p", Architecture::Hexagonal, Language::Java);
    assert_eq!(dirs.len(), 7);
    assert_eq!(dirs[1], "/w/p/src/main/java/domain/model");
}

#[test]
fn record_build_config() {
    let files = create_build_config("/w/p", Language::Kotlin, "demo");
    assert_eq!(files.len(), 2);
    assert_eq!(files[0].0, "/w/p/build.gradle.kts");
    assert!(files[0].1.starts_with("plugins {\n    kotlin(\"jvm\") version \"1.9.22\""));
    assert_eq!(files[1], ("/w/p/settings.gradle.kts".to_string(), "rootProject.name = \"demo\"".to_string()));
    let files = create_build_config("/w/p", Language::Java, "demo");
    assert_eq!(files[0].0, "/w/p/pom.xml");
    assert!(files[0].1.contains("<artifactId>demo</artifactId>"));
    let files = create_build_config("/w/p", Language::Rust, "demo");
    assert_eq!(files[0].0, "/w/p/../../../Cargo.toml");
    assert_eq!(files[0].1, "[package]\nname = \"demo\"\nversion = \"0.1.0\"\nedition = \"2021\"\n\n[dependencies]\n");
}

#[test]
fn record_documentation() {
    let files = create_documentation("/w/p", "Demo", Architecture::Onion, Language::Java, None);
    assert_eq!(files[0].0, "/w/p/README.md");
    assert!(files[0].1.starts_with("# Demo\n\n## Description\n\nProject description\n\n## Architecture\n\nThis project follows **Onion** architecture.\n\n## Technology Stack\n\n- **Language**: Java\n"));
    assert_eq!(files[1].0, "/w/p/ARCHITECTURE.md");
    assert_eq!(files[1].1, "# Architecture Documentation\n\n## Overview\n\nThis project implements Onion architecture.\n\n## Design Decisions\n\nKey architectural decisions and their rationale.\n\n## Components\n\nDescription of main components and their responsibilities.\n");
    let files = create_documentation("/w/p", "Demo", Architecture::Onion, Language::Java, Some("Mine"));
    assert!(files[0].1.contains("## Description\n\nMine\n\n"));
}

#[test]
fn record_ignore_list_and_metadata() {
    assert_eq!(cargo_manifest_path("/w/p"), "/w/p/../../../Cargo.toml");
    assert_eq!(gitignore_file("/w/p", true), ("/w/p/../../../.gitignore".to_string(), "target/\n*.lock\n".to_string()));
    assert_eq!(gitignore_file("/w/p", false).1, "build/\n.gradle/\ntarget/\n*.class\n");
    let now = Timestamp::from_parts(1_700_000_000, 5).unwrap();
    let (path, p) = project_metadata("/w/p", "Demo", "demo", Language::Rust, Architecture::Layered, None, &now);
    assert_eq!(path, "/w/p/../../../project.toml");
    assert_eq!(p.id, "demo");
    assert_eq!(p.description, "");
    assert_eq!(p.status, Status::InProgress);
    assert!(p.frameworks.is_empty());
    assert_eq!(p.created_at, now);
    assert_eq!(p.updated_at, now);
}

#[test]
fn record_listing() {
    let p = sample_portfolio();
    assert_eq!(format_status(&Status::Completed), "✓ Completed");
    assert_eq!(format_status(&Status::InProgress), "◐ In Progress");
    assert_eq!(format_status(&Status::Planned), "○ Planned");
    let row = project_row(&p.projects[0]);
    assert_eq!(row.name, "Order Service");
    assert_eq!(row.language, "Kotlin");
    assert_eq!(row.architecture, "Hexagonal");
    assert_eq!(row.status, "◐ In Progress");
    assert_eq!(layout_for("json"), FormatterKind::Json);
    assert_eq!(layout_for("compact"), FormatterKind::Compact);
    assert_eq!(layout_for("JSON"), FormatterKind::Table);
    let (projects, layout) = list_execute(&p, None, None, Some("completed".to_string()), "table");
    assert_eq!(projects.len(), 1);
    assert_eq!(projects[0].id, "billing");
    assert_eq!(layout, FormatterKind::Table);
}

#[test]
fn record_open() {
    let p = sample_portfolio();
    assert_eq!(find_project(&p, "ingest").unwrap().id, "ingest");
    assert_eq!(find_project(&p, "nope").err().unwrap(), "Project not found: nope");
    match open_execute(&p, "Billing", None, "code", false).unwrap() {
        OpenAction::Editor { program, path } => {
            assert_eq!(program, "code");
            assert_eq!(path, "/work/billing");
        }
        _ => panic!("an editor was expected"),
    }
    match open_execute(&p, "billing", Some("vim"), "code", false).unwrap() {
        OpenAction::Editor { program, .. } => assert_eq!(program, "vim"),
        _ => panic!("an editor was expected"),
    }
    match open_execute(&p, "billing", Some("vim"), "code", true).unwrap() {
        OpenAction::Terminal { path } => assert_eq!(path, "/work/billing"),
        _ => panic!("a terminal was expected"),
    }
    assert!(open_execute(&p, "nope", None, "code", true).is_err());
}

#[test]
fn record_run() {
    let p = sample_portfolio();
    let plan = launch_plan(&p.projects[2], false, false, Some(8080), None, false).unwrap();
    assert_eq!(plan.program, "cargo");
    assert_eq!(plan.args, vec!["run", "--release"]);
    assert_eq!(plan.working_dir, "/work/ingest");
    assert_eq!(plan.env, vec![("PORT".to_string(), "8080".to_string())]);
    let plan = launch_plan(&p.projects[0], false, true, None, Some("dev"), true).unwrap();
    assert_eq!(plan.program, "./mvnw");
    assert_eq!(plan.args, vec!["spring-boot:run"]);
    assert_eq!(plan.env[0], ("SPRING_PROFILES_ACTIVE".to_string(), "dev".to_string()));
    assert_eq!(plan.env[1].0, "JAVA_OPTS");
    let plan = launch_plan(&p.projects[0], true, true, None, None, false).unwrap();
    assert_eq!(plan.program, "./gradlew");
    assert_eq!(plan.args, vec!["bootRun"]);
    assert_eq!(launch_plan(&p.projects[1], false, false, None, None, false).err().unwrap(), "No build tool found (gradlew or mvnw)");
}

#[test]
fn record_document() {
    let mut p = sample_portfolio();
    p.projects[1].frameworks = vec!["spring".to_string(), "jpa".to_string()];
    let section = project_section(&p.projects[1], true);
    assert_eq!(section, "### Billing\n\n- **Language**: Java\n- **Architecture**: Layered\n- **Status**: Completed\n\nAbout Billing\n\n**Frameworks**: spring, jpa\n\n---\n\n");
    let brief = project_section(&p.projects[0], false);
    assert_eq!(brief, "### Order Service\n\n- **Language**: Kotlin\n- **Architecture**: Hexagonal\n- **Status**: In Progress\n\n---\n\n");
    let doc = portfolio_markdown(&p, false);
    assert!(doc.starts_with("# Architecture Portfolio\n\n## Projects Overview\n\n### Order Service\n"));
    assert_eq!(doc.matches("\n---\n\n").count(), 3);
    assert_eq!(portfolio_markdown(&Portfolio::new(), true), "# Architecture Portfolio\n\n## Projects Overview\n\n");
    assert_eq!(output_file("docs"), "docs/portfolio.md");
}

#[test]
fn record_configuration() {
    let base = Config::from_environment(Some("/home/me"), None, Some("vim"));
    assert_eq!(base.gitlab_token, None);
    let with = with_environment_token(base.clone(), Some("SECRET-REDACTED"));
    assert_eq!(with.gitlab_token.as_deref(), Some("SECRET-REDACTED"));
    assert_eq!(with.portfolio_root, "/home/me");
    let without = with_environment_token(base, None);
    assert_eq!(without.gitlab_token, None);
    assert!(record_check_init("/c/portfolio.toml", false, false).is_ok());
    assert!(record_check_init("/c/portfolio.toml", true, true).is_ok());
    assert_eq!(
        record_check_init("/c/portfolio.toml", true, false).err().unwrap(),
        "Configuration file already exists at: /c/portfolio.toml\nUse --force to overwrite"
    );
}

use portfolio_cli::domain::models::timestamp::Timestamp;
use portfolio_cli::domain::models::portfolio::Portfolio;
use portfolio_cli::domain::{Architecture, Language, Project, ProjectId, ProjectName, Status};

// The time the tests create and change projects at.
fn clock() -> Timestamp {
    Timestamp::from_parts(1_700_000_000, 0).unwrap()
}

fn project(name: &str, language: Language, architecture: Architecture) -> Project {
    let n = ProjectName::new(name).unwrap();
    let id = n.to_id();
    Project::new(n, language, architecture, &format!("/work/{}", id.as_str()), &clock())
}

#[test]
fn added_project_is_found_and_removal_undoes_it() {
    let mut p = Portfolio::new();
    p.add_project(project("Alpha", Language::Rust, Architecture::Onion)).unwrap();
    p.add_project(project("Beta", Language::Java, Architecture::Layered)).unwrap();
    let before: Vec<String> = p.projects().iter().map(|x| x.id().as_str().to_string()).collect();
    p.add_project(project("Gamma", Language::Kotlin, Architecture::Pipeline)).unwrap();
    assert!(p.find_by_id(&ProjectId::new("gamma").unwrap()).is_some());
    let removed = p.remove_project(&ProjectId::new("gamma").unwrap()).unwrap();
    assert_eq!(removed.name().as_str(), "Gamma");
    let after: Vec<String> = p.projects().iter().map(|x| x.id().as_str().to_string()).collect();
    assert_eq!(before, after);
    assert!(p.remove_project(&ProjectId::new("gamma").unwrap()).is_err());
}

#[test]
fn first_of_each_identifier_is_kept() {
    let first = project("Alpha", Language::Rust, Architecture::Onion);
    let second = project("alpha", Language::Java, Architecture::Layered);
    let other = project("Beta", Language::Java, Architecture::Layered);
    let p = Portfolio::from_projects(vec![first, other, second]);
    assert_eq!(p.len(), 2);
    assert_eq!(p.projects()[0].language(), Language::Rust);
    assert_eq!(p.projects()[1].id().as_str(), "beta");
}

#[test]
fn counts_add_up() {
    let mut p = Portfolio::new();
    let mut a = project("A", Language::Rust, Architecture::Onion);
    a.set_status(Status::InProgress, &clock()).unwrap();
    let mut b = project("B", Language::Rust, Architecture::Layered);
    b.set_status(Status::Archived, &clock()).unwrap();
    p.add_project(a).unwrap();
    p.add_project(b).unwrap();
    p.add_project(project("C", Language::Kotlin, Architecture::Layered)).unwrap();
    let s = p.statistics();
    assert_eq!(s.planned_count + s.in_progress_count + s.completed_count + s.archived_count, s.total_projects);
    assert_eq!(s.language_counts.iter().map(|e| e.1).sum::<usize>(), s.total_projects);
    assert_eq!(s.architecture_counts.iter().map(|e| e.1).sum::<usize>(), s.total_projects);
}

#[test]
fn no_filter_selects_everything() {
    let mut p = Portfolio::new();
    p.add_project(project("A", Language::Rust, Architecture::Onion)).unwrap();
    p.add_project(project("B", Language::Java, Architecture::Layered)).unwrap();
    let all = p.apply_filters(None, None, None);
    assert_eq!(all.len(), 2);
    assert_eq!(all[0].id().as_str(), "a");
    assert_eq!(all[1].id().as_str(), "b");
}

#[test]
fn removing_an_added_framework_restores_the_list() {
    let mut p = project("A", Language::Rust, Architecture::Onion);
    p.add_framework("tokio", &clock()).unwrap();
    let before = p.frameworks().to_vec();
    p.add_framework("serde", &clock()).unwrap();
    assert!(p.remove_framework("serde", &clock()));
    assert_eq!(p.frameworks(), before.as_slice());
    assert!(!p.remove_framework("serde", &clock()));
}

#[test]
fn every_status_reaches_every_other() {
    let all = [Status::Planned, Status::InProgress, Status::Completed, Status::Archived];
    for from in all {
        assert!(!from.can_transition_to(from));
        for to in all {
            if from != to {
                let direct = from.can_transition_to(to);
                let via = all.iter().any(|m| from.can_transition_to(*m) && m.can_transition_to(to));
                assert!(direct || via);
            }
        }
    }
}

#[test]
fn names_written_for_people_read_back() {
    for l in Language::all() {
        assert_eq!(l.to_string().parse::<Language>().unwrap(), *l);
    }
    for a in Architecture::all() {
        assert_eq!(a.to_string().parse::<Architecture>().unwrap(), *a);
    }
    for s in Status::all() {
        assert_eq!(s.to_string().parse::<Status>().unwrap(), *s);
        assert_eq!(s.variant_name().to_lowercase().parse::<Status>().unwrap(), *s);
    }
}

#[test]
fn identifiers_from_ascii_names_are_valid() {
    for name in ["My Project", "  spaced  out  ", "Under_Score--Name", "!!!", "ÀB", "A..b"] {
        if let Ok(n) = ProjectName::new(name) {
            let id = n.to_id();
            assert!(ProjectId::new(id.as_str()).is_ok(), "{}", id.as_str());
        }
    }
}

#[test]
fn fresh_project_is_zero_days_old() {
    let p = project("Fresh", Language::Rust, Architecture::Onion);
    assert_eq!(p.age_in_days(&clock()), 0);
    assert_eq!(p.days_since_update(&clock()), 0);
}

#[test]
fn changes_record_the_given_time() {
    let later = Timestamp::from_parts(1_700_086_400, 0).unwrap();
    let mut p = project("Timed", Language::Rust, Architecture::Onion);
    assert_eq!(p.created_at(), clock());
    p.set_status(Status::InProgress, &later).unwrap();
    assert_eq!(p.updated_at(), later);
    assert_eq!(p.created_at(), clock());
    assert_eq!(p.age_in_days(&later), 1);
    assert_eq!(p.days_since_update(&later), 0);
    let mut q = project("Other", Language::Rust, Architecture::Onion);
    assert!(q.set_status(Status::Completed, &later).is_err());
    assert_eq!(q.updated_at(), clock());
}

#[test]
fn long_names_count_characters() {
    let name: String = "é".repeat(200);
    assert!(ProjectName::new(&name).is_ok());
    let too_long: String = "é".repeat(256);
    assert_eq!(
        ProjectName::new(&too_long).err(),
        Some(portfolio_cli::domain::DomainError::ProjectNameTooLong(256))
    );
}

#[test]
fn a_name_that_is_an_identifier_is_its_own_identifier() {
    for name in ["my-project", "project123", "a-b-c"] {
        assert_eq!(ProjectName::new(name).unwrap().to_id().as_str(), name);
    }
}

#[test]
fn removal_leaves_no_project_with_the_identifier() {
    let mut p = Portfolio::new();
    p.add_project(project("Alpha", Language::Rust, Architecture::Onion)).unwrap();
    p.add_project(project("Beta", Language::Java, Architecture::Layered)).unwrap();
    let id = ProjectId::new("alpha").unwrap();
    assert!(p.remove_project(&id).is_ok());
    assert!(p.find_by_id(&id).is_none());
    assert!(p.find_by_id(&ProjectId::new("beta").unwrap()).is_some());
}

#[test]
fn identifiers_of_non_ascii_names_keep_identifier_characters() {
    let kelvin = ProjectName::new("\u{212A}elvin Scale").unwrap().to_id();
    assert_eq!(kelvin.as_str(), "kelvin-scale");
    assert!(ProjectId::new(kelvin.as_str()).is_ok());
    let umlaut = ProjectName::new("Äpfel Über Alles").unwrap().to_id();
    assert_eq!(umlaut.as_str(), "pfel-ber-alles");
    assert_eq!(ProjectName::new("日本").unwrap().to_id().as_str(), "project");
}

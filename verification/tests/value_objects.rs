use portfolio_cli::domain::{ProjectId, ProjectName};

#[test]
fn valid_project_ids() {
    assert!(ProjectId::new("my-project").is_ok());
    assert!(ProjectId::new("project123").is_ok());
    assert!(ProjectId::new("a").is_ok());
    assert!(ProjectId::new("my-awesome-project-2024").is_ok());
}

#[test]
fn invalid_project_ids() {
    assert!(ProjectId::new("").is_err());
    assert!(ProjectId::new("My-Project").is_err()); // uppercase
    assert!(ProjectId::new("-project").is_err()); // starts with hyphen
    assert!(ProjectId::new("project-").is_err()); // ends with hyphen
    assert!(ProjectId::new("my--project").is_err()); // consecutive hyphens
    assert!(ProjectId::new("my_project").is_err()); // underscore
    assert!(ProjectId::new("my project").is_err()); // space
}

#[test]
fn valid_project_names() {
    assert!(ProjectName::new("My Project").is_ok());
    assert!(ProjectName::new("Project 2024").is_ok());
    assert!(ProjectName::new("A").is_ok());
}

#[test]
fn invalid_project_names() {
    assert!(ProjectName::new("").is_err());
    assert!(ProjectName::new("   ").is_err());
    assert!(ProjectName::new("path/to/project").is_err());
    assert!(ProjectName::new("../project").is_err());
    assert!(ProjectName::new("project\\file").is_err());
}

#[test]
fn name_to_id_conversion() {
    let name = ProjectName::new("My Awesome Project").unwrap();
    assert_eq!(name.to_id().as_str(), "my-awesome-project");

    let name = ProjectName::new("Project_With_Underscores").unwrap();
    assert_eq!(name.to_id().as_str(), "project-with-underscores");

    let name = ProjectName::new("Project   With   Spaces").unwrap();
    assert_eq!(name.to_id().as_str(), "project-with-spaces");
}

//! Running a project: the launch of its build tool.
use vstd::prelude::*;
use vstd::string::*;
use crate::domain::models::enums;
use crate::infrastructure::errors::InfrastructureError;
use crate::infrastructure::services::process_runner::{
    LaunchPlan, RunConfig, SystemProcessRunner, jvm_launch, rust_launch,
};
use crate::models::{Language, Project};
use crate::text::owned;

verus! {

pub open spec fn opt_str_view(o: Option<&str>) -> Option<Seq<char>> {
    match o {
        Some(s) => Some(s@),
        None => None,
    }
}

/// The language of a project record, as the launcher knows it.
pub fn launcher_language(l: Language) -> (r: enums::Language)
    ensures
        l == Language::Kotlin ==> r == enums::Language::Kotlin,
        l == Language::Java ==> r == enums::Language::Java,
        l == Language::Rust ==> r == enums::Language::Rust,
{
    match l {
        Language::Kotlin => enums::Language::Kotlin,
        Language::Java => enums::Language::Java,
        Language::Rust => enums::Language::Rust,
    }
}

/// How to start a project, given which wrappers its directory holds: Rust
/// projects with `cargo run`, Kotlin and Java projects with the Gradle
/// wrapper's `bootRun`, else the Maven wrapper's `spring-boot:run`, else not
/// at all.
pub fn launch_plan(
    project: &Project,
    has_gradlew: bool,
    has_mvnw: bool,
    port: Option<u16>,
    profile: Option<&str>,
    debug: bool,
) -> (r: Result<LaunchPlan, String>)
    ensures
        project.language == Language::Rust ==> (r matches Ok(p) && p@ == rust_launch(
            project.path@,
            port,
            debug,
        )),
        project.language != Language::Rust ==> ((r is Ok) <==> (has_gradlew || has_mvnw)),
        project.language != Language::Rust ==> (r matches Ok(p) ==> p@ == jvm_launch(
            project.path@,
            has_gradlew,
            port,
            opt_str_view(profile),
            debug,
        )),
        r matches Err(m) ==> m@ == "No build tool found (gradlew or mvnw)"@,
{
    let config = RunConfig {
        port,
        profile: match profile {
            Some(p) => Some(owned(p)),
            None => None,
        },
        debug,
    };
    let runner = SystemProcessRunner::new();
    match runner.plan(
        project.path.as_str(),
        launcher_language(project.language),
        has_gradlew,
        has_mvnw,
        &config,
    ) {
        Ok(plan) => Ok(plan),
        Err(InfrastructureError::ProcessError(m)) => Err(m),
        Err(_) => Err(owned("No build tool found (gradlew or mvnw)")),
    }
}

} // verus!

//! What creating and changing a project computes: the project itself, the
//! changes a command makes, and the directories and files of a new project.
use vstd::prelude::*;
use vstd::string::*;
use crate::application::dto::commands::{CreateProjectCommand, UpdateProjectCommand, create_command_problem};
use crate::application::errors::ApplicationError;
use crate::domain::errors::DomainErrorView;
use crate::domain::models::enums::{
    Architecture, Language, Status, architecture_display, architecture_description,
    architecture_layers, language_display, language_source_directory, status_named,
    drop_separators, transition_allowed, status_display, str_views,
};
use crate::domain::models::project::{Project, ProjectView, same_but_updated, seq_without};
use crate::domain::models::timestamp::Timestamp;
use crate::domain::value_objects::{ProjectId, ProjectName};
use crate::domain::value_objects::project_name::{project_name_problem, id_from_name};
use crate::text::{
    occurs_in, lemma_occurs_middle,
    owned, join_path, path_join, is_blank, unicode_lowercase, string_views,
};

verus! {

/// The Kotlin build script of a new project.
pub open spec fn kotlin_build_script() -> Seq<char> {
    "plugins {\n    kotlin(\"jvm\") version \"1.9.22\"\n    kotlin(\"plugin.spring\") version \"1.9.22\"\n    id(\"org.springframework.boot\") version \"3.2.1\"\n}\n\ngroup = \"com.portfolio\"\nversion = \"0.1.0\"\n\nrepositories {\n    mavenCentral()\n}\n\ndependencies {\n    implementation(\"org.springframework.boot:spring-boot-starter-webflux\")\n    implementation(\"org.jetbrains.kotlin:kotlin-reflect\")\n    testImplementation(\"org.springframework.boot:spring-boot-starter-test\")\n}\n"@
}

/// The Maven descriptor of a new Java project.
pub open spec fn maven_descriptor_text(v: ProjectView) -> Seq<char> {
    "<?xml version=\"1.0\"?>\n<project xmlns=\"http://maven.apache.org/POM/4.0.0\">\n    <modelVersion>4.0.0</modelVersion>\n    <groupId>com.portfolio</groupId>\n    <artifactId>"@ + v.id + "</artifactId>\n    <version>0.1.0</version>\n</project>\n"@
}

/// The Cargo manifest of a new Rust project.
pub open spec fn cargo_manifest_text(v: ProjectView) -> Seq<char> {
    "[package]\nname = \""@ + v.id + "\"\nversion = \"0.1.0\"\nedition = \"2021\"\n\n[dependencies]\n"@
}

/// The Gradle settings of a new Kotlin project.
pub open spec fn gradle_settings_text(v: ProjectView) -> Seq<char> {
    "rootProject.name = \""@ + v.id + "\""@
}

/// The README of a new project.
pub open spec fn readme_text(v: ProjectView) -> Seq<char> {
    "# "@ + v.name + "\n\n## Description\n\n"@ + v.description + "\n\n## Architecture\n\nThis project follows **"@ + architecture_display(v.architecture) + "** architecture.\n\n"@ + architecture_description(v.architecture) + "\n\n## Technology Stack\n\n- **Language**: "@ + language_display(v.language) + "\n- **Architecture**: "@ + architecture_display(v.architecture) + "\n\n## Getting Started\n\n### Prerequisites\n\nInstall required tools for "@ + language_display(v.language) + " development.\n\n### Running\n\nInstructions for running the project.\n\n## Documentation\n\nSee `ARCHITECTURE.md` for detailed architecture documentation.\n"@
}

/// One line per layer, each written as `` - `layer` ``, joined by newlines.
pub open spec fn layer_list_text(layers: Seq<Seq<char>>) -> Seq<char>
    decreases layers.len(),
{
    if layers.len() == 0 {
        Seq::empty()
    } else if layers.len() == 1 {
        "- `"@ + layers[0] + "`"@
    } else {
        layer_list_text(layers.drop_last()) + "\n- `"@ + layers.last() + "`"@
    }
}

/// The architecture document of a new project.
pub open spec fn architecture_doc_text(v: ProjectView) -> Seq<char> {
    "# Architecture Documentation\n\n## Overview\n\nThis project implements "@ + architecture_display(v.architecture) + " architecture.\n\n"@ + architecture_description(v.architecture) + "\n\n## Structure\n\n"@ + layer_list_text(architecture_layers(v.architecture)) + "\n\n## Design Decisions\n\nKey architectural decisions and their rationale will be documented here.\n\n## Components\n\nDescription of main components and their responsibilities.\n"@
}

/// The views of a sequence of (path, content) pairs.
pub open spec fn file_views(s: Seq<(String, String)>) -> Seq<(Seq<char>, Seq<char>)> {
    s.map_values(|f: (String, String)| (f.0@, f.1@))
}

/// The build files of a new project, as (path, content).
pub open spec fn build_files(v: ProjectView) -> Seq<(Seq<char>, Seq<char>)> {
    match v.language {
        Language::Kotlin => seq![
            (path_join(v.path, "build.gradle.kts"@), kotlin_build_script()),
            (path_join(v.path, "settings.gradle.kts"@), gradle_settings_text(v)),
        ],
        Language::Java => seq![(path_join(v.path, "pom.xml"@), maven_descriptor_text(v))],
        Language::Rust => seq![(path_join(v.path, "Cargo.toml"@), cargo_manifest_text(v))],
    }
}

/// The documentation files of a new project, as (path, content).
pub open spec fn documentation_files(v: ProjectView) -> Seq<(Seq<char>, Seq<char>)> {
    seq![
        (path_join(v.path, "README.md"@), readme_text(v)),
        (path_join(v.path, "ARCHITECTURE.md"@), architecture_doc_text(v)),
    ]
}

/// The ignore list of version control for a new project.
pub open spec fn gitignore_text(l: Language) -> Seq<char> {
    match l {
        Language::Rust => "target/\n**/*.rs.bk\nCargo.lock\n"@,
        Language::Kotlin | Language::Java => "build/\n.gradle/\ntarget/\n*.class\n.idea/\n*.iml\n"@,
    }
}

/// The directories of a new project, in the order they are made: the
/// project directory, each layer of its architecture under its source
/// directory, and its `docs` directory.
pub open spec fn scaffold_directories(v: ProjectView) -> Seq<Seq<char>> {
    let src_base = path_join(v.path, language_source_directory(v.language));
    seq![v.path] + architecture_layers(v.architecture).map_values(|l: Seq<char>| path_join(src_base, l))
        + seq![path_join(v.path, "docs"@)]
}

/// Every build file of a new project names the project by its identifier:
/// the Maven artifact of a Java project, the Cargo package of a Rust project
/// and the Gradle root project of a Kotlin project; each file lies in the
/// project's directory.
pub proof fn lemma_build_files_name_the_identifier(v: ProjectView)
    ensures
        v.language == Language::Java ==> {
            &&& build_files(v).len() == 1
            &&& build_files(v)[0].0 == path_join(v.path, "pom.xml"@)
            &&& occurs_in("<artifactId>"@ + v.id + "</artifactId>"@, build_files(v)[0].1)
        },
        v.language == Language::Rust ==> {
            &&& build_files(v).len() == 1
            &&& build_files(v)[0].0 == path_join(v.path, "Cargo.toml"@)
            &&& occurs_in("name = \""@ + v.id + "\""@, build_files(v)[0].1)
        },
        v.language == Language::Kotlin ==> {
            &&& build_files(v).len() == 2
            &&& build_files(v)[1].0 == path_join(v.path, "settings.gradle.kts"@)
            &&& occurs_in("rootProject.name = \""@ + v.id + "\""@, build_files(v)[1].1)
        },
{
    lemma_identifier_named_in_build_texts(v.id);
}

/// The build texts of a project with identifier `id` name it: in the Maven
/// artifact, the Cargo package and the Gradle root project.
pub proof fn lemma_identifier_named_in_build_texts(id: Seq<char>)
    ensures
        occurs_in(
            "<artifactId>"@ + id + "</artifactId>"@,
            "<?xml version=\"1.0\"?>\n<project xmlns=\"http://maven.apache.org/POM/4.0.0\">\n    <modelVersion>4.0.0</modelVersion>\n    <groupId>com.portfolio</groupId>\n    <artifactId>"@ + id + "</artifactId>\n    <version>0.1.0</version>\n</project>\n"@,
        ),
        occurs_in(
            "name = \""@ + id + "\""@,
            "[package]\nname = \""@ + id + "\"\nversion = \"0.1.0\"\nedition = \"2021\"\n\n[dependencies]\n"@,
        ),
        occurs_in("rootProject.name = \""@ + id + "\""@, "rootProject.name = \""@ + id + "\""@),
{
    reveal_strlit("<?xml version=\"1.0\"?>\n<project xmlns=\"http://maven.apache.org/POM/4.0.0\">\n    <modelVersion>4.0.0</modelVersion>\n    <groupId>com.portfolio</groupId>\n    <artifactId>");
    reveal_strlit("<?xml version=\"1.0\"?>\n<project xmlns=\"http://maven.apache.org/POM/4.0.0\">\n    <modelVersion>4.0.0</modelVersion>\n    <groupId>com.portfolio</groupId>\n    ");
    reveal_strlit("<artifactId>");
    reveal_strlit("</artifactId>\n    <version>0.1.0</version>\n</project>\n");
    reveal_strlit("</artifactId>");
    reveal_strlit("\n    <version>0.1.0</version>\n</project>\n");
    reveal_strlit("[package]\nname = \"");
    reveal_strlit("[package]\n");
    reveal_strlit("name = \"");
    reveal_strlit("\"\nversion = \"0.1.0\"\nedition = \"2021\"\n\n[dependencies]\n");
    reveal_strlit("\"");
    reveal_strlit("\nversion = \"0.1.0\"\nedition = \"2021\"\n\n[dependencies]\n");
    let mp = "<?xml version=\"1.0\"?>\n<project xmlns=\"http://maven.apache.org/POM/4.0.0\">\n    <modelVersion>4.0.0</modelVersion>\n    <groupId>com.portfolio</groupId>\n    "@;
    let mq = "\n    <version>0.1.0</version>\n</project>\n"@;
    let ml = "<artifactId>"@ + id + "</artifactId>"@;
    assert("<?xml version=\"1.0\"?>\n<project xmlns=\"http://maven.apache.org/POM/4.0.0\">\n    <modelVersion>4.0.0</modelVersion>\n    <groupId>com.portfolio</groupId>\n    <artifactId>"@ + id + "</artifactId>\n    <version>0.1.0</version>\n</project>\n"@ =~= mp + ml + mq);
    lemma_occurs_middle(mp, ml, mq);
    let cp = "[package]\n"@;
    let cq = "\nversion = \"0.1.0\"\nedition = \"2021\"\n\n[dependencies]\n"@;
    let cl = "name = \""@ + id + "\""@;
    assert("[package]\nname = \""@ + id + "\"\nversion = \"0.1.0\"\nedition = \"2021\"\n\n[dependencies]\n"@ =~= cp + cl + cq);
    lemma_occurs_middle(cp, cl, cq);
    let gl = "rootProject.name = \""@ + id + "\""@;
    assert(gl =~= Seq::<char>::empty() + gl + Seq::<char>::empty());
    lemma_occurs_middle(Seq::<char>::empty(), gl, Seq::<char>::empty());
}

/// The Kotlin build script of a new project.
pub fn kotlin_build_script_text() -> (r: &'static str)
    ensures
        r@ == kotlin_build_script(),
{
    "plugins {\n    kotlin(\"jvm\") version \"1.9.22\"\n    kotlin(\"plugin.spring\") version \"1.9.22\"\n    id(\"org.springframework.boot\") version \"3.2.1\"\n}\n\ngroup = \"com.portfolio\"\nversion = \"0.1.0\"\n\nrepositories {\n    mavenCentral()\n}\n\ndependencies {\n    implementation(\"org.springframework.boot:spring-boot-starter-webflux\")\n    implementation(\"org.jetbrains.kotlin:kotlin-reflect\")\n    testImplementation(\"org.springframework.boot:spring-boot-starter-test\")\n}\n"
}

/// The build files of a new project, as (path, content).
pub fn build_config_files(project: &Project) -> (r: Vec<(String, String)>)
    ensures
        file_views(r@) == build_files(project@),
{
    let ghost v = project@;
    let path = project.path();
    let mut files: Vec<(String, String)> = Vec::new();
    match project.language() {
        Language::Kotlin => {
            files.push((join_path(path, "build.gradle.kts"), owned(kotlin_build_script_text())));
            let mut settings = owned("rootProject.name = \"");
            settings.append(project.id().as_str());
            settings.append("\"");
            files.push((join_path(path, "settings.gradle.kts"), settings));
        },
        Language::Java => {
            let mut pom = owned("<?xml version=\"1.0\"?>\n<project xmlns=\"http://maven.apache.org/POM/4.0.0\">\n    <modelVersion>4.0.0</modelVersion>\n    <groupId>com.portfolio</groupId>\n    <artifactId>");
            pom.append(project.id().as_str());
            pom.append("</artifactId>\n    <version>0.1.0</version>\n</project>\n");
            files.push((join_path(path, "pom.xml"), pom));
        },
        Language::Rust => {
            let mut cargo = owned("[package]\nname = \"");
            cargo.append(project.id().as_str());
            cargo.append("\"\nversion = \"0.1.0\"\nedition = \"2021\"\n\n[dependencies]\n");
            files.push((join_path(path, "Cargo.toml"), cargo));
        },
    }
    proof {
        assert(file_views(files@) =~= build_files(v));
    }
    files
}

/// The layers of the project's architecture, one per line.
fn layer_list(project: &Project) -> (r: String)
    ensures
        r@ == layer_list_text(architecture_layers(project@.architecture)),
{
    let layers = project.architecture().typical_layers();
    let ghost ls = architecture_layers(project@.architecture);
    let mut text = String::new();
    let mut i: usize = 0;
    while i < layers.len()
        invariant
            i <= layers@.len(),
            str_views(layers@) == ls,
            text@ == layer_list_text(ls.take(i as int)),
        decreases layers@.len() - i,
    {
        proof {
            assert(ls.take(i + 1).drop_last() =~= ls.take(i as int));
            assert(ls.take(i + 1).last() == layers@[i as int]@);
            assert(ls.take(i + 1)[0] == ls[0]);
        }
        if i > 0 {
            text.append("\n");
        }
        text.append("- `");
        text.append(layers[i]);
        text.append("`");
        proof {
            reveal_strlit("\n");
            reveal_strlit("- `");
            reveal_strlit("\n- `");
            if i == 0 {
                assert(text@ =~= layer_list_text(ls.take(1)));
            } else {
                assert(text@ =~= layer_list_text(ls.take(i + 1)));
            }
        }
        i = i + 1;
    }
    proof {
        assert(ls.take(ls.len() as int) =~= ls);
    }
    text
}

/// The documentation files of a new project, as (path, content).
pub fn documentation_file_contents(project: &Project) -> (r: Vec<(String, String)>)
    ensures
        file_views(r@) == documentation_files(project@),
{
    let ghost v = project@;
    let path = project.path();
    let mut readme = owned("# ");
    readme.append(project.name().as_str());
    readme.append("\n\n## Description\n\n");
    readme.append(project.description());
    readme.append("\n\n## Architecture\n\nThis project follows **");
    readme.append(project.architecture().display_name());
    readme.append("** architecture.\n\n");
    readme.append(project.architecture().description());
    readme.append("\n\n## Technology Stack\n\n- **Language**: ");
    readme.append(project.language().display_name());
    readme.append("\n- **Architecture**: ");
    readme.append(project.architecture().display_name());
    readme.append("\n\n## Getting Started\n\n### Prerequisites\n\nInstall required tools for ");
    readme.append(project.language().display_name());
    readme.append(" development.\n\n### Running\n\nInstructions for running the project.\n\n## Documentation\n\nSee `ARCHITECTURE.md` for detailed architecture documentation.\n");
    let layers = layer_list(project);
    let mut architecture_doc = owned("# Architecture Documentation\n\n## Overview\n\nThis project implements ");
    architecture_doc.append(project.architecture().display_name());
    architecture_doc.append(" architecture.\n\n");
    architecture_doc.append(project.architecture().description());
    architecture_doc.append("\n\n## Structure\n\n");
    architecture_doc.append(layers.as_str());
    architecture_doc.append("\n\n## Design Decisions\n\nKey architectural decisions and their rationale will be documented here.\n\n## Components\n\nDescription of main components and their responsibilities.\n");
    let mut files: Vec<(String, String)> = Vec::new();
    files.push((join_path(path, "README.md"), readme));
    files.push((join_path(path, "ARCHITECTURE.md"), architecture_doc));
    proof {
        assert(file_views(files@) =~= documentation_files(v));
    }
    files
}

/// The ignore list of version control of a new project, as (path, content).
pub fn gitignore_file(project: &Project) -> (r: (String, String))
    ensures
        r.0@ == path_join(project@.path, ".gitignore"@),
        r.1@ == gitignore_text(project@.language),
{
    let content = match project.language() {
        Language::Rust => "target/\n**/*.rs.bk\nCargo.lock\n",
        Language::Kotlin | Language::Java => "build/\n.gradle/\ntarget/\n*.class\n.idea/\n*.iml\n",
    };
    (join_path(project.path(), ".gitignore"), owned(content))
}

/// The directories of a new project, in the order they are made.
pub fn directory_structure(project: &Project) -> (r: Vec<String>)
    ensures
        string_views(r@) == scaffold_directories(project@),
{
    let ghost v = project@;
    let path = project.path();
    let src_base = join_path(path, project.language().source_directory());
    let layers = project.architecture().typical_layers();
    let ghost ls = architecture_layers(v.architecture);
    let mut dirs: Vec<String> = Vec::new();
    dirs.push(owned(path));
    let mut i: usize = 0;
    while i < layers.len()
        invariant
            i <= layers@.len(),
            str_views(layers@) == ls,
            src_base@ == path_join(v.path, language_source_directory(v.language)),
            dirs@.len() == i + 1,
            string_views(dirs@) == seq![v.path] + ls.take(i as int).map_values(
                |l: Seq<char>| path_join(src_base@, l),
            ),
        decreases layers@.len() - i,
    {
        let d = join_path(src_base.as_str(), layers[i]);
        let ghost before = dirs@;
        dirs.push(d);
        proof {
            assert(ls[i as int] == layers@[i as int]@);
            let want = seq![v.path] + ls.take(i + 1).map_values(|l: Seq<char>| path_join(src_base@, l));
            let had = seq![v.path] + ls.take(i as int).map_values(|l: Seq<char>| path_join(src_base@, l));
            assert forall|k: int| 0 <= k < dirs@.len() implies #[trigger] string_views(dirs@)[k] == want[k] by {
                if k <= i {
                    assert(dirs@[k] == before[k]);
                    assert(string_views(before)[k] == had[k]);
                } else {
                    assert(dirs@[k] == d);
                }
            }
            assert(string_views(dirs@) =~= want);
        }
        i = i + 1;
    }
    dirs.push(join_path(path, "docs"));
    proof {
        assert(ls.take(ls.len() as int) =~= ls);
        assert(string_views(dirs@) =~= scaffold_directories(v));
    }
    dirs
}

/// The project a creation command makes, before anything is written: the
/// command is checked (a refusal is a validation error), then the name (a
/// refusal is a domain error); the project is placed in the directory named
/// by its identifier under the base directory, created and modified at `now`.
pub fn prepare_project(command: CreateProjectCommand, base_path_exists: bool, now: &Timestamp) -> (r:
    Result<Project, ApplicationError>)
    ensures
        match create_command_problem(command.name@, command.base_path@, base_path_exists) {
            Some(m) => r matches Err(ApplicationError::ValidationError(x)) && x@ == m,
            None => match project_name_problem(command.name@) {
                Some(e) => r matches Err(ApplicationError::Domain(d)) && d@ == e,
                None => r matches Ok(p) && {
                    &&& p@.id == id_from_name(command.name@)
                    &&& p@.name == command.name@
                    &&& p@.description == match command.description {
                        Some(d) => d@,
                        None => Seq::<char>::empty(),
                    }
                    &&& p@.language == command.language
                    &&& p@.architecture == command.architecture
                    &&& p@.path == path_join(command.base_path@, id_from_name(command.name@))
                    &&& p@.status == Status::Planned
                    &&& p@.frameworks.len() == 0
                    &&& p@.gitlab_url is None
                    &&& p@.created_at == now@
                    &&& p@.updated_at == now@
                },
            },
        },
{
    match command.validate(base_path_exists) {
        Ok(()) => {},
        Err(m) => return Err(ApplicationError::ValidationError(m)),
    }
    let name = match ProjectName::new(command.name.as_str()) {
        Ok(n) => n,
        Err(e) => return Err(ApplicationError::Domain(e)),
    };
    let id = name.to_id();
    let project_path = join_path(command.base_path.as_str(), id.as_str());
    let mut project = Project::new(
        name,
        command.language,
        command.architecture,
        project_path.as_str(),
        now,
    );
    if let Some(description) = &command.description {
        project.set_description(description.as_str(), now);
    }
    Ok(project)
}

/// `s` without the first occurrence of `x` (unchanged when `x` is absent).
pub open spec fn remove_first(s: Seq<Seq<char>>, x: Seq<char>) -> Seq<Seq<char>>
    decreases s.len(),
{
    if s.len() == 0 {
        s
    } else if s[0] == x {
        s.drop_first()
    } else {
        seq![s[0]] + remove_first(s.drop_first(), x)
    }
}

/// Removing the element at the first index that holds `x` is removing the
/// first occurrence of `x`.
pub proof fn lemma_remove_first_at(s: Seq<Seq<char>>, x: Seq<char>, i: int)
    requires
        0 <= i < s.len(),
        s[i] == x,
        forall|j: int| 0 <= j < i ==> s[j] != x,
    ensures
        seq_without(s, i) == remove_first(s, x),
    decreases s.len(),
{
    if i == 0 {
        assert(seq_without(s, 0) =~= s.drop_first());
    } else {
        let t = s.drop_first();
        assert forall|j: int| 0 <= j < i - 1 implies t[j] != x by {
            assert(t[j] == s[j + 1]);
        }
        lemma_remove_first_at(t, x, i - 1);
        assert(seq_without(s, i) =~= seq![s[0]] + seq_without(t, i - 1));
    }
}

/// Removing an absent element changes nothing.
pub proof fn lemma_remove_first_absent(s: Seq<Seq<char>>, x: Seq<char>)
    requires
        !s.contains(x),
    ensures
        remove_first(s, x) == s,
    decreases s.len(),
{
    if s.len() > 0 {
        let t = s.drop_first();
        assert(s[0] != x);
        assert forall|j: int| 0 <= j < t.len() implies t[j] != x by {
            assert(t[j] == s[j + 1]);
        }
        lemma_remove_first_absent(t, x);
        assert(seq![s[0]] + t =~= s);
    }
}

/// One framework added to a project, as [`Project::add_framework`] does.
pub open spec fn add_framework_step(v: ProjectView, f: Seq<char>) -> Result<ProjectView, DomainErrorView> {
    if is_blank(f) {
        Err(DomainErrorView::EmptyFrameworkName)
    } else if v.frameworks.contains(f) {
        Err(DomainErrorView::DuplicateFramework(f))
    } else {
        Ok(ProjectView { frameworks: v.frameworks.push(f), ..v })
    }
}

/// The frameworks added in order; the first refusal stops the additions.
pub open spec fn add_framework_steps(v: ProjectView, fs: Seq<Seq<char>>) -> Result<ProjectView, DomainErrorView>
    decreases fs.len(),
{
    if fs.len() == 0 {
        Ok(v)
    } else {
        match add_framework_steps(v, fs.drop_last()) {
            Ok(w) => add_framework_step(w, fs.last()),
            Err(e) => Err(e),
        }
    }
}

/// The frameworks removed in order, each at its first occurrence.
pub open spec fn remove_framework_steps(v: ProjectView, fs: Seq<Seq<char>>) -> ProjectView
    decreases fs.len(),
{
    if fs.len() == 0 {
        v
    } else {
        let w = remove_framework_steps(v, fs.drop_last());
        ProjectView { frameworks: remove_first(w.frameworks, fs.last()), ..w }
    }
}

/// The status change of an update command: none, or the named status when
/// the name reads and the move is allowed.
pub open spec fn status_step(v: ProjectView, status: Option<Seq<char>>) -> Result<ProjectView, DomainErrorView> {
    match status {
        None => Ok(v),
        Some(t) => match status_named(drop_separators(unicode_lowercase(t))) {
            None => Err(DomainErrorView::InvalidStatus(t)),
            Some(s) => if transition_allowed(v.status, s) {
                Ok(ProjectView { status: s, ..v })
            } else {
                Err(DomainErrorView::InvalidStatusTransition {
                    from: status_display(v.status),
                    to: status_display(s),
                })
            },
        },
    }
}

/// What an update command makes of a project, the modification time aside:
/// the description, then the status, then the added frameworks, then the
/// removed ones, then the repository link; the first refusal is the outcome.
pub open spec fn update_outcome(
    v: ProjectView,
    description: Option<Seq<char>>,
    status: Option<Seq<char>>,
    add: Seq<Seq<char>>,
    remove: Seq<Seq<char>>,
    gitlab_url: Option<Seq<char>>,
) -> Result<ProjectView, DomainErrorView> {
    let v1 = match description {
        Some(d) => ProjectView { description: d, ..v },
        None => v,
    };
    match status_step(v1, status) {
        Err(e) => Err(e),
        Ok(v2) => match add_framework_steps(v2, add) {
            Err(e) => Err(e),
            Ok(v3) => {
                let v4 = remove_framework_steps(v3, remove);
                Ok(
                    match gitlab_url {
                        Some(u) => ProjectView { gitlab_url: Some(u), ..v4 },
                        None => v4,
                    },
                )
            },
        },
    }
}

pub open spec fn option_view(o: Option<String>) -> Option<Seq<char>> {
    match o {
        Some(s) => Some(s@),
        None => None,
    }
}

/// Once an addition is refused, the later additions do not change the outcome.
pub proof fn lemma_refusal_stays(v: ProjectView, fs: Seq<Seq<char>>, k: int, n: int)
    requires
        0 <= k <= n <= fs.len(),
        add_framework_steps(v, fs.take(k)) is Err,
    ensures
        add_framework_steps(v, fs.take(n)) == add_framework_steps(v, fs.take(k)),
    decreases n - k,
{
    if n > k {
        lemma_refusal_stays(v, fs, k, n - 1);
        assert(fs.take(n).drop_last() =~= fs.take(n - 1));
    }
}

/// Whether an update changes anything, and so records the modification
/// time: a description, a status, a framework to add or a repository link is
/// given, or a framework to remove is listed by the project.
pub open spec fn update_touches(
    v: ProjectView,
    description: Option<Seq<char>>,
    status: Option<Seq<char>>,
    add: Seq<Seq<char>>,
    remove: Seq<Seq<char>>,
    gitlab_url: Option<Seq<char>>,
) -> bool {
    ||| description is Some
    ||| status is Some
    ||| add.len() > 0
    ||| gitlab_url is Some
    ||| exists|k: int| 0 <= k < remove.len() && v.frameworks.contains(#[trigger] remove[k])
}

/// Applies the changes of an update command to the project it names; when
/// the update changes anything (see [`update_touches`]), `now` becomes the
/// modification time.
pub fn apply_update(project: Project, command: UpdateProjectCommand, now: &Timestamp) -> (r: Result<
    Project,
    ApplicationError,
>)
    ensures
        match update_outcome(
            project@,
            option_view(command.description),
            option_view(command.status),
            string_views(command.add_frameworks@),
            string_views(command.remove_frameworks@),
            option_view(command.gitlab_url),
        ) {
            Ok(w) => r matches Ok(p) && same_but_updated(p@, w) && p@.updated_at == if update_touches(
                project@,
                option_view(command.description),
                option_view(command.status),
                string_views(command.add_frameworks@),
                string_views(command.remove_frameworks@),
                option_view(command.gitlab_url),
            ) {
                now@
            } else {
                project@.updated_at
            },
            Err(e) => r matches Err(ApplicationError::Domain(d)) && d@ == e,
        },
{
    let mut project = project;
    let ghost v = project@;
    let ghost adds = string_views(command.add_frameworks@);
    let ghost removes = string_views(command.remove_frameworks@);
    if let Some(description) = &command.description {
        project.set_description(description.as_str(), now);
    }
    let ghost v1 = match command.description {
        Some(d) => ProjectView { description: d@, ..v },
        None => v,
    };
    if let Some(status_text) = &command.status {
        let status = match Status::parse(status_text.as_str()) {
            Ok(s) => s,
            Err(e) => return Err(ApplicationError::Domain(e)),
        };
        match project.set_status(status, now) {
            Ok(()) => {},
            Err(e) => return Err(ApplicationError::Domain(e)),
        }
    }
    let ghost v2 = status_step(v1, option_view(command.status))->Ok_0;
    let ghost t2 = command.description is Some || command.status is Some;
    let mut i: usize = 0;
    #[verifier::loop_isolation(false)]
    while i < command.add_frameworks.len()
        invariant
            i <= command.add_frameworks@.len(),
            adds == string_views(command.add_frameworks@),
            status_step(v1, option_view(command.status)) is Ok,
            add_framework_steps(v2, adds.take(i as int)) matches Ok(w) && same_but_updated(project@, w),
            project@.updated_at == if t2 || i > 0 { now@ } else { v.updated_at },
        decreases command.add_frameworks@.len() - i,
    {
        proof {
            assert(adds.take(i + 1).drop_last() =~= adds.take(i as int));
            assert(adds.take(i + 1).last() == command.add_frameworks@[i as int]@);
        }
        match project.add_framework(command.add_frameworks[i].as_str(), now) {
            Ok(()) => {},
            Err(e) => {
                proof {
                    let k = i as int + 1;
                    assert(add_framework_steps(v2, adds.take(k)) == Err::<ProjectView, DomainErrorView>(e@));
                    lemma_refusal_stays(v2, adds, k, adds.len() as int);
                    assert(adds.take(adds.len() as int) =~= adds);
                    assert(add_framework_steps(v2, adds) == Err::<ProjectView, DomainErrorView>(e@));
                    assert(update_outcome(
                        v,
                        option_view(command.description),
                        option_view(command.status),
                        adds,
                        removes,
                        option_view(command.gitlab_url),
                    ) == Err::<ProjectView, DomainErrorView>(e@));
                }
                return Err(ApplicationError::Domain(e));
            },
        }
        i = i + 1;
    }
    proof {
        assert(adds.take(adds.len() as int) =~= adds);
    }
    let ghost v3 = add_framework_steps(v2, adds)->Ok_0;
    let ghost t3 = t2 || adds.len() > 0;
    proof {
        if !t3 {
            assert(adds =~= Seq::<Seq<char>>::empty());
            assert(v3 == v);
        }
    }
    let ghost mut rt = false;
    let mut j: usize = 0;
    while j < command.remove_frameworks.len()
        invariant
            j <= command.remove_frameworks@.len(),
            removes == string_views(command.remove_frameworks@),
            same_but_updated(project@, remove_framework_steps(v3, removes.take(j as int))),
            !t3 ==> v3 == v,
            !t3 ==> (rt == exists|k: int| 0 <= k < j && v.frameworks.contains(#[trigger] removes[k])),
            !t3 && !rt ==> project@.frameworks == v.frameworks,
            project@.updated_at == if t3 || rt { now@ } else { v.updated_at },
        decreases command.remove_frameworks@.len() - j,
    {
        proof {
            assert(removes.take(j + 1).drop_last() =~= removes.take(j as int));
            assert(removes.take(j + 1).last() == command.remove_frameworks@[j as int]@);
        }
        let ghost before_view = project@;
        let ghost fw = project@.frameworks;
        let ghost x = command.remove_frameworks@[j as int]@;
        let removed = project.remove_framework(command.remove_frameworks[j].as_str(), now);
        proof {
            if !t3 {
                assert(rt || removed <==> exists|k: int| 0 <= k < j + 1 && v.frameworks.contains(#[trigger] removes[k])) by {
                    if exists|k: int| 0 <= k < j + 1 && v.frameworks.contains(#[trigger] removes[k]) {
                        let k = choose|k: int| 0 <= k < j + 1 && v.frameworks.contains(#[trigger] removes[k]);
                        if k == j && !rt {
                            assert(removed);
                        }
                    }
                    if removed && !rt {
                        assert(v.frameworks.contains(removes[j as int]));
                    }
                }
            }
            rt = rt || removed;
            if removed {
                let k = choose|k: int|
                    0 <= k < fw.len() && fw[k] == x && (forall|q: int| 0 <= q < k ==> fw[q] != x)
                        && same_but_updated(
                        project@,
                        (ProjectView { frameworks: seq_without(fw, k), ..before_view }),
                    );
                lemma_remove_first_at(fw, x, k);
            } else {
                lemma_remove_first_absent(fw, x);
            }
        }
        j = j + 1;
    }
    proof {
        assert(removes.take(removes.len() as int) =~= removes);
    }
    if let Some(url) = &command.gitlab_url {
        project.set_gitlab_url(url.as_str(), now);
    }
    proof {
        if !t3 {
            assert(rt == exists|k: int| 0 <= k < removes.len() && v.frameworks.contains(#[trigger] removes[k]));
        }
    }
    Ok(project)
}

/// A new project is refused when its identifier is taken.
pub fn refuse_duplicate(id: &ProjectId, already_exists: bool) -> (r: Result<(), ApplicationError>)
    ensures
        (r is Ok) <==> !already_exists,
        r is Err ==> (r matches Err(ApplicationError::ProjectAlreadyExists(m)) && m@ == id@),
{
    if already_exists {
        return Err(ApplicationError::ProjectAlreadyExists(owned(id.as_str())));
    }
    Ok(())
}

/// What creating a project makes on disk, in order: its directories, then
/// its build files and its documentation files, and the ignore list written
/// when a new repository is started for it.
pub struct CreationPlan {
    pub directories: Vec<String>,
    pub files: Vec<(String, String)>,
    pub gitignore: (String, String),
}

/// What creating `project` makes on disk (see [`directory_structure`],
/// [`build_config_files`], [`documentation_file_contents`] and
/// [`gitignore_file`]).
pub fn creation_plan(project: &Project) -> (r: CreationPlan)
    ensures
        string_views(r.directories@) == scaffold_directories(project@),
        file_views(r.files@) == build_files(project@) + documentation_files(project@),
        r.gitignore.0@ == path_join(project@.path, ".gitignore"@),
        r.gitignore.1@ == gitignore_text(project@.language),
{
    let directories = directory_structure(project);
    let mut files = build_config_files(project);
    let mut docs = documentation_file_contents(project);
    let ghost (b, d) = (files@, docs@);
    files.append(&mut docs);
    proof {
        assert(files@ == b + d);
        assert(file_views(files@) =~= file_views(b) + file_views(d));
    }
    let gitignore = gitignore_file(project);
    CreationPlan { directories, files, gitignore }
}

/// An update of a project that could not be found is refused; else the
/// command's changes are applied to it at `now` (see [`apply_update`]).
pub fn update_found(found: Option<Project>, command: UpdateProjectCommand, now: &Timestamp) -> (r:
    Result<Project, ApplicationError>)
    ensures
        match found {
            None => r matches Err(ApplicationError::ProjectNotFound(m)) && m@ == command.project_id@,
            Some(p) => match update_outcome(
                p@,
                option_view(command.description),
                option_view(command.status),
                string_views(command.add_frameworks@),
                string_views(command.remove_frameworks@),
                option_view(command.gitlab_url),
            ) {
                Ok(w) => r matches Ok(q) && same_but_updated(q@, w) && q@.updated_at
                    == if update_touches(
                    p@,
                    option_view(command.description),
                    option_view(command.status),
                    string_views(command.add_frameworks@),
                    string_views(command.remove_frameworks@),
                    option_view(command.gitlab_url),
                ) {
                    now@
                } else {
                    p@.updated_at
                },
                Err(e) => r matches Err(ApplicationError::Domain(d)) && d@ == e,
            },
        },
{
    match found {
        None => Err(ApplicationError::ProjectNotFound(command.project_id.clone())),
        Some(p) => apply_update(p, command, now),
    }
}

/// A deletion of a project that does not exist is refused, naming the
/// identifier as it was given.
pub fn refuse_missing(project_id: &str, exists: bool) -> (r: Result<(), ApplicationError>)
    ensures
        (r is Ok) <==> exists,
        r is Err ==> (r matches Err(ApplicationError::ProjectNotFound(m)) && m@ == project_id@),
{
    if !exists {
        return Err(ApplicationError::ProjectNotFound(owned(project_id)));
    }
    Ok(())
}

} // verus!

//! Project creation over plain project records: from a name and the names
//! of a language and an architecture, the identifier and directory of the
//! new project, the directories to make, and the files to write.
use vstd::prelude::*;
use vstd::string::*;
use crate::application::services::project_service::{kotlin_build_script, kotlin_build_script_text};
use crate::domain::models::enums::str_views;
use crate::domain::models::timestamp::Timestamp;
use crate::models::{
    Architecture, Language, Project, Status, architecture_display, architecture_named,
    language_display, language_named,
};
use crate::text::{
    chars_of, concat, join_path, owned, path_join, string_from_chars, string_views, to_lowercase,
    unicode_lowercase,
};

verus! {

/// `s` with every space turned into a hyphen.
pub open spec fn spaces_to_hyphens(s: Seq<char>) -> Seq<char> {
    s.map_values(|c: char| if c == ' ' { '-' } else { c })
}

/// The identifier of a project named `name`: the name lowercased, spaces
/// turned into hyphens.
pub open spec fn slug_of_name(name: Seq<char>) -> Seq<char> {
    spaces_to_hyphens(unicode_lowercase(name))
}

/// What a creation request names, once read: the project's identifier and
/// directory, its language and its architecture.
pub struct NewProject {
    pub id: String,
    pub path: String,
    pub language: Language,
    pub architecture: Architecture,
}

/// Why a creation request is refused, if it is: the language first, then
/// the architecture, each named as it was given.
pub open spec fn request_problem(language: Seq<char>, architecture: Seq<char>) -> Option<Seq<char>> {
    if language_named(unicode_lowercase(language)) is None {
        Some("Invalid language: "@ + language)
    } else if architecture_named(unicode_lowercase(architecture)) is None {
        Some("Invalid architecture: "@ + architecture)
    } else {
        None
    }
}

/// The directories under the source base of each architecture, in order.
pub open spec fn layout_dirs(a: Architecture) -> Seq<Seq<char>> {
    match a {
        Architecture::Hexagonal => seq![
            "domain/model"@,
            "domain/ports/input"@,
            "domain/ports/output"@,
            "application"@,
            "infrastructure/adapters"@,
        ],
        Architecture::Onion => seq![
            "domain/core"@,
            "domain/services"@,
            "infrastructure"@,
            "presentation"@,
        ],
        Architecture::Layered => seq![
            "presentation"@,
            "application"@,
            "domain"@,
            "infrastructure"@,
        ],
        Architecture::Pipeline => seq!["ingestion"@, "processing"@, "output"@],
        Architecture::Microkernel => seq!["core"@, "plugins"@],
    }
}

/// Where the sources go, relative to the project directory: the Maven
/// layout for Kotlin and Java, and two levels up for Rust.
pub open spec fn source_base(l: Language) -> Seq<char> {
    match l {
        Language::Kotlin => "src/main/kotlin"@,
        Language::Java => "src/main/java"@,
        Language::Rust => "../.."@,
    }
}

/// The directories made for a new project, in order: the project directory,
/// each directory of the architecture under the source base, and `docs`
/// three levels above the project directory.
pub open spec fn structure_dirs(path: Seq<char>, a: Architecture, l: Language) -> Seq<Seq<char>> {
    let base = path_join(path, source_base(l));
    seq![path] + layout_dirs(a).map_values(|d: Seq<char>| path_join(base, d)) + seq![
        path_join(path, "../../../docs"@),
    ]
}

pub open spec fn maven_descriptor(id: Seq<char>) -> Seq<char> {
    "<?xml version=\"1.0\"?>\n<project xmlns=\"http://maven.apache.org/POM/4.0.0\">\n    <modelVersion>4.0.0</modelVersion>\n    <groupId>com.portfolio</groupId>\n    <artifactId>"@ + id + "</artifactId>\n    <version>0.1.0</version>\n</project>\n"@
}

pub open spec fn cargo_manifest(id: Seq<char>) -> Seq<char> {
    "[package]\nname = \""@ + id + "\"\nversion = \"0.1.0\"\nedition = \"2021\"\n\n[dependencies]\n"@
}

/// The build files of a new project, as (path, content): the Gradle build
/// and settings for Kotlin, the Maven descriptor for Java, and the Cargo
/// manifest three levels above the project directory for Rust.
pub open spec fn build_config(path: Seq<char>, l: Language, id: Seq<char>) -> Seq<(Seq<char>, Seq<char>)> {
    match l {
        Language::Kotlin => seq![
            (path_join(path, "build.gradle.kts"@), kotlin_build_script()),
            (path_join(path, "settings.gradle.kts"@), "rootProject.name = \""@ + id + "\""@),
        ],
        Language::Java => seq![(path_join(path, "pom.xml"@), maven_descriptor(id))],
        Language::Rust => seq![(path_join(path, "../../../Cargo.toml"@), cargo_manifest(id))],
    }
}

/// The README of a new project.
pub open spec fn readme(name: Seq<char>, description: Seq<char>, a: Architecture, l: Language) -> Seq<char> {
    "# "@ + name + "\n\n## Description\n\n"@ + description + "\n\n## Architecture\n\nThis project follows **"@ + architecture_display(a) + "** architecture.\n\n## Technology Stack\n\n- **Language**: "@ + language_display(l) + "\n- **Architecture**: "@ + architecture_display(a) + "\n\n## Getting Started\n\n### Prerequisites\n\nInstall required tools for "@ + language_display(l) + " development.\n\n### Running\n\nInstructions for running the project.\n\n## Documentation\n\nSee `ARCHITECTURE.md` for detailed architecture documentation.\n"@
}

/// The architecture document of a new project.
pub open spec fn architecture_doc(a: Architecture) -> Seq<char> {
    "# Architecture Documentation\n\n## Overview\n\nThis project implements "@ + architecture_display(a) + " architecture.\n\n## Design Decisions\n\nKey architectural decisions and their rationale.\n\n## Components\n\nDescription of main components and their responsibilities.\n"@
}

/// The description written into the README: the given one, or a
/// placeholder.
pub open spec fn readme_description(description: Option<Seq<char>>) -> Seq<char> {
    match description {
        Some(d) => d,
        None => "Project description"@,
    }
}

/// The documentation files of a new project, as (path, content).
pub open spec fn documentation(
    path: Seq<char>,
    name: Seq<char>,
    a: Architecture,
    l: Language,
    description: Option<Seq<char>>,
) -> Seq<(Seq<char>, Seq<char>)> {
    seq![
        (path_join(path, "README.md"@), readme(name, readme_description(description), a, l)),
        (path_join(path, "ARCHITECTURE.md"@), architecture_doc(a)),
    ]
}

/// The ignore list written for a new project: Rust's when a Cargo manifest
/// can be read three levels above the project directory, else the JVM one.
pub open spec fn ignore_list(cargo_manifest_found: bool) -> Seq<char> {
    if cargo_manifest_found {
        "target/\n*.lock\n"@
    } else {
        "build/\n.gradle/\ntarget/\n*.class\n"@
    }
}

pub open spec fn file_views(s: Seq<(String, String)>) -> Seq<(Seq<char>, Seq<char>)> {
    s.map_values(|f: (String, String)| (f.0@, f.1@))
}

pub open spec fn opt_str_view(o: Option<&str>) -> Option<Seq<char>> {
    match o {
        Some(s) => Some(s@),
        None => None,
    }
}

/// The identifier of a project named `name`: the name lowercased, spaces
/// turned into hyphens.
pub fn project_id_for(name: &str) -> (r: String)
    ensures
        r@ == slug_of_name(name@),
{
    let lowered = to_lowercase(name);
    let cs = chars_of(lowered.as_str());
    let mut out: Vec<char> = Vec::new();
    let mut i: usize = 0;
    while i < cs.len()
        invariant
            i <= cs.len(),
            out@ == spaces_to_hyphens(cs@.take(i as int)),
        decreases cs.len() - i,
    {
        let c = cs[i];
        if c == ' ' {
            out.push('-');
        } else {
            out.push(c);
        }
        proof {
            assert(out@ =~= spaces_to_hyphens(cs@.take(i + 1)));
        }
        i = i + 1;
    }
    proof {
        assert(cs@.take(cs@.len() as int) =~= cs@);
    }
    string_from_chars(&out)
}

/// Reads a creation request: the language, then the architecture (each
/// refusal names what was given), then the identifier and the directory of
/// the new project under the portfolio root.
pub fn read_request(portfolio_root: &str, name: &str, language: &str, architecture: &str) -> (r: Result<
    NewProject,
    String,
>)
    ensures
        match request_problem(language@, architecture@) {
            Some(m) => r matches Err(e) && e@ == m,
            None => r matches Ok(p) && {
                &&& Some(p.language) == language_named(unicode_lowercase(language@))
                &&& Some(p.architecture) == architecture_named(unicode_lowercase(architecture@))
                &&& p.id@ == slug_of_name(name@)
                &&& p.path@ == path_join(portfolio_root@, slug_of_name(name@))
            },
        },
{
    let lang = match Language::from_str(language) {
        Some(l) => l,
        None => return Err(concat("Invalid language: ", language)),
    };
    let arch = match Architecture::from_str(architecture) {
        Some(a) => a,
        None => return Err(concat("Invalid architecture: ", architecture)),
    };
    let id = project_id_for(name);
    let path = join_path(portfolio_root, id.as_str());
    Ok(NewProject { id, path, language: lang, architecture: arch })
}

/// Where the sources go, relative to the project directory.
pub fn source_base_of(lang: Language) -> (r: &'static str)
    ensures
        r@ == source_base(lang),
{
    match lang {
        Language::Kotlin => "src/main/kotlin",
        Language::Java => "src/main/java",
        Language::Rust => "../..",
    }
}

/// The directories under the source base of an architecture, in order.
pub fn layout_of(arch: Architecture) -> (r: &'static [&'static str])
    ensures
        str_views(r@) == layout_dirs(arch),
{
    let r: &'static [&'static str] = match arch {
        Architecture::Hexagonal => &[
            "domain/model",
            "domain/ports/input",
            "domain/ports/output",
            "application",
            "infrastructure/adapters",
        ],
        Architecture::Onion => &["domain/core", "domain/services", "infrastructure", "presentation"],
        Architecture::Layered => &["presentation", "application", "domain", "infrastructure"],
        Architecture::Pipeline => &["ingestion", "processing", "output"],
        Architecture::Microkernel => &["core", "plugins"],
    };
    proof {
        assert(str_views(r@) =~= layout_dirs(arch));
    }
    r
}

/// The directories made for a new project, in order.
pub fn create_structure(path: &str, arch: Architecture, lang: Language) -> (r: Vec<String>)
    ensures
        string_views(r@) == structure_dirs(path@, arch, lang),
{
    let src_base = join_path(path, source_base_of(lang));
    let layout = layout_of(arch);
    let ghost ls = layout_dirs(arch);
    let mut dirs: Vec<String> = Vec::new();
    dirs.push(owned(path));
    let mut i: usize = 0;
    while i < layout.len()
        invariant
            i <= layout@.len(),
            str_views(layout@) == ls,
            src_base@ == path_join(path@, source_base(lang)),
            dirs@.len() == i + 1,
            string_views(dirs@) == seq![path@] + ls.take(i as int).map_values(
                |d: Seq<char>| path_join(src_base@, d),
            ),
        decreases layout@.len() - i,
    {
        let d = join_path(src_base.as_str(), layout[i]);
        let ghost before = dirs@;
        dirs.push(d);
        proof {
            assert(ls[i as int] == layout@[i as int]@);
            let want = seq![path@] + ls.take(i + 1).map_values(|x: Seq<char>| path_join(src_base@, x));
            let had = seq![path@] + ls.take(i as int).map_values(|x: Seq<char>| path_join(src_base@, x));
            assert forall|k: int| 0 <= k < dirs@.len() implies #[trigger] string_views(dirs@)[k] == want[k] by {
                if k <= i {
                    assert(dirs@[k] == before[k]);
                    assert(string_views(before)[k] == had[k]);
                } else {
                    assert(dirs@[k] == d);
                }
            }
            assert(string_views(dirs@) =~= want);
        }
        i = i + 1;
    }
    dirs.push(join_path(path, "../../../docs"));
    proof {
        assert(ls.take(ls.len() as int) =~= ls);
        assert(string_views(dirs@) =~= structure_dirs(path@, arch, lang));
    }
    dirs
}

/// The build files of a new project, as (path, content).
pub fn create_build_config(path: &str, lang: Language, project_id: &str) -> (r: Vec<(String, String)>)
    ensures
        file_views(r@) == build_config(path@, lang, project_id@),
{
    let mut files: Vec<(String, String)> = Vec::new();
    match lang {
        Language::Kotlin => {
            files.push((join_path(path, "build.gradle.kts"), owned(kotlin_build_script_text())));
            let mut settings = owned("rootProject.name = \"");
            settings.append(project_id);
            settings.append("\"");
            files.push((join_path(path, "settings.gradle.kts"), settings));
        },
        Language::Java => {
            let mut pom = owned("<?xml version=\"1.0\"?>\n<project xmlns=\"http://maven.apache.org/POM/4.0.0\">\n    <modelVersion>4.0.0</modelVersion>\n    <groupId>com.portfolio</groupId>\n    <artifactId>");
            pom.append(project_id);
            pom.append("</artifactId>\n    <version>0.1.0</version>\n</project>\n");
            files.push((join_path(path, "pom.xml"), pom));
        },
        Language::Rust => {
            let mut cargo = owned("[package]\nname = \"");
            cargo.append(project_id);
            cargo.append("\"\nversion = \"0.1.0\"\nedition = \"2021\"\n\n[dependencies]\n");
            files.push((join_path(path, "../../../Cargo.toml"), cargo));
        },
    }
    proof {
        assert(file_views(files@) =~= build_config(path@, lang, project_id@));
    }
    files
}

/// The documentation files of a new project, as (path, content).
pub fn create_documentation(
    path: &str,
    name: &str,
    arch: Architecture,
    lang: Language,
    description: Option<&str>,
) -> (r: Vec<(String, String)>)
    ensures
        file_views(r@) == documentation(path@, name@, arch, lang, opt_str_view(description)),
{
    let desc = match description {
        Some(d) => d,
        None => "Project description",
    };
    let mut readme = owned("# ");
    readme.append(name);
    readme.append("\n\n## Description\n\n");
    readme.append(desc);
    readme.append("\n\n## Architecture\n\nThis project follows **");
    readme.append(arch.display_name());
    readme.append("** architecture.\n\n## Technology Stack\n\n- **Language**: ");
    readme.append(lang.display_name());
    readme.append("\n- **Architecture**: ");
    readme.append(arch.display_name());
    readme.append("\n\n## Getting Started\n\n### Prerequisites\n\nInstall required tools for ");
    readme.append(lang.display_name());
    readme.append(" development.\n\n### Running\n\nInstructions for running the project.\n\n## Documentation\n\nSee `ARCHITECTURE.md` for detailed architecture documentation.\n");
    let mut architecture_doc = owned("# Architecture Documentation\n\n## Overview\n\nThis project implements ");
    architecture_doc.append(arch.display_name());
    architecture_doc.append(" architecture.\n\n## Design Decisions\n\nKey architectural decisions and their rationale.\n\n## Components\n\nDescription of main components and their responsibilities.\n");
    let mut files: Vec<(String, String)> = Vec::new();
    files.push((join_path(path, "README.md"), readme));
    files.push((join_path(path, "ARCHITECTURE.md"), architecture_doc));
    proof {
        assert(file_views(files@) =~= documentation(path@, name@, arch, lang, opt_str_view(description)));
    }
    files
}

/// Where a new project looks for a Cargo manifest to choose its ignore list.
pub fn cargo_manifest_path(path: &str) -> (r: String)
    ensures
        r@ == path_join(path@, "../../../Cargo.toml"@),
{
    join_path(path, "../../../Cargo.toml")
}

/// The ignore list of a new project, as (path, content), given whether a
/// Cargo manifest could be read at [`cargo_manifest_path`].
pub fn gitignore_file(path: &str, cargo_manifest_found: bool) -> (r: (String, String))
    ensures
        r.0@ == path_join(path@, "../../../.gitignore"@),
        r.1@ == ignore_list(cargo_manifest_found),
{
    let content = if cargo_manifest_found {
        "target/\n*.lock\n"
    } else {
        "build/\n.gradle/\ntarget/\n*.class\n"
    };
    (join_path(path, "../../../.gitignore"), owned(content))
}

/// The metadata of a new project, and where it is written: the project is
/// in progress, has no frameworks and no GitLab address, and was created
/// and updated at `now`.
pub fn project_metadata(
    path: &str,
    name: &str,
    id: &str,
    lang: Language,
    arch: Architecture,
    description: Option<&str>,
    now: &Timestamp,
) -> (r: (String, Project))
    ensures
        r.0@ == path_join(path@, "../../../project.toml"@),
        r.1.id@ == id@,
        r.1.name@ == name@,
        r.1.description@ == match description {
            Some(d) => d@,
            None => Seq::<char>::empty(),
        },
        r.1.language == lang,
        r.1.architecture == arch,
        r.1.path@ == path@,
        r.1.status == Status::InProgress,
        r.1.frameworks@.len() == 0,
        r.1.gitlab_url is None,
        r.1.created_at@ == now@,
        r.1.updated_at@ == now@,
{
    let description = match description {
        Some(d) => owned(d),
        None => String::new(),
    };
    let project = Project {
        id: owned(id),
        name: owned(name),
        description,
        language: lang,
        architecture: arch,
        path: owned(path),
        status: Status::InProgress,
        frameworks: Vec::new(),
        gitlab_url: None,
        created_at: now.clone(),
        updated_at: now.clone(),
    };
    (join_path(path, "../../../project.toml"), project)
}

} // verus!

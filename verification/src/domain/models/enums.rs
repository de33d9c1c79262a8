//! Languages, architectures and project statuses.
use vstd::prelude::*;
use vstd::string::*;
use crate::domain::errors::{DomainError, DomainErrorView};
use crate::text::{owned, to_lowercase, text_eq, chars_of, string_from_chars, unicode_lowercase, ascii_lowercase};

verus! {

/// Programming language of a project.
#[derive(Debug, Clone, Copy, PartialEq, Eq, Hash, Structural)]
pub enum Language {
    Kotlin,
    Java,
    Rust,
}

/// The language a lowercased name stands for.
pub open spec fn language_named(t: Seq<char>) -> Option<Language> {
    if t == "kotlin"@ || t == "kt"@ {
        Some(Language::Kotlin)
    } else if t == "java"@ {
        Some(Language::Java)
    } else if t == "rust"@ || t == "rs"@ {
        Some(Language::Rust)
    } else {
        None
    }
}

/// How a language is written for people.
pub open spec fn language_display(l: Language) -> Seq<char> {
    match l {
        Language::Kotlin => "Kotlin"@,
        Language::Java => "Java"@,
        Language::Rust => "Rust"@,
    }
}

pub open spec fn language_extension(l: Language) -> Seq<char> {
    match l {
        Language::Kotlin => "kt"@,
        Language::Java => "java"@,
        Language::Rust => "rs"@,
    }
}

pub open spec fn language_source_directory(l: Language) -> Seq<char> {
    match l {
        Language::Kotlin => "src/main/kotlin"@,
        Language::Java => "src/main/java"@,
        Language::Rust => "src"@,
    }
}

pub open spec fn language_build_file(l: Language) -> Seq<char> {
    match l {
        Language::Kotlin | Language::Java => "build.gradle.kts"@,
        Language::Rust => "Cargo.toml"@,
    }
}

impl Language {
    /// Every language, in declaration order.
    pub fn all() -> (r: &'static [Language])
        ensures
            r@ == seq![Language::Kotlin, Language::Java, Language::Rust],
    {
        let r: &'static [Language] = &[Language::Kotlin, Language::Java, Language::Rust];
        r
    }

    /// Usual file extension of source files.
    pub fn file_extension(&self) -> (r: &'static str)
        ensures
            r@ == language_extension(*self),
    {
        match self {
            Language::Kotlin => "kt",
            Language::Java => "java",
            Language::Rust => "rs",
        }
    }

    /// Usual directory of the sources, relative to the project root.
    pub fn source_directory(&self) -> (r: &'static str)
        ensures
            r@ == language_source_directory(*self),
    {
        match self {
            Language::Kotlin => "src/main/kotlin",
            Language::Java => "src/main/java",
            Language::Rust => "src",
        }
    }

    /// Name of the build file.
    pub fn build_file(&self) -> (r: &'static str)
        ensures
            r@ == language_build_file(*self),
    {
        match self {
            Language::Kotlin | Language::Java => "build.gradle.kts",
            Language::Rust => "Cargo.toml",
        }
    }

    /// How the language is written for people.
    pub fn display_name(&self) -> (r: &'static str)
        ensures
            r@ == language_display(*self),
    {
        match self {
            Language::Kotlin => "Kotlin",
            Language::Java => "Java",
            Language::Rust => "Rust",
        }
    }

    /// How the language is written for people, owned.
    pub fn to_string(&self) -> (r: String)
        ensures
            r@ == language_display(*self),
    {
        owned(self.display_name())
    }

    /// The language that an already lowercased name stands for.
    pub fn from_lowercase(t: &str) -> (r: Option<Language>)
        ensures
            r == language_named(t@),
    {
        if text_eq(t, "kotlin") || text_eq(t, "kt") {
            Some(Language::Kotlin)
        } else if text_eq(t, "java") {
            Some(Language::Java)
        } else if text_eq(t, "rust") || text_eq(t, "rs") {
            Some(Language::Rust)
        } else {
            None
        }
    }

    /// Reads a language name, whatever its case: `kotlin` or `kt`, `java`,
    /// `rust` or `rs`.
    pub fn parse(s: &str) -> (r: Result<Language, DomainError>)
        ensures
            match r {
                Ok(l) => language_named(unicode_lowercase(s@)) == Some(l),
                Err(e) => language_named(unicode_lowercase(s@)) is None
                    && e@ == DomainErrorView::InvalidLanguage(s@),
            },
            vstd::utf8::is_ascii_chars(s@) ==> match r {
                Ok(l) => language_named(ascii_lowercase(s@)) == Some(l),
                Err(_) => language_named(ascii_lowercase(s@)) is None,
            },
    {
        let lowered = to_lowercase(s);
        match Language::from_lowercase(lowered.as_str()) {
            Some(l) => Ok(l),
            None => Err(DomainError::InvalidLanguage(owned(s))),
        }
    }
}

impl std::str::FromStr for Language {
    type Err = DomainError;

    /// Reads a language name as [`Language::parse`] does.
    fn from_str(s: &str) -> (r: Result<Self, Self::Err>)
        ensures
            match r {
                Ok(l) => language_named(unicode_lowercase(s@)) == Some(l),
                Err(e) => language_named(unicode_lowercase(s@)) is None
                    && e@ == DomainErrorView::InvalidLanguage(s@),
            },
            vstd::utf8::is_ascii_chars(s@) ==> match r {
                Ok(l) => language_named(ascii_lowercase(s@)) == Some(l),
                Err(_) => language_named(ascii_lowercase(s@)) is None,
            },
    {
        Language::parse(s)
    }
}

/// Software architecture pattern of a project.
#[derive(Debug, Clone, Copy, PartialEq, Eq, Hash, Structural)]
pub enum Architecture {
    Hexagonal,
    Onion,
    Layered,
    Pipeline,
    Microkernel,
}

/// The architecture a lowercased name stands for.
pub open spec fn architecture_named(t: Seq<char>) -> Option<Architecture> {
    if t == "hexagonal"@ || t == "ports-and-adapters"@ {
        Some(Architecture::Hexagonal)
    } else if t == "onion"@ {
        Some(Architecture::Onion)
    } else if t == "layered"@ || t == "n-tier"@ {
        Some(Architecture::Layered)
    } else if t == "pipeline"@ || t == "pipes-and-filters"@ {
        Some(Architecture::Pipeline)
    } else if t == "microkernel"@ || t == "plug-in"@ {
        Some(Architecture::Microkernel)
    } else {
        None
    }
}

pub open spec fn architecture_display(a: Architecture) -> Seq<char> {
    match a {
        Architecture::Hexagonal => "Hexagonal"@,
        Architecture::Onion => "Onion"@,
        Architecture::Layered => "Layered"@,
        Architecture::Pipeline => "Pipeline"@,
        Architecture::Microkernel => "Microkernel"@,
    }
}

pub open spec fn architecture_description(a: Architecture) -> Seq<char> {
    match a {
        Architecture::Hexagonal => "Ports and Adapters pattern with domain at the center"@,
        Architecture::Onion => "Concentric layers with dependencies pointing inward"@,
        Architecture::Layered => "Traditional N-tier architecture with clear layer separation"@,
        Architecture::Pipeline => "Data flows through sequential processing stages"@,
        Architecture::Microkernel => "Minimal core with plugin-based extensions"@,
    }
}

/// The layer directories usual for an architecture, in order.
pub open spec fn architecture_layers(a: Architecture) -> Seq<Seq<char>> {
    match a {
        Architecture::Hexagonal => seq![
            "domain/model"@,
            "domain/ports/input"@,
            "domain/ports/output"@,
            "application"@,
            "infrastructure/adapters"@,
        ],
        Architecture::Onion => seq![
            "domain/core"@,
            "domain/services"@,
            "infrastructure"@,
            "presentation"@,
        ],
        Architecture::Layered => seq![
            "presentation"@,
            "application"@,
            "domain"@,
            "infrastructure"@,
        ],
        Architecture::Pipeline => seq!["ingestion"@, "processing"@, "output"@],
        Architecture::Microkernel => seq!["core"@, "plugins"@],
    }
}

/// The views of a sequence of string slices.
pub open spec fn str_views(s: Seq<&str>) -> Seq<Seq<char>> {
    s.map_values(|t: &str| t@)
}

impl Architecture {
    /// Every architecture, in declaration order.
    pub fn all() -> (r: &'static [Architecture])
        ensures
            r@ == seq![
                Architecture::Hexagonal,
                Architecture::Onion,
                Architecture::Layered,
                Architecture::Pipeline,
                Architecture::Microkernel,
            ],
    {
        let r: &'static [Architecture] = &[
            Architecture::Hexagonal,
            Architecture::Onion,
            Architecture::Layered,
            Architecture::Pipeline,
            Architecture::Microkernel,
        ];
        r
    }

    /// A one-sentence description of the pattern.
    pub fn description(&self) -> (r: &'static str)
        ensures
            r@ == architecture_description(*self),
    {
        match self {
            Architecture::Hexagonal => "Ports and Adapters pattern with domain at the center",
            Architecture::Onion => "Concentric layers with dependencies pointing inward",
            Architecture::Layered => "Traditional N-tier architecture with clear layer separation",
            Architecture::Pipeline => "Data flows through sequential processing stages",
            Architecture::Microkernel => "Minimal core with plugin-based extensions",
        }
    }

    /// The layer directories usual for this architecture, in order.
    pub fn typical_layers(&self) -> (r: &'static [&'static str])
        ensures
            str_views(r@) == architecture_layers(*self),
    {
        let r: &'static [&'static str] = match self {
            Architecture::Hexagonal => &[
                "domain/model",
                "domain/ports/input",
                "domain/ports/output",
                "application",
                "infrastructure/adapters",
            ],
            Architecture::Onion => &[
                "domain/core",
                "domain/services",
                "infrastructure",
                "presentation",
            ],
            Architecture::Layered => &["presentation", "application", "domain", "infrastructure"],
            Architecture::Pipeline => &["ingestion", "processing", "output"],
            Architecture::Microkernel => &["core", "plugins"],
        };
        proof {
            assert(str_views(r@) =~= architecture_layers(*self));
        }
        r
    }

    /// How the architecture is written for people.
    pub fn display_name(&self) -> (r: &'static str)
        ensures
            r@ == architecture_display(*self),
    {
        match self {
            Architecture::Hexagonal => "Hexagonal",
            Architecture::Onion => "Onion",
            Architecture::Layered => "Layered",
            Architecture::Pipeline => "Pipeline",
            Architecture::Microkernel => "Microkernel",
        }
    }

    /// How the architecture is written for people, owned.
    pub fn to_string(&self) -> (r: String)
        ensures
            r@ == architecture_display(*self),
    {
        owned(self.display_name())
    }

    /// The architecture that an already lowercased name stands for.
    pub fn from_lowercase(t: &str) -> (r: Option<Architecture>)
        ensures
            r == architecture_named(t@),
    {
        if text_eq(t, "hexagonal") || text_eq(t, "ports-and-adapters") {
            Some(Architecture::Hexagonal)
        } else if text_eq(t, "onion") {
            Some(Architecture::Onion)
        } else if text_eq(t, "layered") || text_eq(t, "n-tier") {
            Some(Architecture::Layered)
        } else if text_eq(t, "pipeline") || text_eq(t, "pipes-and-filters") {
            Some(Architecture::Pipeline)
        } else if text_eq(t, "microkernel") || text_eq(t, "plug-in") {
            Some(Architecture::Microkernel)
        } else {
            None
        }
    }

    /// Reads an architecture name, whatever its case.
    pub fn parse(s: &str) -> (r: Result<Architecture, DomainError>)
        ensures
            match r {
                Ok(a) => architecture_named(unicode_lowercase(s@)) == Some(a),
                Err(e) => architecture_named(unicode_lowercase(s@)) is None
                    && e@ == DomainErrorView::InvalidArchitecture(s@),
            },
            vstd::utf8::is_ascii_chars(s@) ==> match r {
                Ok(a) => architecture_named(ascii_lowercase(s@)) == Some(a),
                Err(_) => architecture_named(ascii_lowercase(s@)) is None,
            },
    {
        let lowered = to_lowercase(s);
        match Architecture::from_lowercase(lowered.as_str()) {
            Some(a) => Ok(a),
            None => Err(DomainError::InvalidArchitecture(owned(s))),
        }
    }
}

impl std::str::FromStr for Architecture {
    type Err = DomainError;

    /// Reads an architecture name as [`Architecture::parse`] does.
    fn from_str(s: &str) -> (r: Result<Self, Self::Err>)
        ensures
            match r {
                Ok(a) => architecture_named(unicode_lowercase(s@)) == Some(a),
                Err(e) => architecture_named(unicode_lowercase(s@)) is None
                    && e@ == DomainErrorView::InvalidArchitecture(s@),
            },
            vstd::utf8::is_ascii_chars(s@) ==> match r {
                Ok(a) => architecture_named(ascii_lowercase(s@)) == Some(a),
                Err(_) => architecture_named(ascii_lowercase(s@)) is None,
            },
    {
        Architecture::parse(s)
    }
}

/// Stage of a project in its life.
#[derive(Debug, Clone, Copy, PartialEq, Eq, Hash, Structural)]
pub enum Status {
    Planned,
    InProgress,
    Completed,
    Archived,
}

/// The moves between statuses that are allowed.
pub open spec fn transition_allowed(from: Status, to: Status) -> bool {
    match (from, to) {
        (Status::Planned, Status::InProgress) | (Status::Planned, Status::Archived) => true,
        (Status::InProgress, Status::Completed)
        | (Status::InProgress, Status::Planned)
        | (Status::InProgress, Status::Archived) => true,
        (Status::Completed, Status::Archived) | (Status::Completed, Status::InProgress) => true,
        (Status::Archived, Status::InProgress) | (Status::Archived, Status::Planned) => true,
        _ => false,
    }
}

/// `s` without hyphens, underscores and spaces.
pub open spec fn drop_separators(s: Seq<char>) -> Seq<char>
    decreases s.len(),
{
    if s.len() == 0 {
        s
    } else {
        let rest = drop_separators(s.drop_last());
        let c = s.last();
        if c == '-' || c == '_' || c == ' ' {
            rest
        } else {
            rest.push(c)
        }
    }
}

/// The status a normalized name (lowercase, no separators) stands for.
pub open spec fn status_named(t: Seq<char>) -> Option<Status> {
    if t == "planned"@ {
        Some(Status::Planned)
    } else if t == "inprogress"@ {
        Some(Status::InProgress)
    } else if t == "completed"@ {
        Some(Status::Completed)
    } else if t == "archived"@ {
        Some(Status::Archived)
    } else {
        None
    }
}

pub open spec fn status_display(s: Status) -> Seq<char> {
    match s {
        Status::Planned => "Planned"@,
        Status::InProgress => "In Progress"@,
        Status::Completed => "Completed"@,
        Status::Archived => "Archived"@,
    }
}

/// The variant's name as written in the source (its `Debug` form).
pub open spec fn status_variant_name(s: Status) -> Seq<char> {
    match s {
        Status::Planned => "Planned"@,
        Status::InProgress => "InProgress"@,
        Status::Completed => "Completed"@,
        Status::Archived => "Archived"@,
    }
}

pub open spec fn status_symbol(s: Status) -> Seq<char> {
    match s {
        Status::Planned => "○"@,
        Status::InProgress => "◐"@,
        Status::Completed => "✓"@,
        Status::Archived => "📦"@,
    }
}

impl Status {
    /// Every status, in declaration order.
    pub fn all() -> (r: &'static [Status])
        ensures
            r@ == seq![Status::Planned, Status::InProgress, Status::Completed, Status::Archived],
    {
        let r: &'static [Status] = &[
            Status::Planned,
            Status::InProgress,
            Status::Completed,
            Status::Archived,
        ];
        r
    }

    /// Whether a project in this status may move to `target`.
    pub fn can_transition_to(&self, target: Status) -> (r: bool)
        ensures
            r == transition_allowed(*self, target),
    {
        match (*self, target) {
            (Status::Planned, Status::InProgress) | (Status::Planned, Status::Archived) => true,
            (Status::InProgress, Status::Completed)
            | (Status::InProgress, Status::Planned)
            | (Status::InProgress, Status::Archived) => true,
            (Status::Completed, Status::Archived) | (Status::Completed, Status::InProgress) => true,
            (Status::Archived, Status::InProgress) | (Status::Archived, Status::Planned) => true,
            _ => false,
        }
    }

    /// A one-character symbol for the status.
    pub fn symbol(&self) -> (r: &'static str)
        ensures
            r@ == status_symbol(*self),
    {
        match self {
            Status::Planned => "○",
            Status::InProgress => "◐",
            Status::Completed => "✓",
            Status::Archived => "📦",
        }
    }

    /// How the status is written for people.
    pub fn display_name(&self) -> (r: &'static str)
        ensures
            r@ == status_display(*self),
    {
        match self {
            Status::Planned => "Planned",
            Status::InProgress => "In Progress",
            Status::Completed => "Completed",
            Status::Archived => "Archived",
        }
    }

    /// How the status is written for people, owned.
    pub fn to_string(&self) -> (r: String)
        ensures
            r@ == status_display(*self),
    {
        owned(self.display_name())
    }

    /// The variant's name as written in the source.
    pub fn variant_name(&self) -> (r: &'static str)
        ensures
            r@ == status_variant_name(*self),
    {
        match self {
            Status::Planned => "Planned",
            Status::InProgress => "InProgress",
            Status::Completed => "Completed",
            Status::Archived => "Archived",
        }
    }

    /// The status that a normalized name stands for.
    pub fn from_normalized(t: &str) -> (r: Option<Status>)
        ensures
            r == status_named(t@),
    {
        if text_eq(t, "planned") {
            Some(Status::Planned)
        } else if text_eq(t, "inprogress") {
            Some(Status::InProgress)
        } else if text_eq(t, "completed") {
            Some(Status::Completed)
        } else if text_eq(t, "archived") {
            Some(Status::Archived)
        } else {
            None
        }
    }

    /// Reads a status name, whatever its case and with any hyphens,
    /// underscores or spaces: `in-progress`, `In Progress` and `IN_PROGRESS`
    /// all stand for [`Status::InProgress`].
    pub fn parse(s: &str) -> (r: Result<Status, DomainError>)
        ensures
            match r {
                Ok(st) => status_named(drop_separators(unicode_lowercase(s@))) == Some(st),
                Err(e) => status_named(drop_separators(unicode_lowercase(s@))) is None
                    && e@ == DomainErrorView::InvalidStatus(s@),
            },
            vstd::utf8::is_ascii_chars(s@) ==> match r {
                Ok(st) => status_named(drop_separators(ascii_lowercase(s@))) == Some(st),
                Err(_) => status_named(drop_separators(ascii_lowercase(s@))) is None,
            },
    {
        let lowered = to_lowercase(s);
        let cs = chars_of(lowered.as_str());
        let mut kept: Vec<char> = Vec::new();
        let mut i: usize = 0;
        while i < cs.len()
            invariant
                i <= cs.len(),
                kept@ == drop_separators(cs@.take(i as int)),
            decreases cs.len() - i,
        {
            let c = cs[i];
            proof {
                assert(cs@.take(i + 1).drop_last() =~= cs@.take(i as int));
            }
            if !(c == '-' || c == '_' || c == ' ') {
                kept.push(c);
            }
            i = i + 1;
        }
        proof {
            assert(cs@.take(cs@.len() as int) =~= cs@);
        }
        let normalized = string_from_chars(&kept);
        match Status::from_normalized(normalized.as_str()) {
            Some(st) => Ok(st),
            None => Err(DomainError::InvalidStatus(owned(s))),
        }
    }
}

impl std::str::FromStr for Status {
    type Err = DomainError;

    /// Reads a status name as [`Status::parse`] does.
    fn from_str(s: &str) -> (r: Result<Self, Self::Err>)
        ensures
            match r {
                Ok(st) => status_named(drop_separators(unicode_lowercase(s@))) == Some(st),
                Err(e) => status_named(drop_separators(unicode_lowercase(s@))) is None
                    && e@ == DomainErrorView::InvalidStatus(s@),
            },
            vstd::utf8::is_ascii_chars(s@) ==> match r {
                Ok(st) => status_named(drop_separators(ascii_lowercase(s@))) == Some(st),
                Err(_) => status_named(drop_separators(ascii_lowercase(s@))) is None,
            },
    {
        Status::parse(s)
    }
}

/// Reading back how a language is written gives the language: the text is
/// ASCII, so [`Language::parse`] lowercases it the ASCII way and finds `l`.
pub proof fn lemma_language_display_parses_back(l: Language)
    ensures
        vstd::utf8::is_ascii_chars(language_display(l)),
        language_named(ascii_lowercase(language_display(l))) == Some(l),
{
    reveal_strlit("Kotlin");
    reveal_strlit("Java");
    reveal_strlit("Rust");
    reveal_strlit("kotlin");
    reveal_strlit("kt");
    reveal_strlit("java");
    reveal_strlit("rust");
    reveal_strlit("rs");
    match l {
        Language::Kotlin => {
            assert(ascii_lowercase("Kotlin"@) =~= "kotlin"@);
        },
        Language::Java => {
            assert(ascii_lowercase("Java"@) =~= "java"@);
            assert("java"@ != "kotlin"@);
        },
        Language::Rust => {
            assert(ascii_lowercase("Rust"@) =~= "rust"@);
            assert("rust"@ != "kotlin"@);
            assert("rust"@[0] != "java"@[0]);
        },
    }
}

/// Reading back how an architecture is written gives the architecture.
pub proof fn lemma_architecture_display_parses_back(a: Architecture)
    ensures
        vstd::utf8::is_ascii_chars(architecture_display(a)),
        architecture_named(ascii_lowercase(architecture_display(a))) == Some(a),
{
    reveal_strlit("Hexagonal");
    reveal_strlit("Onion");
    reveal_strlit("Layered");
    reveal_strlit("Pipeline");
    reveal_strlit("Microkernel");
    reveal_strlit("hexagonal");
    reveal_strlit("ports-and-adapters");
    reveal_strlit("onion");
    reveal_strlit("layered");
    reveal_strlit("n-tier");
    reveal_strlit("pipeline");
    reveal_strlit("pipes-and-filters");
    reveal_strlit("microkernel");
    reveal_strlit("plug-in");
    match a {
        Architecture::Hexagonal => {
            assert(ascii_lowercase("Hexagonal"@) =~= "hexagonal"@);
        },
        Architecture::Onion => {
            assert(ascii_lowercase("Onion"@) =~= "onion"@);
        },
        Architecture::Layered => {
            assert(ascii_lowercase("Layered"@) =~= "layered"@);
        },
        Architecture::Pipeline => {
            assert(ascii_lowercase("Pipeline"@) =~= "pipeline"@);
        },
        Architecture::Microkernel => {
            assert(ascii_lowercase("Microkernel"@) =~= "microkernel"@);
        },
    }
}

/// Reading back how a status is written for people gives the status (the
/// space of "In Progress" is one of the separators that reading drops).
pub proof fn lemma_status_display_parses_back(s: Status)
    ensures
        vstd::utf8::is_ascii_chars(status_display(s)),
        status_named(drop_separators(ascii_lowercase(status_display(s)))) == Some(s),
{
    reveal_strlit("Planned");
    reveal_strlit("In Progress");
    reveal_strlit("Completed");
    reveal_strlit("Archived");
    reveal_strlit("planned");
    reveal_strlit("inprogress");
    reveal_strlit("completed");
    reveal_strlit("archived");
    reveal_with_fuel(drop_separators, 12);
    match s {
        Status::Planned => {
            assert(ascii_lowercase("Planned"@) =~= "planned"@);
            assert(drop_separators("planned"@) =~= "planned"@);
        },
        Status::InProgress => {
            assert(ascii_lowercase("In Progress"@) =~= seq!['i', 'n', ' ', 'p', 'r', 'o', 'g', 'r', 'e', 's', 's']);
            assert(drop_separators(seq!['i', 'n', ' ', 'p', 'r', 'o', 'g', 'r', 'e', 's', 's']) =~= "inprogress"@);
        },
        Status::Completed => {
            assert(ascii_lowercase("Completed"@) =~= "completed"@);
            assert(drop_separators("completed"@) =~= "completed"@);
        },
        Status::Archived => {
            assert(ascii_lowercase("Archived"@) =~= "archived"@);
            assert(drop_separators("archived"@) =~= "archived"@);
        },
    }
}

/// The `Debug` name of a status, lowercased, reads back as that status; this
/// is the form a project's status is stored in.
pub proof fn lemma_status_variant_name_parses_back(s: Status)
    ensures
        vstd::utf8::is_ascii_chars(status_variant_name(s)),
        vstd::utf8::is_ascii_chars(ascii_lowercase(status_variant_name(s))),
        status_named(drop_separators(ascii_lowercase(ascii_lowercase(status_variant_name(s))))) == Some(s),
{
    reveal_strlit("Planned");
    reveal_strlit("InProgress");
    reveal_strlit("Completed");
    reveal_strlit("Archived");
    reveal_strlit("planned");
    reveal_strlit("inprogress");
    reveal_strlit("completed");
    reveal_strlit("archived");
    reveal_with_fuel(drop_separators, 12);
    match s {
        Status::Planned => {
            assert(ascii_lowercase("Planned"@) =~= "planned"@);
            assert(ascii_lowercase("planned"@) =~= "planned"@);
            assert(drop_separators("planned"@) =~= "planned"@);
        },
        Status::InProgress => {
            assert(ascii_lowercase("InProgress"@) =~= "inprogress"@);
            assert(ascii_lowercase("inprogress"@) =~= "inprogress"@);
            assert(drop_separators("inprogress"@) =~= "inprogress"@);
        },
        Status::Completed => {
            assert(ascii_lowercase("Completed"@) =~= "completed"@);
            assert(ascii_lowercase("completed"@) =~= "completed"@);
            assert(drop_separators("completed"@) =~= "completed"@);
        },
        Status::Archived => {
            assert(ascii_lowercase("Archived"@) =~= "archived"@);
            assert(ascii_lowercase("archived"@) =~= "archived"@);
            assert(drop_separators("archived"@) =~= "archived"@);
        },
    }
}

/// No status moves to itself, and from any status every other status can be
/// reached in at most two allowed moves.
pub proof fn lemma_transitions_connect(from: Status, to: Status)
    ensures
        !transition_allowed(from, from),
        from != to ==> transition_allowed(from, to) || exists|mid: Status|
            transition_allowed(from, mid) && transition_allowed(mid, to),
{
    match (from, to) {
        (Status::Planned, Status::Completed) => {
            assert(transition_allowed(Status::Planned, Status::InProgress));
            assert(transition_allowed(Status::InProgress, Status::Completed));
        },
        (Status::Completed, Status::Planned) => {
            assert(transition_allowed(Status::Completed, Status::InProgress));
            assert(transition_allowed(Status::InProgress, Status::Planned));
        },
        (Status::Archived, Status::Completed) => {
            assert(transition_allowed(Status::Archived, Status::InProgress));
            assert(transition_allowed(Status::InProgress, Status::Completed));
        },
        _ => {},
    }
}

} // verus!

//! A portfolio of plain project records, as they are read
//! from project files, looked up by name and filtered by the names of their
//! language, architecture and status.
use vstd::prelude::*;
use vstd::string::*;
use crate::domain::models::timestamp::Timestamp;
use crate::text::{
    ascii_lowercase, chars_of, owned, string_from_chars, text_eq, to_lowercase, unicode_lowercase,
};

verus! {

/// Programming language of a project.
#[derive(Debug, Clone, Copy, PartialEq, Eq, Structural)]
pub enum Language {
    Kotlin,
    Java,
    Rust,
}

/// The language a lowercased name stands for.
pub open spec fn language_named(t: Seq<char>) -> Option<Language> {
    if t == "kotlin"@ {
        Some(Language::Kotlin)
    } else if t == "java"@ {
        Some(Language::Java)
    } else if t == "rust"@ {
        Some(Language::Rust)
    } else {
        None
    }
}

/// How a language is written for people.
pub open spec fn language_display(l: Language) -> Seq<char> {
    match l {
        Language::Kotlin => "Kotlin"@,
        Language::Java => "Java"@,
        Language::Rust => "Rust"@,
    }
}

/// How a language is written for people, lowercased.
pub open spec fn language_key(l: Language) -> Seq<char> {
    match l {
        Language::Kotlin => "kotlin"@,
        Language::Java => "java"@,
        Language::Rust => "rust"@,
    }
}

impl Language {
    /// How the language is written for people.
    pub fn display_name(&self) -> (r: &'static str)
        ensures
            r@ == language_display(*self),
    {
        match self {
            Language::Kotlin => "Kotlin",
            Language::Java => "Java",
            Language::Rust => "Rust",
        }
    }

    /// How the language is written for people, owned.
    pub fn to_string(&self) -> (r: String)
        ensures
            r@ == language_display(*self),
    {
        owned(self.display_name())
    }

    /// How the language is written for people, lowercased.
    pub fn key(&self) -> (r: &'static str)
        ensures
            r@ == language_key(*self),
    {
        match self {
            Language::Kotlin => "kotlin",
            Language::Java => "java",
            Language::Rust => "rust",
        }
    }

    /// Reads a language name, whatever its case: `kotlin`, `java` or `rust`.
    pub fn from_str(s: &str) -> (r: Option<Language>)
        ensures
            r == language_named(unicode_lowercase(s@)),
            vstd::utf8::is_ascii_chars(s@) ==> r == language_named(ascii_lowercase(s@)),
    {
        let lowered = to_lowercase(s);
        let t = lowered.as_str();
        if text_eq(t, "kotlin") {
            Some(Language::Kotlin)
        } else if text_eq(t, "java") {
            Some(Language::Java)
        } else if text_eq(t, "rust") {
            Some(Language::Rust)
        } else {
            None
        }
    }
}

/// Software architecture pattern of a project.
#[derive(Debug, Clone, Copy, PartialEq, Eq, Structural)]
pub enum Architecture {
    Hexagonal,
    Onion,
    Layered,
    Pipeline,
    Microkernel,
}

/// The architecture a lowercased name stands for.
pub open spec fn architecture_named(t: Seq<char>) -> Option<Architecture> {
    if t == "hexagonal"@ {
        Some(Architecture::Hexagonal)
    } else if t == "onion"@ {
        Some(Architecture::Onion)
    } else if t == "layered"@ {
        Some(Architecture::Layered)
    } else if t == "pipeline"@ {
        Some(Architecture::Pipeline)
    } else if t == "microkernel"@ {
        Some(Architecture::Microkernel)
    } else {
        None
    }
}

/// How an architecture is written for people.
pub open spec fn architecture_display(a: Architecture) -> Seq<char> {
    match a {
        Architecture::Hexagonal => "Hexagonal"@,
        Architecture::Onion => "Onion"@,
        Architecture::Layered => "Layered"@,
        Architecture::Pipeline => "Pipeline"@,
        Architecture::Microkernel => "Microkernel"@,
    }
}

/// How an architecture is written for people, lowercased.
pub open spec fn architecture_key(a: Architecture) -> Seq<char> {
    match a {
        Architecture::Hexagonal => "hexagonal"@,
        Architecture::Onion => "onion"@,
        Architecture::Layered => "layered"@,
        Architecture::Pipeline => "pipeline"@,
        Architecture::Microkernel => "microkernel"@,
    }
}

impl Architecture {
    /// How the architecture is written for people.
    pub fn display_name(&self) -> (r: &'static str)
        ensures
            r@ == architecture_display(*self),
    {
        match self {
            Architecture::Hexagonal => "Hexagonal",
            Architecture::Onion => "Onion",
            Architecture::Layered => "Layered",
            Architecture::Pipeline => "Pipeline",
            Architecture::Microkernel => "Microkernel",
        }
    }

    /// How the architecture is written for people, owned.
    pub fn to_string(&self) -> (r: String)
        ensures
            r@ == architecture_display(*self),
    {
        owned(self.display_name())
    }

    /// How the architecture is written for people, lowercased.
    pub fn key(&self) -> (r: &'static str)
        ensures
            r@ == architecture_key(*self),
    {
        match self {
            Architecture::Hexagonal => "hexagonal",
            Architecture::Onion => "onion",
            Architecture::Layered => "layered",
            Architecture::Pipeline => "pipeline",
            Architecture::Microkernel => "microkernel",
        }
    }

    /// Reads an architecture name, whatever its case.
    pub fn from_str(s: &str) -> (r: Option<Architecture>)
        ensures
            r == architecture_named(unicode_lowercase(s@)),
            vstd::utf8::is_ascii_chars(s@) ==> r == architecture_named(ascii_lowercase(s@)),
    {
        let lowered = to_lowercase(s);
        let t = lowered.as_str();
        if text_eq(t, "hexagonal") {
            Some(Architecture::Hexagonal)
        } else if text_eq(t, "onion") {
            Some(Architecture::Onion)
        } else if text_eq(t, "layered") {
            Some(Architecture::Layered)
        } else if text_eq(t, "pipeline") {
            Some(Architecture::Pipeline)
        } else if text_eq(t, "microkernel") {
            Some(Architecture::Microkernel)
        } else {
            None
        }
    }
}

/// Stage of a project in its life.
#[derive(Debug, Clone, Copy, PartialEq, Eq, Structural)]
pub enum Status {
    Planned,
    InProgress,
    Completed,
}

/// `s` without hyphens and underscores.
pub open spec fn drop_dashes(s: Seq<char>) -> Seq<char>
    decreases s.len(),
{
    if s.len() == 0 {
        s
    } else {
        let rest = drop_dashes(s.drop_last());
        if s.last() == '-' || s.last() == '_' {
            rest
        } else {
            rest.push(s.last())
        }
    }
}

/// The status a lowercased name without hyphens and underscores stands for.
pub open spec fn status_named(t: Seq<char>) -> Option<Status> {
    if t == "planned"@ {
        Some(Status::Planned)
    } else if t == "inprogress"@ {
        Some(Status::InProgress)
    } else if t == "completed"@ {
        Some(Status::Completed)
    } else {
        None
    }
}

/// How a status is written for people.
pub open spec fn status_display(s: Status) -> Seq<char> {
    match s {
        Status::Planned => "Planned"@,
        Status::InProgress => "In Progress"@,
        Status::Completed => "Completed"@,
    }
}

/// How a status is written for people, lowercased and without spaces.
pub open spec fn status_key(s: Status) -> Seq<char> {
    match s {
        Status::Planned => "planned"@,
        Status::InProgress => "inprogress"@,
        Status::Completed => "completed"@,
    }
}

/// The characters of `s` other than hyphens and underscores, in order.
pub fn without_dashes(s: &str) -> (r: String)
    ensures
        r@ == drop_dashes(s@),
{
    let cs = chars_of(s);
    let mut kept: Vec<char> = Vec::new();
    let mut i: usize = 0;
    while i < cs.len()
        invariant
            i <= cs.len(),
            kept@ == drop_dashes(cs@.take(i as int)),
        decreases cs.len() - i,
    {
        let c = cs[i];
        proof {
            assert(cs@.take(i + 1).drop_last() =~= cs@.take(i as int));
        }
        if !(c == '-' || c == '_') {
            kept.push(c);
        }
        i = i + 1;
    }
    proof {
        assert(cs@.take(cs@.len() as int) =~= cs@);
    }
    string_from_chars(&kept)
}

impl Status {
    /// How the status is written for people.
    pub fn display_name(&self) -> (r: &'static str)
        ensures
            r@ == status_display(*self),
    {
        match self {
            Status::Planned => "Planned",
            Status::InProgress => "In Progress",
            Status::Completed => "Completed",
        }
    }

    /// How the status is written for people, owned.
    pub fn to_string(&self) -> (r: String)
        ensures
            r@ == status_display(*self),
    {
        owned(self.display_name())
    }

    /// How the status is written for people, lowercased and without spaces.
    pub fn key(&self) -> (r: &'static str)
        ensures
            r@ == status_key(*self),
    {
        match self {
            Status::Planned => "planned",
            Status::InProgress => "inprogress",
            Status::Completed => "completed",
        }
    }

    /// Reads a status name, whatever its case and with any hyphens or
    /// underscores: `in-progress` and `IN_PROGRESS` stand for
    /// [`Status::InProgress`] (a space is kept, so `In Progress` stands for
    /// none).
    pub fn from_str(s: &str) -> (r: Option<Status>)
        ensures
            r == status_named(drop_dashes(unicode_lowercase(s@))),
            vstd::utf8::is_ascii_chars(s@) ==> r == status_named(drop_dashes(ascii_lowercase(s@))),
    {
        let lowered = to_lowercase(s);
        let normalized = without_dashes(lowered.as_str());
        let t = normalized.as_str();
        if text_eq(t, "planned") {
            Some(Status::Planned)
        } else if text_eq(t, "inprogress") {
            Some(Status::InProgress)
        } else if text_eq(t, "completed") {
            Some(Status::Completed)
        } else {
            None
        }
    }
}

/// A project as its metadata file records it.
#[derive(Debug, Clone)]
pub struct Project {
    pub id: String,
    pub name: String,
    pub description: String,
    pub language: Language,
    pub architecture: Architecture,
    pub path: String,
    pub status: Status,
    pub frameworks: Vec<String>,
    pub gitlab_url: Option<String>,
    pub created_at: Timestamp,
    pub updated_at: Timestamp,
}

/// Whether a project is found by `lowered` (a lowercased search): its name
/// or its identifier, lowercased, equals it.
pub open spec fn found_by(p: Project, lowered: Seq<char>) -> bool {
    unicode_lowercase(p.name@) == lowered || unicode_lowercase(p.id@) == lowered
}

/// Whether a project passes the filters, each given as a name: the
/// language's and the architecture's lowercased names must equal the
/// filter lowercased, and the status's lowercased name without spaces must
/// equal the filter lowercased without hyphens and underscores. An absent
/// filter passes every project.
pub open spec fn passes(
    p: Project,
    language: Option<Seq<char>>,
    architecture: Option<Seq<char>>,
    status: Option<Seq<char>>,
) -> bool {
    &&& (language matches Some(l) ==> language_key(p.language) == unicode_lowercase(l))
    &&& (architecture matches Some(a) ==> architecture_key(p.architecture) == unicode_lowercase(a))
    &&& (status matches Some(st) ==> status_key(p.status) == drop_dashes(unicode_lowercase(st)))
}

/// A search finds a record by its identifier as well as by its name: a
/// record whose lowercased identifier or lowercased name equals the
/// lowercased search is found by it, and only such a record is.
pub proof fn lemma_found_by_name_or_identifier(p: Project, lowered: Seq<char>)
    ensures
        unicode_lowercase(p.id@) == lowered ==> found_by(p, lowered),
        unicode_lowercase(p.name@) == lowered ==> found_by(p, lowered),
        found_by(p, lowered) ==> (unicode_lowercase(p.id@) == lowered || unicode_lowercase(p.name@)
            == lowered),
{
}

/// The projects of `s` that pass the filters, in order.
pub open spec fn select(
    s: Seq<Project>,
    language: Option<Seq<char>>,
    architecture: Option<Seq<char>>,
    status: Option<Seq<char>>,
) -> Seq<Project>
    decreases s.len(),
{
    if s.len() == 0 {
        s
    } else {
        let r = select(s.drop_last(), language, architecture, status);
        if passes(s.last(), language, architecture, status) {
            r.push(s.last())
        } else {
            r
        }
    }
}

pub open spec fn opt_view(o: Option<String>) -> Option<Seq<char>> {
    match o {
        Some(s) => Some(s@),
        None => None,
    }
}

pub open spec fn derefs(s: Seq<&Project>) -> Seq<Project> {
    s.map_values(|p: &Project| *p)
}

/// The projects read from a portfolio directory.
#[derive(Debug, Default)]
pub struct Portfolio {
    pub projects: Vec<Project>,
}

/// The lowercased form of an optional filter.
fn lowered_filter(f: &Option<String>) -> (r: Option<String>)
    ensures
        opt_view(r) == match f {
            Some(s) => Some(unicode_lowercase(s@)),
            None => None,
        },
{
    match f {
        Some(s) => Some(to_lowercase(s.as_str())),
        None => None,
    }
}

impl Portfolio {
    /// A portfolio without projects.
    pub fn new() -> (r: Portfolio)
        ensures
            r.projects@.len() == 0,
    {
        Portfolio { projects: Vec::new() }
    }

    /// The first project whose name or identifier, lowercased, equals
    /// `name` lowercased.
    pub fn find_by_name(&self, name: &str) -> (r: Option<&Project>)
        ensures
            match r {
                Some(p) => exists|i: int|
                    0 <= i < self.projects@.len() && self.projects@[i] == *p && found_by(
                        self.projects@[i],
                        unicode_lowercase(name@),
                    ) && forall|j: int|
                        0 <= j < i ==> !found_by(self.projects@[j], unicode_lowercase(name@)),
                None => forall|i: int|
                    0 <= i < self.projects@.len() ==> !found_by(
                        self.projects@[i],
                        unicode_lowercase(name@),
                    ),
            },
            (exists|i: int|
                0 <= i < self.projects@.len() && #[trigger] unicode_lowercase(self.projects@[i].id@)
                    == unicode_lowercase(name@)) ==> r is Some,
    {
        let search = to_lowercase(name);
        let mut i: usize = 0;
        while i < self.projects.len()
            invariant
                i <= self.projects.len(),
                search@ == unicode_lowercase(name@),
                forall|j: int| 0 <= j < i ==> !found_by(self.projects@[j], search@),
            decreases self.projects.len() - i,
        {
            let p = &self.projects[i];
            let name_lowered = to_lowercase(p.name.as_str());
            let id_lowered = to_lowercase(p.id.as_str());
            if text_eq(name_lowered.as_str(), search.as_str()) || text_eq(
                id_lowered.as_str(),
                search.as_str(),
            ) {
                return Some(p);
            }
            i = i + 1;
        }
        proof {
            assert forall|k: int| 0 <= k < self.projects@.len() implies #[trigger] unicode_lowercase(
                self.projects@[k].id@,
            ) != search@ by {
                assert(!found_by(self.projects@[k], search@));
            }
        }
        None
    }

    /// The projects that pass every given filter (see [`passes`]), in order.
    pub fn apply_filters(
        &self,
        language: Option<String>,
        architecture: Option<String>,
        status: Option<String>,
    ) -> (r: Vec<&Project>)
        ensures
            derefs(r@) == select(
                self.projects@,
                opt_view(language),
                opt_view(architecture),
                opt_view(status),
            ),
    {
        let ghost (lv, av, sv) = (opt_view(language), opt_view(architecture), opt_view(status));
        let language_key = lowered_filter(&language);
        let architecture_key = lowered_filter(&architecture);
        let status_key: Option<String> = match &status {
            Some(s) => {
                let lowered = to_lowercase(s.as_str());
                Some(without_dashes(lowered.as_str()))
            },
            None => None,
        };
        let mut r: Vec<&Project> = Vec::new();
        let mut i: usize = 0;
        while i < self.projects.len()
            invariant
                i <= self.projects.len(),
                lv == opt_view(language),
                av == opt_view(architecture),
                sv == opt_view(status),
                opt_view(language_key) == match lv {
                    Some(l) => Some(unicode_lowercase(l)),
                    None => None,
                },
                opt_view(architecture_key) == match av {
                    Some(a) => Some(unicode_lowercase(a)),
                    None => None,
                },
                opt_view(status_key) == match sv {
                    Some(st) => Some(drop_dashes(unicode_lowercase(st))),
                    None => None,
                },
                derefs(r@) == select(self.projects@.take(i as int), lv, av, sv),
            decreases self.projects.len() - i,
        {
            let p = &self.projects[i];
            let mut keep = true;
            if let Some(k) = &language_key {
                if !text_eq(p.language.key(), k.as_str()) {
                    keep = false;
                }
            }
            if let Some(k) = &architecture_key {
                if !text_eq(p.architecture.key(), k.as_str()) {
                    keep = false;
                }
            }
            if let Some(k) = &status_key {
                if !text_eq(p.status.key(), k.as_str()) {
                    keep = false;
                }
            }
            proof {
                assert(self.projects@.take(i + 1).drop_last() =~= self.projects@.take(i as int));
                assert(self.projects@.take(i + 1).last() == *p);
            }
            if keep {
                r.push(p);
                proof {
                    assert(derefs(r@) =~= select(self.projects@.take(i as int), lv, av, sv).push(*p));
                }
            }
            i = i + 1;
        }
        proof {
            assert(self.projects@.take(self.projects@.len() as int) =~= self.projects@);
        }
        r
    }
}

/// Reading back how a language is written gives the language.
pub proof fn lemma_language_display_reads_back(l: Language)
    ensures
        vstd::utf8::is_ascii_chars(language_display(l)),
        ascii_lowercase(language_display(l)) == language_key(l),
        language_named(ascii_lowercase(language_display(l))) == Some(l),
{
    reveal_strlit("Kotlin");
    reveal_strlit("Java");
    reveal_strlit("Rust");
    reveal_strlit("kotlin");
    reveal_strlit("java");
    reveal_strlit("rust");
    match l {
        Language::Kotlin => {
            assert(ascii_lowercase("Kotlin"@) =~= "kotlin"@);
        },
        Language::Java => {
            assert(ascii_lowercase("Java"@) =~= "java"@);
            assert("java"@ != "kotlin"@);
        },
        Language::Rust => {
            assert(ascii_lowercase("Rust"@) =~= "rust"@);
            assert("rust"@ != "kotlin"@);
            assert("rust"@[0] != "java"@[0]);
        },
    }
}

/// Reading back how an architecture is written gives the architecture.
pub proof fn lemma_architecture_display_reads_back(a: Architecture)
    ensures
        vstd::utf8::is_ascii_chars(architecture_display(a)),
        ascii_lowercase(architecture_display(a)) == architecture_key(a),
        architecture_named(ascii_lowercase(architecture_display(a))) == Some(a),
{
    reveal_strlit("Hexagonal");
    reveal_strlit("Onion");
    reveal_strlit("Layered");
    reveal_strlit("Pipeline");
    reveal_strlit("Microkernel");
    reveal_strlit("hexagonal");
    reveal_strlit("onion");
    reveal_strlit("layered");
    reveal_strlit("pipeline");
    reveal_strlit("microkernel");
    match a {
        Architecture::Hexagonal => {
            assert(ascii_lowercase("Hexagonal"@) =~= "hexagonal"@);
        },
        Architecture::Onion => {
            assert(ascii_lowercase("Onion"@) =~= "onion"@);
        },
        Architecture::Layered => {
            assert(ascii_lowercase("Layered"@) =~= "layered"@);
        },
        Architecture::Pipeline => {
            assert(ascii_lowercase("Pipeline"@) =~= "pipeline"@);
        },
        Architecture::Microkernel => {
            assert(ascii_lowercase("Microkernel"@) =~= "microkernel"@);
        },
    }
}

/// Reading back how a status is written gives the status, but for
/// "In Progress": reading keeps its space, so it stands for no status.
pub proof fn lemma_status_display_reads_back(s: Status)
    ensures
        vstd::utf8::is_ascii_chars(status_display(s)),
        s != Status::InProgress ==> status_named(drop_dashes(ascii_lowercase(status_display(s))))
            == Some(s),
        s == Status::InProgress ==> status_named(drop_dashes(ascii_lowercase(status_display(s))))
            is None,
{
    reveal_strlit("Planned");
    reveal_strlit("In Progress");
    reveal_strlit("Completed");
    reveal_strlit("planned");
    reveal_strlit("inprogress");
    reveal_strlit("completed");
    reveal_with_fuel(drop_dashes, 12);
    match s {
        Status::Planned => {
            assert(ascii_lowercase("Planned"@) =~= "planned"@);
            assert(drop_dashes("planned"@) =~= "planned"@);
        },
        Status::InProgress => {
            let t = seq!['i', 'n', ' ', 'p', 'r', 'o', 'g', 'r', 'e', 's', 's'];
            assert(ascii_lowercase("In Progress"@) =~= t);
            assert(drop_dashes(t) =~= t);
            assert(t.len() != "planned"@.len());
            assert(t.len() != "inprogress"@.len());
            assert(t.len() != "completed"@.len());
        },
        Status::Completed => {
            assert(ascii_lowercase("Completed"@) =~= "completed"@);
            assert(drop_dashes("completed"@) =~= "completed"@);
            assert("completed"@ != "planned"@);
            assert("completed"@.len() != "inprogress"@.len());
        },
    }
}

/// With no filter every project passes, in order.
pub proof fn lemma_no_filter_selects_all(s: Seq<Project>)
    ensures
        select(s, None, None, None) == s,
    decreases s.len(),
{
    if s.len() > 0 {
        lemma_no_filter_selects_all(s.drop_last());
        assert(s.drop_last().push(s.last()) =~= s);
    }
}

/// A project is selected exactly when it passes the filters: the selection
/// holds only projects of `s` that pass, and holds every project of `s`
/// that passes.
pub proof fn lemma_select_exact(
    s: Seq<Project>,
    language: Option<Seq<char>>,
    architecture: Option<Seq<char>>,
    status: Option<Seq<char>>,
)
    ensures
        forall|k: int| 0 <= k < select(s, language, architecture, status).len() ==> {
            let p = #[trigger] select(s, language, architecture, status)[k];
            s.contains(p) && passes(p, language, architecture, status)
        },
        forall|k: int| 0 <= k < s.len() && passes(s[k], language, architecture, status)
            ==> select(s, language, architecture, status).contains(#[trigger] s[k]),
    decreases s.len(),
{
    if s.len() > 0 {
        let init = s.drop_last();
        lemma_select_exact(init, language, architecture, status);
        let r = select(init, language, architecture, status);
        assert forall|k: int| 0 <= k < select(s, language, architecture, status).len() implies {
            let p = #[trigger] select(s, language, architecture, status)[k];
            s.contains(p) && passes(p, language, architecture, status)
        } by {
            let p = select(s, language, architecture, status)[k];
            if k < r.len() {
                assert(p == r[k]);
                let j = choose|j: int| 0 <= j < init.len() && init[j] == p;
                assert(s[j] == p);
            } else {
                assert(p == s.last());
                assert(s[s.len() - 1] == p);
            }
        }
        assert forall|k: int| 0 <= k < s.len() && passes(s[k], language, architecture, status)
            implies select(s, language, architecture, status).contains(#[trigger] s[k]) by {
            if k < s.len() - 1 {
                assert(init[k] == s[k]);
                assert(r.contains(init[k]));
                let j = choose|j: int| 0 <= j < r.len() && r[j] == init[k];
                if passes(s.last(), language, architecture, status) {
                    assert(r.push(s.last())[j] == s[k]);
                }
            } else {
                let sel = r.push(s.last());
                assert(sel[r.len() as int] == s[k]);
            }
        }
    }
}

} // verus!

//! The portfolio aggregate: the projects, each identifier at most once.
use vstd::prelude::*;
use vstd::string::*;
use crate::domain::errors::{DomainError, DomainErrorView};
use crate::domain::models::enums::{Architecture, Language, Status};
use crate::domain::models::project::{Project, ProjectView};
use crate::domain::value_objects::ProjectId;
use crate::text::{to_lowercase, text_eq, unicode_lowercase};

verus! {

/// No identifier occurs twice.
pub open spec fn ids_distinct(s: Seq<ProjectView>) -> bool {
    forall|i: int, j: int| 0 <= i < j < s.len() ==> s[i].id != s[j].id
}

/// Some project has identifier `id`.
pub open spec fn has_id(s: Seq<ProjectView>, id: Seq<char>) -> bool {
    exists|i: int| 0 <= i < s.len() && #[trigger] s[i].id == id
}

/// The projects of `s` in order, each identifier kept at its first
/// occurrence only.
pub open spec fn keep_first_by_id(s: Seq<ProjectView>) -> Seq<ProjectView>
    decreases s.len(),
{
    if s.len() == 0 {
        s
    } else {
        let r = keep_first_by_id(s.drop_last());
        if has_id(r, s.last().id) {
            r
        } else {
            r.push(s.last())
        }
    }
}

/// Whether a project passes the filters; an absent filter passes every project.
pub open spec fn passes_filters(
    p: ProjectView,
    language: Option<Language>,
    architecture: Option<Architecture>,
    status: Option<Status>,
) -> bool {
    &&& (language matches Some(l) ==> p.language == l)
    &&& (architecture matches Some(a) ==> p.architecture == a)
    &&& (status matches Some(st) ==> p.status == st)
}

/// The projects of `s` that pass the filters, in order.
pub open spec fn select(
    s: Seq<ProjectView>,
    language: Option<Language>,
    architecture: Option<Architecture>,
    status: Option<Status>,
) -> Seq<ProjectView>
    decreases s.len(),
{
    if s.len() == 0 {
        s
    } else {
        let r = select(s.drop_last(), language, architecture, status);
        if passes_filters(s.last(), language, architecture, status) {
            r.push(s.last())
        } else {
            r
        }
    }
}

/// Whether a project is found by `search` (already lowercased): its
/// lowercased name or its identifier equals it.
pub open spec fn found_by(p: ProjectView, lowered_search: Seq<char>) -> bool {
    unicode_lowercase(p.name) == lowered_search || p.id == lowered_search
}

pub open spec fn project_views(s: Seq<Project>) -> Seq<ProjectView> {
    s.map_values(|p: Project| p@)
}

pub open spec fn project_ref_views(s: Seq<&Project>) -> Seq<ProjectView> {
    s.map_values(|p: &Project| p@)
}

/// Number of projects of `s` in status `st`.
pub open spec fn count_status(s: Seq<ProjectView>, st: Status) -> nat
    decreases s.len(),
{
    if s.len() == 0 {
        0
    } else {
        count_status(s.drop_last(), st) + if s.last().status == st { 1nat } else { 0nat }
    }
}

/// Number of projects of `s` written in language `l`.
pub open spec fn count_language(s: Seq<ProjectView>, l: Language) -> nat
    decreases s.len(),
{
    if s.len() == 0 {
        0
    } else {
        count_language(s.drop_last(), l) + if s.last().language == l { 1nat } else { 0nat }
    }
}

/// Number of projects of `s` built with architecture `a`.
pub open spec fn count_architecture(s: Seq<ProjectView>, a: Architecture) -> nat
    decreases s.len(),
{
    if s.len() == 0 {
        0
    } else {
        count_architecture(s.drop_last(), a) + if s.last().architecture == a { 1nat } else { 0nat }
    }
}

/// Whether `r` is a most used language of the counts: `None` exactly when
/// nothing is counted, else a language counted as often as any other.
pub open spec fn most_used_language_of(v: Seq<(Language, usize)>, r: Option<Language>) -> bool {
    &&& (r is None <==> v.len() == 0)
    &&& (r matches Some(l) ==> exists|k: int|
        0 <= k < v.len() && v[k].0 == l && forall|j: int| 0 <= j < v.len() ==> v[j].1 <= v[k].1)
}

/// Whether `r` is a most used architecture of the counts: `None` exactly
/// when nothing is counted, else an architecture counted as often as any
/// other.
pub open spec fn most_used_architecture_of(v: Seq<(Architecture, usize)>, r: Option<Architecture>) -> bool {
    &&& (r is None <==> v.len() == 0)
    &&& (r matches Some(a) ==> exists|k: int|
        0 <= k < v.len() && v[k].0 == a && forall|j: int| 0 <= j < v.len() ==> v[j].1 <= v[k].1)
}

/// A search finds a project by its identifier as well as by its name: a
/// project whose identifier, or whose lowercased name, equals the lowercased
/// search is found by it, and only such a project is.
pub proof fn lemma_found_by_name_or_identifier(p: ProjectView, lowered_search: Seq<char>)
    ensures
        p.id == lowered_search ==> found_by(p, lowered_search),
        unicode_lowercase(p.name) == lowered_search ==> found_by(p, lowered_search),
        found_by(p, lowered_search) ==> (p.id == lowered_search || unicode_lowercase(p.name)
            == lowered_search),
{
}

/// Removing a project from a sequence whose identifiers are distinct leaves
/// no project with its identifier, and the identifiers left stay distinct.
pub proof fn lemma_removed_identifier_gone(s: Seq<ProjectView>, i: int)
    requires
        ids_distinct(s),
        0 <= i < s.len(),
    ensures
        !has_id(s.remove(i), s[i].id),
        ids_distinct(s.remove(i)),
{
    let r = s.remove(i);
    assert forall|k: int| 0 <= k < r.len() implies #[trigger] r[k].id != s[i].id by {
        if k < i {
            assert(r[k] == s[k]);
        } else {
            assert(r[k] == s[k + 1]);
        }
    }
    assert forall|a: int, b: int| 0 <= a < b < r.len() implies r[a].id != r[b].id by {
        let va = if a < i { a } else { a + 1 };
        let vb = if b < i { b } else { b + 1 };
        assert(r[a] == s[va]);
        assert(r[b] == s[vb]);
    }
}

/// A portfolio of projects, no identifier twice.
#[derive(Debug)]
pub struct Portfolio {
    projects: Vec<Project>,
}

impl Clone for Portfolio {
    fn clone(&self) -> (r: Self)
        ensures
            r@ == self@,
    {
        proof {
            use_type_invariant(self);
        }
        let projects = self.projects.clone();
        proof {
            assert forall|k: int| 0 <= k < projects@.len() implies projects@[k]@ == self.projects@[k]@ by {
                assert(vstd::pervasive::cloned::<Project>(self.projects@[k], projects@[k]));
            }
            assert(project_views(projects@) =~= project_views(self.projects@));
        }
        Portfolio { projects }
    }
}

impl View for Portfolio {
    type V = Seq<ProjectView>;

    closed spec fn view(&self) -> Seq<ProjectView> {
        project_views(self.projects@)
    }
}

impl Portfolio {
    /// No identifier occurs twice in a portfolio.
    #[verifier::type_invariant]
    pub open spec fn unique_ids(self) -> bool {
        ids_distinct(self@)
    }

    /// An empty portfolio.
    pub fn new() -> (r: Portfolio)
        ensures
            r@ == Seq::<ProjectView>::empty(),
    {
        let r = Portfolio { projects: Vec::new() };
        proof {
            assert(project_views(r.projects@) =~= Seq::<ProjectView>::empty());
        }
        r
    }

    /// The index of the project with identifier `id`, if any.
    fn position_of(&self, id: &ProjectId) -> (r: Option<usize>)
        ensures
            match r {
                Some(i) => i < self@.len() && self@[i as int].id == id@,
                None => !has_id(self@, id@),
            },
    {
        let mut i: usize = 0;
        while i < self.projects.len()
            invariant
                i <= self.projects.len(),
                forall|j: int| 0 <= j < i ==> self@[j].id != id@,
            decreases self.projects.len() - i,
        {
            if self.projects[i].id().same_as(id) {
                return Some(i);
            }
            i = i + 1;
        }
        None
    }

    /// Adds a project, refused when its identifier is already in the
    /// portfolio.
    pub fn add_project(&mut self, project: Project) -> (r: Result<(), DomainError>)
        ensures
            r is Ok <==> !has_id(old(self)@, project@.id),
            r is Ok ==> final(self)@ == old(self)@.push(project@),
            r is Err ==> final(self)@ == old(self)@ && r->Err_0@
                == DomainErrorView::ProjectAlreadyExists(project@.id),
    {
        proof {
            use_type_invariant(&*self);
        }
        match self.position_of(project.id()) {
            Some(_) => {
                let id_text = crate::text::owned(project.id().as_str());
                Err(DomainError::ProjectAlreadyExists(id_text))
            },
            None => {
                let ghost before = self.projects@;
                let mut projects: Vec<Project> = Vec::new();
                std::mem::swap(&mut projects, &mut self.projects);
                projects.push(project);
                proof {
                    assert(project_views(projects@) =~= project_views(before).push(project@));
                }
                self.projects = projects;
                Ok(())
            },
        }
    }

    /// A portfolio of the given projects in order; a project whose
    /// identifier came before is left out.
    pub fn from_projects(projects: Vec<Project>) -> (r: Portfolio)
        ensures
            r@ == keep_first_by_id(project_views(projects@)),
    {
        let mut portfolio = Portfolio::new();
        let ghost all = project_views(projects@);
        for p in it: projects.into_iter()
            invariant
                all == project_views(it.seq()),
                portfolio@ == keep_first_by_id(all.take(it.index() as int)),
        {
            proof {
                let k = it.index() as int;
                assert(all.take(k + 1).drop_last() =~= all.take(k));
                assert(all.take(k + 1).last() == p@);
            }
            let _ = portfolio.add_project(p);
        }
        proof {
            assert(all.take(all.len() as int) =~= all);
        }
        portfolio
    }

    /// Removes the project with identifier `id` and hands it back; the other
    /// projects keep their order.
    pub fn remove_project(&mut self, id: &ProjectId) -> (r: Result<Project, DomainError>)
        ensures
            ids_distinct(old(self)@),
            ids_distinct(final(self)@),
            r is Ok <==> has_id(old(self)@, id@),
            r is Ok ==> exists|i: int|
                0 <= i < old(self)@.len() && old(self)@[i].id == id@ && old(self)@[i]
                    == r->Ok_0@ && final(self)@ == old(self)@.remove(i),
            r is Ok ==> !has_id(final(self)@, id@),
            r is Err ==> final(self)@ == old(self)@ && r->Err_0@ == DomainErrorView::ProjectNotFound(
                id@,
            ),
    {
        proof {
            use_type_invariant(&*self);
        }
        match self.position_of(id) {
            None => Err(DomainError::ProjectNotFound(crate::text::owned(id.as_str()))),
            Some(i) => {
                let ghost before = self.projects@;
                let mut projects: Vec<Project> = Vec::new();
                std::mem::swap(&mut projects, &mut self.projects);
                let p = projects.remove(i);
                proof {
                    assert(project_views(projects@) =~= project_views(before).remove(i as int));
                    assert forall|a: int, b: int|
                        0 <= a < b < project_views(projects@).len() implies project_views(
                        projects@,
                    )[a].id != project_views(projects@)[b].id by {
                        let va = if a < i { a } else { a + 1 };
                        let vb = if b < i { b } else { b + 1 };
                        assert(project_views(projects@)[a] == project_views(before)[va]);
                        assert(project_views(projects@)[b] == project_views(before)[vb]);
                    }
                }
                self.projects = projects;
                proof {
                    lemma_removed_identifier_gone(project_views(before), i as int);
                }
                Ok(p)
            },
        }
    }

    /// The project with identifier `id`, if any.
    pub fn find_by_id(&self, id: &ProjectId) -> (r: Option<&Project>)
        ensures
            ids_distinct(self@),
            match r {
                Some(p) => exists|i: int|
                    0 <= i < self@.len() && self@[i] == p@ && p@.id == id@,
                None => !has_id(self@, id@),
            },
    {
        proof {
            use_type_invariant(self);
        }
        match self.position_of(id) {
            Some(i) => Some(&self.projects[i]),
            None => None,
        }
    }

    /// The first project whose name, lowercased, or whose identifier equals
    /// `search` lowercased.
    pub fn find_by_name_or_id(&self, search: &str) -> (r: Option<&Project>)
        ensures
            match r {
                Some(p) => exists|i: int|
                    0 <= i < self@.len() && self@[i] == p@ && found_by(
                        self@[i],
                        unicode_lowercase(search@),
                    ) && forall|j: int|
                        0 <= j < i ==> !found_by(self@[j], unicode_lowercase(search@)),
                None => forall|i: int|
                    0 <= i < self@.len() ==> !found_by(self@[i], unicode_lowercase(search@)),
            },
            has_id(self@, unicode_lowercase(search@)) ==> r is Some,
            (exists|i: int|
                0 <= i < self@.len() && #[trigger] unicode_lowercase(self@[i].name)
                    == unicode_lowercase(search@)) ==> r is Some,
            r matches Some(p) ==> (unicode_lowercase(p@.name) == unicode_lowercase(search@) || p@.id
                == unicode_lowercase(search@)),
    {
        let lowered = to_lowercase(search);
        let mut i: usize = 0;
        while i < self.projects.len()
            invariant
                i <= self.projects.len(),
                lowered@ == unicode_lowercase(search@),
                forall|j: int| 0 <= j < i ==> !found_by(self@[j], lowered@),
            decreases self.projects.len() - i,
        {
            let p = &self.projects[i];
            let name_lowered = to_lowercase(p.name().as_str());
            if text_eq(name_lowered.as_str(), lowered.as_str()) || text_eq(
                p.id().as_str(),
                lowered.as_str(),
            ) {
                proof {
                    assert(self@[i as int] == p@);
                    assert(found_by(self@[i as int], unicode_lowercase(search@)));
                }
                return Some(p);
            }
            i = i + 1;
        }
        proof {
            assert forall|k: int| 0 <= k < self@.len() implies self@[k].id != lowered@
                && unicode_lowercase(self@[k].name) != lowered@ by {
                assert(!found_by(self@[k], lowered@));
            }
        }
        None
    }

    /// All projects, in order.
    pub fn projects(&self) -> (r: &[Project])
        ensures
            ids_distinct(self@),
            project_views(r@) == self@,
    {
        proof {
            use_type_invariant(self);
        }
        self.projects.as_slice()
    }

    /// Number of projects.
    pub fn len(&self) -> (r: usize)
        ensures
            r == self@.len(),
    {
        self.projects.len()
    }

    /// Whether the portfolio has no project.
    pub fn is_empty(&self) -> (r: bool)
        ensures
            r == (self@.len() == 0),
    {
        self.projects.len() == 0
    }

    /// The projects in `language`, in order.
    pub fn filter_by_language(&self, language: Language) -> (r: Vec<&Project>)
        ensures
            project_ref_views(r@) == select(self@, Some(language), None, None),
    {
        self.apply_filters(Some(language), None, None)
    }

    /// The projects built with `architecture`, in order.
    pub fn filter_by_architecture(&self, architecture: Architecture) -> (r: Vec<&Project>)
        ensures
            project_ref_views(r@) == select(self@, None, Some(architecture), None),
    {
        self.apply_filters(None, Some(architecture), None)
    }

    /// The projects in `status`, in order.
    pub fn filter_by_status(&self, status: Status) -> (r: Vec<&Project>)
        ensures
            project_ref_views(r@) == select(self@, None, None, Some(status)),
    {
        self.apply_filters(None, None, Some(status))
    }

    /// The projects that pass every given filter, in order.
    pub fn apply_filters(
        &self,
        language: Option<Language>,
        architecture: Option<Architecture>,
        status: Option<Status>,
    ) -> (r: Vec<&Project>)
        ensures
            project_ref_views(r@) == select(self@, language, architecture, status),
    {
        let mut r: Vec<&Project> = Vec::new();
        let mut i: usize = 0;
        while i < self.projects.len()
            invariant
                i <= self.projects.len(),
                project_ref_views(r@) == select(self@.take(i as int), language, architecture, status),
            decreases self.projects.len() - i,
        {
            let p = &self.projects[i];
            let mut keep = true;
            if let Some(l) = language {
                if p.language() != l {
                    keep = false;
                }
            }
            if let Some(a) = architecture {
                if p.architecture() != a {
                    keep = false;
                }
            }
            if let Some(st) = status {
                if p.status() != st {
                    keep = false;
                }
            }
            proof {
                assert(self@.take(i + 1).drop_last() =~= self@.take(i as int));
                assert(self@.take(i + 1).last() == p@);
            }
            if keep {
                r.push(p);
                proof {
                    assert(project_ref_views(r@) =~= select(self@.take(i as int), language, architecture, status).push(p@));
                }
            }
            i = i + 1;
        }
        proof {
            assert(self@.take(self@.len() as int) =~= self@);
        }
        r
    }
}

/// Counts per language: every language of `s` once, with its number of
/// projects, and no other entry. Entries come in no promised order.
pub open spec fn language_counts_match(v: Seq<(Language, usize)>, s: Seq<ProjectView>) -> bool {
    &&& forall|i: int, j: int| 0 <= i < j < v.len() ==> v[i].0 != v[j].0
    &&& forall|k: int| 0 <= k < v.len() ==> (#[trigger] v[k]).1 == count_language(s, v[k].0)
        && v[k].1 > 0
    &&& forall|l: Language| count_language(s, l) > 0 ==> exists|k: int| 0 <= k < v.len() && (#[trigger] v[k]).0 == l
}

/// Counts per architecture, as [`language_counts_match`] for languages.
pub open spec fn architecture_counts_match(v: Seq<(Architecture, usize)>, s: Seq<ProjectView>) -> bool {
    &&& forall|i: int, j: int| 0 <= i < j < v.len() ==> v[i].0 != v[j].0
    &&& forall|k: int| 0 <= k < v.len() ==> (#[trigger] v[k]).1 == count_architecture(s, v[k].0)
        && v[k].1 > 0
    &&& forall|a: Architecture| count_architecture(s, a) > 0 ==> exists|k: int| 0 <= k < v.len() && (#[trigger] v[k]).0 == a
}

/// The statistics of the projects `s`.
pub open spec fn statistics_of(r: PortfolioStatistics, s: Seq<ProjectView>) -> bool {
    &&& r.total_projects == s.len()
    &&& r.planned_count == count_status(s, Status::Planned)
    &&& r.in_progress_count == count_status(s, Status::InProgress)
    &&& r.completed_count == count_status(s, Status::Completed)
    &&& r.archived_count == count_status(s, Status::Archived)
    &&& language_counts_match(r.language_counts@, s)
    &&& architecture_counts_match(r.architecture_counts@, s)
}

pub proof fn lemma_counts_bounded(s: Seq<ProjectView>)
    ensures
        forall|st: Status| #[trigger] count_status(s, st) <= s.len(),
        forall|l: Language| #[trigger] count_language(s, l) <= s.len(),
        forall|a: Architecture| #[trigger] count_architecture(s, a) <= s.len(),
    decreases s.len(),
{
    if s.len() > 0 {
        lemma_counts_bounded(s.drop_last());
        assert forall|st: Status| #[trigger] count_status(s, st) <= s.len() by {
            assert(count_status(s.drop_last(), st) <= s.drop_last().len());
        }
        assert forall|l: Language| #[trigger] count_language(s, l) <= s.len() by {
            assert(count_language(s.drop_last(), l) <= s.drop_last().len());
        }
        assert forall|a: Architecture| #[trigger] count_architecture(s, a) <= s.len() by {
            assert(count_architecture(s.drop_last(), a) <= s.drop_last().len());
        }
    }
}

/// Counts of a portfolio's projects.
#[derive(Debug, Clone)]
pub struct PortfolioStatistics {
    pub total_projects: usize,
    pub planned_count: usize,
    pub in_progress_count: usize,
    pub completed_count: usize,
    pub archived_count: usize,
    pub language_counts: Vec<(Language, usize)>,
    pub architecture_counts: Vec<(Architecture, usize)>,
}

impl PortfolioStatistics {
    /// The language with the most projects; among languages with as many,
    /// the one listed last. `None` when no language is counted.
    pub fn most_used_language(&self) -> (r: Option<Language>)
        ensures
            most_used_language_of(self.language_counts@, r),
    {
        let v = &self.language_counts;
        if v.len() == 0 {
            return None;
        }
        let mut best: usize = 0;
        let mut i: usize = 1;
        while i < v.len()
            invariant
                0 < i <= v.len(),
                best < i,
                forall|j: int| 0 <= j < i ==> v@[j].1 <= v@[best as int].1,
            decreases v.len() - i,
        {
            if v[i].1 >= v[best].1 {
                best = i;
            }
            i = i + 1;
        }
        Some(v[best].0)
    }

    /// The architecture with the most projects; among architectures with as
    /// many, the one listed last. `None` when no architecture is counted.
    pub fn most_used_architecture(&self) -> (r: Option<Architecture>)
        ensures
            most_used_architecture_of(self.architecture_counts@, r),
    {
        let v = &self.architecture_counts;
        if v.len() == 0 {
            return None;
        }
        let mut best: usize = 0;
        let mut i: usize = 1;
        while i < v.len()
            invariant
                0 < i <= v.len(),
                best < i,
                forall|j: int| 0 <= j < i ==> v@[j].1 <= v@[best as int].1,
            decreases v.len() - i,
        {
            if v[i].1 >= v[best].1 {
                best = i;
            }
            i = i + 1;
        }
        Some(v[best].0)
    }
}

impl Portfolio {
    /// Counts of the projects: in all, per status, per language and per
    /// architecture.
    pub fn statistics(&self) -> (r: PortfolioStatistics)
        ensures
            statistics_of(r, self@),
    {
        let n = self.projects.len();
        let mut planned: usize = 0;
        let mut in_progress: usize = 0;
        let mut completed: usize = 0;
        let mut archived: usize = 0;
        let mut languages: Vec<(Language, usize)> = Vec::new();
        let mut architectures: Vec<(Architecture, usize)> = Vec::new();
        let mut i: usize = 0;
        while i < n
            invariant
                n == self@.len(),
                i <= n,
                planned == count_status(self@.take(i as int), Status::Planned),
                in_progress == count_status(self@.take(i as int), Status::InProgress),
                completed == count_status(self@.take(i as int), Status::Completed),
                archived == count_status(self@.take(i as int), Status::Archived),
                language_counts_match(languages@, self@.take(i as int)),
                architecture_counts_match(architectures@, self@.take(i as int)),
            decreases n - i,
        {
            let p = &self.projects[i];
            let ghost before = self@.take(i as int);
            let ghost after = self@.take(i + 1);
            proof {
                assert(after.drop_last() =~= before);
                assert(after.last() == p@);
                lemma_counts_bounded(before);
            }
            match p.status() {
                Status::Planned => planned = planned + 1,
                Status::InProgress => in_progress = in_progress + 1,
                Status::Completed => completed = completed + 1,
                Status::Archived => archived = archived + 1,
            }
            count_language_entry(&mut languages, p.language(), Ghost(before), Ghost(after));
            count_architecture_entry(&mut architectures, p.architecture(), Ghost(before), Ghost(after));
            i = i + 1;
        }
        proof {
            assert(self@.take(n as int) =~= self@);
        }
        PortfolioStatistics {
            total_projects: n,
            planned_count: planned,
            in_progress_count: in_progress,
            completed_count: completed,
            archived_count: archived,
            language_counts: languages,
            architecture_counts: architectures,
        }
    }
}

/// Counts one more project in `language`.
fn count_language_entry(
    v: &mut Vec<(Language, usize)>,
    language: Language,
    Ghost(before): Ghost<Seq<ProjectView>>,
    Ghost(after): Ghost<Seq<ProjectView>>,
)
    requires
        language_counts_match(old(v)@, before),
        after.len() == before.len() + 1,
        after.drop_last() == before,
        after.last().language == language,
        after.len() <= usize::MAX,
    ensures
        language_counts_match(final(v)@, after),
{
    proof {
        lemma_counts_bounded(before);
        assert forall|l: Language| #[trigger] count_language(after, l) == count_language(before, l)
            + if l == language { 1nat } else { 0nat } by {}
    }
    let mut k: usize = 0;
    #[verifier::loop_isolation(false)]
    while k < v.len()
        invariant
            v@ == old(v)@,
            k <= v.len(),
            forall|j: int| 0 <= j < k ==> v@[j].0 != language,
        decreases v.len() - k,
    {
        if v[k].0 == language {
            let c = v[k].1;
            proof {
                assert(v@[k as int].1 == count_language(before, language));
            }
            let ghost old_v = v@;
            v.set(k, (language, c + 1));
            proof {
                assert forall|j: int| 0 <= j < v@.len() implies (#[trigger] v@[j]).1 == count_language(after, v@[j].0)
                    && v@[j].1 > 0 by {
                    if j != k {
                        assert(old_v[j] == v@[j]);
                        assert(old_v[j].1 == count_language(before, old_v[j].0));
                    }
                }
                assert forall|x: Language| count_language(after, x) > 0 implies exists|q: int| 0 <= q < v@.len() && (#[trigger] v@[q]).0 == x by {
                    if x == language {
                        assert(v@[k as int].0 == x);
                    } else {
                        assert(count_language(before, x) > 0);
                        let q = choose|q: int| 0 <= q < old_v.len() && (#[trigger] old_v[q]).0 == x;
                        assert(v@[q].0 == x);
                    }
                }
            }
            return;
        }
        k = k + 1;
    }
    proof {
        if count_language(before, language) > 0 {
            let q = choose|q: int| 0 <= q < v@.len() && (#[trigger] v@[q]).0 == language;
            assert(v@[q].0 != language);
        }
    }
    let ghost old_v = v@;
    v.push((language, 1));
    proof {
        assert forall|j: int| 0 <= j < v@.len() implies (#[trigger] v@[j]).1 == count_language(after, v@[j].0)
            && v@[j].1 > 0 by {
            if j < old_v.len() {
                assert(old_v[j] == v@[j]);
                assert(old_v[j].1 == count_language(before, old_v[j].0));
            }
        }
        assert forall|x: Language| count_language(after, x) > 0 implies exists|q: int| 0 <= q < v@.len() && (#[trigger] v@[q]).0 == x by {
            if x == language {
                assert(v@[old_v.len() as int].0 == x);
            } else {
                assert(count_language(before, x) > 0);
                let q = choose|q: int| 0 <= q < old_v.len() && (#[trigger] old_v[q]).0 == x;
                assert(v@[q].0 == x);
            }
        }
    }
}

/// Counts one more project built with `architecture`.
fn count_architecture_entry(
    v: &mut Vec<(Architecture, usize)>,
    architecture: Architecture,
    Ghost(before): Ghost<Seq<ProjectView>>,
    Ghost(after): Ghost<Seq<ProjectView>>,
)
    requires
        architecture_counts_match(old(v)@, before),
        after.len() == before.len() + 1,
        after.drop_last() == before,
        after.last().architecture == architecture,
        after.len() <= usize::MAX,
    ensures
        architecture_counts_match(final(v)@, after),
{
    proof {
        lemma_counts_bounded(before);
        assert forall|a: Architecture| #[trigger] count_architecture(after, a) == count_architecture(before, a)
            + if a == architecture { 1nat } else { 0nat } by {}
    }
    let mut k: usize = 0;
    #[verifier::loop_isolation(false)]
    while k < v.len()
        invariant
            v@ == old(v)@,
            k <= v.len(),
            forall|j: int| 0 <= j < k ==> v@[j].0 != architecture,
        decreases v.len() - k,
    {
        if v[k].0 == architecture {
            let c = v[k].1;
            proof {
                assert(v@[k as int].1 == count_architecture(before, architecture));
            }
            let ghost old_v = v@;
            v.set(k, (architecture, c + 1));
            proof {
                assert forall|j: int| 0 <= j < v@.len() implies (#[trigger] v@[j]).1 == count_architecture(after, v@[j].0)
                    && v@[j].1 > 0 by {
                    if j != k {
                        assert(old_v[j] == v@[j]);
                        assert(old_v[j].1 == count_architecture(before, old_v[j].0));
                    }
                }
                assert forall|x: Architecture| count_architecture(after, x) > 0 implies exists|q: int| 0 <= q < v@.len() && (#[trigger] v@[q]).0 == x by {
                    if x == architecture {
                        assert(v@[k as int].0 == x);
                    } else {
                        assert(count_architecture(before, x) > 0);
                        let q = choose|q: int| 0 <= q < old_v.len() && (#[trigger] old_v[q]).0 == x;
                        assert(v@[q].0 == x);
                    }
                }
            }
            return;
        }
        k = k + 1;
    }
    proof {
        if count_architecture(before, architecture) > 0 {
            let q = choose|q: int| 0 <= q < v@.len() && (#[trigger] v@[q]).0 == architecture;
            assert(v@[q].0 != architecture);
        }
    }
    let ghost old_v = v@;
    v.push((architecture, 1));
    proof {
        assert forall|j: int| 0 <= j < v@.len() implies (#[trigger] v@[j]).1 == count_architecture(after, v@[j].0)
            && v@[j].1 > 0 by {
            if j < old_v.len() {
                assert(old_v[j] == v@[j]);
                assert(old_v[j].1 == count_architecture(before, old_v[j].0));
            }
        }
        assert forall|x: Architecture| count_architecture(after, x) > 0 implies exists|q: int| 0 <= q < v@.len() && (#[trigger] v@[q]).0 == x by {
            if x == architecture {
                assert(v@[old_v.len() as int].0 == x);
            } else {
                assert(count_architecture(before, x) > 0);
                let q = choose|q: int| 0 <= q < old_v.len() && (#[trigger] old_v[q]).0 == x;
                assert(v@[q].0 == x);
            }
        }
    }
}

/// A project added to a portfolio is found by its identifier, and it is the
/// only project with that identifier.
pub proof fn lemma_added_project_is_found(before: Seq<ProjectView>, p: ProjectView)
    requires
        !has_id(before, p.id),
    ensures
        has_id(before.push(p), p.id),
        forall|i: int|
            0 <= i < before.len() + 1 && (#[trigger] before.push(p)[i]).id == p.id ==> before.push(
                p,
            )[i] == p,
{
    assert(before.push(p)[before.len() as int].id == p.id);
    assert forall|i: int|
        0 <= i < before.len() + 1 && (#[trigger] before.push(p)[i]).id == p.id implies before.push(
            p,
        )[i] == p by {
        if i < before.len() {
            assert(before[i].id == p.id);
        }
    }
}

/// Removing the project just added gives back the portfolio as it was.
pub proof fn lemma_remove_undoes_add(before: Seq<ProjectView>, p: ProjectView, i: int)
    requires
        !has_id(before, p.id),
        0 <= i < before.len() + 1,
        before.push(p)[i].id == p.id,
    ensures
        before.push(p).remove(i) == before,
{
    if i < before.len() {
        assert(before[i].id == p.id);
    }
    assert(before.push(p).remove(i) =~= before);
}

/// With no filter, every project is selected, in order.
pub proof fn lemma_no_filter_selects_all(s: Seq<ProjectView>)
    ensures
        select(s, None, None, None) == s,
    decreases s.len(),
{
    if s.len() > 0 {
        lemma_no_filter_selects_all(s.drop_last());
        assert(s.drop_last().push(s.last()) =~= s);
    }
}

/// Every selected project passes the filters, and a project that passes
/// them is selected.
pub proof fn lemma_select_exact(
    s: Seq<ProjectView>,
    language: Option<Language>,
    architecture: Option<Architecture>,
    status: Option<Status>,
)
    ensures
        forall|i: int|
            0 <= i < select(s, language, architecture, status).len() ==> passes_filters(
                #[trigger] select(s, language, architecture, status)[i],
                language,
                architecture,
                status,
            ) && s.contains(select(s, language, architecture, status)[i]),
        forall|i: int|
            0 <= i < s.len() && passes_filters(#[trigger] s[i], language, architecture, status)
                ==> select(s, language, architecture, status).contains(s[i]),
        select(s, language, architecture, status).len() <= s.len(),
    decreases s.len(),
{
    if s.len() > 0 {
        let init = s.drop_last();
        lemma_select_exact(init, language, architecture, status);
        let r = select(init, language, architecture, status);
        assert forall|i: int|
            0 <= i < select(s, language, architecture, status).len() implies passes_filters(
            #[trigger] select(s, language, architecture, status)[i],
            language,
            architecture,
            status,
        ) && s.contains(select(s, language, architecture, status)[i]) by {
            if i < r.len() {
                let w = choose|w: int| 0 <= w < init.len() && init[w] == r[i];
                assert(s[w] == r[i]);
            } else {
                assert(s[s.len() - 1] == s.last());
            }
        }
        assert forall|i: int|
            0 <= i < s.len() && passes_filters(#[trigger] s[i], language, architecture, status)
                implies select(s, language, architecture, status).contains(s[i]) by {
            if i < init.len() {
                assert(init[i] == s[i]);
                let w = choose|w: int| 0 <= w < r.len() && r[w] == init[i];
                assert(select(s, language, architecture, status)[w] == s[i]);
            } else {
                assert(select(s, language, architecture, status).last() == s[i]);
            }
        }
    }
}

/// The counts per status add up to the number of projects.
pub proof fn lemma_status_counts_add_up(s: Seq<ProjectView>)
    ensures
        count_status(s, Status::Planned) + count_status(s, Status::InProgress) + count_status(
            s,
            Status::Completed,
        ) + count_status(s, Status::Archived) == s.len(),
    decreases s.len(),
{
    if s.len() > 0 {
        lemma_status_counts_add_up(s.drop_last());
    }
}

/// The counts per language add up to the number of projects, and so do the
/// counts per architecture.
pub proof fn lemma_language_and_architecture_counts_add_up(s: Seq<ProjectView>)
    ensures
        count_language(s, Language::Kotlin) + count_language(s, Language::Java) + count_language(
            s,
            Language::Rust,
        ) == s.len(),
        count_architecture(s, Architecture::Hexagonal) + count_architecture(s, Architecture::Onion)
            + count_architecture(s, Architecture::Layered) + count_architecture(
            s,
            Architecture::Pipeline,
        ) + count_architecture(s, Architecture::Microkernel) == s.len(),
    decreases s.len(),
{
    if s.len() > 0 {
        lemma_language_and_architecture_counts_add_up(s.drop_last());
    }
}

/// A portfolio built from a list of projects holds each identifier of the
/// list exactly once, each time the first project that had it.
pub proof fn lemma_from_projects_keeps_first(s: Seq<ProjectView>)
    ensures
        ids_distinct(keep_first_by_id(s)),
        forall|id: Seq<char>| has_id(s, id) <==> has_id(keep_first_by_id(s), id),
        forall|i: int| 0 <= i < keep_first_by_id(s).len() ==> s.contains(#[trigger] keep_first_by_id(s)[i]),
    decreases s.len(),
{
    if s.len() > 0 {
        let init = s.drop_last();
        lemma_from_projects_keeps_first(init);
        let r = keep_first_by_id(init);
        assert forall|id: Seq<char>| has_id(s, id) <==> has_id(keep_first_by_id(s), id) by {
            if has_id(s, id) {
                let i = choose|i: int| 0 <= i < s.len() && #[trigger] s[i].id == id;
                if i < init.len() {
                    assert(init[i].id == id);
                    assert(has_id(init, id));
                    let w = choose|w: int| 0 <= w < r.len() && #[trigger] r[w].id == id;
                    assert(keep_first_by_id(s)[w].id == id);
                } else if !has_id(r, s.last().id) {
                    assert(keep_first_by_id(s).last().id == id);
                }
            }
            if has_id(keep_first_by_id(s), id) {
                let w = choose|w: int| 0 <= w < keep_first_by_id(s).len() && #[trigger] keep_first_by_id(s)[w].id == id;
                if w < r.len() {
                    assert(r[w].id == id);
                    assert(has_id(r, id));
                    let i = choose|i: int| 0 <= i < init.len() && #[trigger] init[i].id == id;
                    assert(s[i].id == id);
                } else {
                    assert(s[s.len() - 1].id == id);
                }
            }
        }
        assert forall|i: int| 0 <= i < keep_first_by_id(s).len() implies s.contains(#[trigger] keep_first_by_id(s)[i]) by {
            if i < r.len() {
                let w = choose|w: int| 0 <= w < init.len() && init[w] == r[i];
                assert(s[w] == r[i]);
            } else {
                assert(s[s.len() - 1] == s.last());
            }
        }
    }
}

} // verus!

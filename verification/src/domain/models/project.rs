//! The project entity.
use vstd::prelude::*;
use vstd::string::*;
use crate::domain::errors::{DomainError, DomainErrorView};
use crate::domain::models::enums::{
    Architecture, Language, Status, transition_allowed, status_display,
};
use crate::domain::models::timestamp::Timestamp;
use crate::domain::value_objects::{ProjectId, ProjectName};
use crate::domain::value_objects::project_name::id_from_name;
use crate::text::{string_views, chars_of, owned, char_is_whitespace, is_blank, is_white_space, text_eq};

verus! {

/// The mathematical model of a [`Project`].
pub struct ProjectView {
    pub id: Seq<char>,
    pub name: Seq<char>,
    pub description: Seq<char>,
    pub language: Language,
    pub architecture: Architecture,
    pub path: Seq<char>,
    pub status: Status,
    pub frameworks: Seq<Seq<char>>,
    pub gitlab_url: Option<Seq<char>>,
    pub created_at: (i64, u32),
    pub updated_at: (i64, u32),
}

pub open spec fn option_string_view(o: Option<String>) -> Option<Seq<char>> {
    match o {
        Some(s) => Some(s@),
        None => None,
    }
}

/// `v` with only the modification time allowed to differ from `w`.
pub open spec fn same_but_updated(v: ProjectView, w: ProjectView) -> bool {
    &&& v.id == w.id
    &&& v.name == w.name
    &&& v.description == w.description
    &&& v.language == w.language
    &&& v.architecture == w.architecture
    &&& v.path == w.path
    &&& v.status == w.status
    &&& v.frameworks == w.frameworks
    &&& v.gitlab_url == w.gitlab_url
    &&& v.created_at == w.created_at
}

/// `s` without its element at index `i`.
pub open spec fn seq_without<A>(s: Seq<A>, i: int) -> Seq<A> {
    s.subrange(0, i) + s.subrange(i + 1, s.len() as int)
}

/// A portfolio project.
#[derive(Debug)]
pub struct Project {
    id: ProjectId,
    name: ProjectName,
    description: String,
    language: Language,
    architecture: Architecture,
    path: String,
    status: Status,
    frameworks: Vec<String>,
    gitlab_url: Option<String>,
    created_at: Timestamp,
    updated_at: Timestamp,
}

impl View for Project {
    type V = ProjectView;

    closed spec fn view(&self) -> ProjectView {
        ProjectView {
            id: self.id@,
            name: self.name@,
            description: self.description@,
            language: self.language,
            architecture: self.architecture,
            path: self.path@,
            status: self.status,
            frameworks: string_views(self.frameworks@),
            gitlab_url: option_string_view(self.gitlab_url),
            created_at: self.created_at@,
            updated_at: self.updated_at@,
        }
    }
}

impl Clone for Project {
    fn clone(&self) -> (r: Self)
        ensures
            r@ == self@,
    {
        let frameworks = self.frameworks.clone();
        proof {
            assert(string_views(frameworks@) =~= string_views(self.frameworks@));
        }
        let gitlab_url = match &self.gitlab_url {
            Some(u) => Some(u.clone()),
            None => None,
        };
        Project {
            id: self.id.clone(),
            name: self.name.clone(),
            description: self.description.clone(),
            language: self.language,
            architecture: self.architecture,
            path: self.path.clone(),
            status: self.status,
            frameworks,
            gitlab_url,
            created_at: self.created_at.clone(),
            updated_at: self.updated_at.clone(),
        }
    }
}

impl Project {
    /// A new project: its identifier derived from its name, no description,
    /// no frameworks, no repository link, status [`Status::Planned`], created
    /// and modified at `now`.
    pub fn new(
        name: ProjectName,
        language: Language,
        architecture: Architecture,
        path: &str,
        now: &Timestamp,
    ) -> (r: Project)
        ensures
            r@.id == id_from_name(name@),
            r@.name == name@,
            r@.description == Seq::<char>::empty(),
            r@.language == language,
            r@.architecture == architecture,
            r@.path == path@,
            r@.status == Status::Planned,
            r@.frameworks == Seq::<Seq<char>>::empty(),
            r@.gitlab_url is None,
            r@.created_at == now@,
            r@.updated_at == now@,
    {
        let id = name.to_id();
        let p = Project {
            id,
            name,
            description: String::new(),
            language,
            architecture,
            path: owned(path),
            status: Status::Planned,
            frameworks: Vec::new(),
            gitlab_url: None,
            created_at: now.clone(),
            updated_at: now.clone(),
        };
        proof {
            assert(string_views(p.frameworks@) =~= Seq::<Seq<char>>::empty());
        }
        p
    }

    /// A project with every field given.
    pub fn with_all_fields(
        id: ProjectId,
        name: ProjectName,
        description: String,
        language: Language,
        architecture: Architecture,
        path: String,
        status: Status,
        frameworks: Vec<String>,
        gitlab_url: Option<String>,
        created_at: Timestamp,
        updated_at: Timestamp,
    ) -> (r: Project)
        ensures
            r@ == (ProjectView {
                id: id@,
                name: name@,
                description: description@,
                language,
                architecture,
                path: path@,
                status,
                frameworks: string_views(frameworks@),
                gitlab_url: option_string_view(gitlab_url),
                created_at: created_at@,
                updated_at: updated_at@,
            }),
    {
        Project {
            id,
            name,
            description,
            language,
            architecture,
            path,
            status,
            frameworks,
            gitlab_url,
            created_at,
            updated_at,
        }
    }

    pub fn id(&self) -> (r: &ProjectId)
        ensures
            r@ == self@.id,
    {
        &self.id
    }

    pub fn name(&self) -> (r: &ProjectName)
        ensures
            r@ == self@.name,
    {
        &self.name
    }

    pub fn description(&self) -> (r: &str)
        ensures
            r@ == self@.description,
    {
        self.description.as_str()
    }

    pub fn language(&self) -> (r: Language)
        ensures
            r == self@.language,
    {
        self.language
    }

    pub fn architecture(&self) -> (r: Architecture)
        ensures
            r == self@.architecture,
    {
        self.architecture
    }

    pub fn path(&self) -> (r: &str)
        ensures
            r@ == self@.path,
    {
        self.path.as_str()
    }

    pub fn status(&self) -> (r: Status)
        ensures
            r == self@.status,
    {
        self.status
    }

    pub fn frameworks(&self) -> (r: &[String])
        ensures
            string_views(r@) == self@.frameworks,
    {
        self.frameworks.as_slice()
    }

    pub fn gitlab_url(&self) -> (r: Option<&str>)
        ensures
            match r {
                Some(u) => self@.gitlab_url == Some(u@),
                None => self@.gitlab_url is None,
            },
    {
        match &self.gitlab_url {
            Some(u) => Some(u.as_str()),
            None => None,
        }
    }

    pub fn created_at(&self) -> (r: Timestamp)
        ensures
            r@ == self@.created_at,
    {
        self.created_at.clone()
    }

    pub fn updated_at(&self) -> (r: Timestamp)
        ensures
            r@ == self@.updated_at,
    {
        self.updated_at.clone()
    }

    /// Replaces the description and records `now` as the modification time.
    pub fn set_description(&mut self, description: &str, now: &Timestamp)
        ensures
            same_but_updated(final(self)@, (ProjectView { description: description@, ..old(self)@ })),
            final(self)@.updated_at == now@,
    {
        self.description = owned(description);
        self.touch(now);
    }

    /// Moves the project to `new_status` when [`Status::can_transition_to`]
    /// allows it, recording `now` as the modification time; otherwise leaves
    /// the project as it is and reports the refused move.
    pub fn set_status(&mut self, new_status: Status, now: &Timestamp) -> (r: Result<(), DomainError>)
        ensures
            transition_allowed(old(self)@.status, new_status) <==> (r is Ok),
            r is Ok ==> same_but_updated(
                final(self)@,
                (ProjectView { status: new_status, ..old(self)@ }),
            ),
            r is Ok ==> final(self)@.updated_at == now@,
            r is Err ==> final(self)@ == old(self)@ && r->Err_0@
                == (DomainErrorView::InvalidStatusTransition {
                from: status_display(old(self)@.status),
                to: status_display(new_status),
            }),
    {
        if !self.status.can_transition_to(new_status) {
            return Err(
                DomainError::InvalidStatusTransition {
                    from: self.status.to_string(),
                    to: new_status.to_string(),
                },
            );
        }
        self.status = new_status;
        self.touch(now);
        Ok(())
    }

    /// Sets the status without checking the move, recording `now` as the
    /// modification time.
    pub fn force_set_status(&mut self, status: Status, now: &Timestamp)
        ensures
            same_but_updated(final(self)@, (ProjectView { status, ..old(self)@ })),
            final(self)@.updated_at == now@,
    {
        self.status = status;
        self.touch(now);
    }

    /// Adds a framework: refused when its name is blank or already listed;
    /// otherwise appended, with `now` recorded as the modification time.
    pub fn add_framework(&mut self, framework: &str, now: &Timestamp) -> (r: Result<(), DomainError>)
        ensures
            r is Ok <==> (!is_blank(framework@) && !old(self)@.frameworks.contains(framework@)),
            r is Ok ==> same_but_updated(
                final(self)@,
                (ProjectView { frameworks: old(self)@.frameworks.push(framework@), ..old(self)@ }),
            ),
            r is Ok ==> final(self)@.updated_at == now@,
            r is Err ==> final(self)@ == old(self)@,
            r is Err && is_blank(framework@) ==> r->Err_0@ == DomainErrorView::EmptyFrameworkName,
            r is Err && !is_blank(framework@) ==> r->Err_0@ == DomainErrorView::DuplicateFramework(
                framework@,
            ),
    {
        let cs = chars_of(framework);
        let mut i: usize = 0;
        let mut blank = true;
        while i < cs.len()
            invariant
                cs@ == framework@,
                i <= cs.len(),
                blank == (forall|j: int| 0 <= j < i ==> is_white_space(#[trigger] cs@[j])),
            decreases cs.len() - i,
        {
            if !char_is_whitespace(cs[i]) {
                blank = false;
            }
            i = i + 1;
        }
        if blank {
            return Err(DomainError::EmptyFrameworkName);
        }
        if self.uses_framework(framework) {
            return Err(DomainError::DuplicateFramework(owned(framework)));
        }
        self.frameworks.push(owned(framework));
        proof {
            assert(string_views(self.frameworks@) =~= old(self)@.frameworks.push(framework@));
        }
        self.touch(now);
        Ok(())
    }

    /// Removes the first listing of `framework`, recording `now` as the
    /// modification time; `false`, with the project unchanged, when it is not
    /// listed.
    pub fn remove_framework(&mut self, framework: &str, now: &Timestamp) -> (r: bool)
        ensures
            r == old(self)@.frameworks.contains(framework@),
            !r ==> final(self)@ == old(self)@,
            r ==> final(self)@.updated_at == now@,
            r ==> exists|i: int|
                0 <= i < old(self)@.frameworks.len() && old(self)@.frameworks[i] == framework@
                    && (forall|j: int| 0 <= j < i ==> old(self)@.frameworks[j] != framework@)
                    && same_but_updated(
                    final(self)@,
                    (ProjectView {
                        frameworks: seq_without(old(self)@.frameworks, i),
                        ..old(self)@
                    }),
                ),
    {
        let mut i: usize = 0;
        while i < self.frameworks.len()
            invariant
                i <= self.frameworks.len(),
                self@ == old(self)@,
                forall|j: int| 0 <= j < i ==> self@.frameworks[j] != framework@,
            decreases self.frameworks.len() - i,
        {
            if text_eq(self.frameworks[i].as_str(), framework) {
                let ghost before = self.frameworks@;
                proof {
                    assert(old(self)@.frameworks[i as int] == framework@);
                }
                self.frameworks.remove(i);
                proof {
                    assert(string_views(self.frameworks@) =~= seq_without(
                        string_views(before),
                        i as int,
                    ));
                }
                self.touch(now);
                proof {
                    assert(old(self)@.frameworks.contains(framework@));
                    assert(same_but_updated(
                        self@,
                        (ProjectView {
                            frameworks: seq_without(old(self)@.frameworks, i as int),
                            ..old(self)@
                        }),
                    ));
                }
                return true;
            }
            i = i + 1;
        }
        false
    }

    /// Sets the repository link, recording `now` as the modification time.
    pub fn set_gitlab_url(&mut self, url: &str, now: &Timestamp)
        ensures
            same_but_updated(final(self)@, (ProjectView { gitlab_url: Some(url@), ..old(self)@ })),
            final(self)@.updated_at == now@,
    {
        self.gitlab_url = Some(owned(url));
        self.touch(now);
    }

    /// Removes the repository link, recording `now` as the modification time.
    pub fn clear_gitlab_url(&mut self, now: &Timestamp)
        ensures
            same_but_updated(final(self)@, (ProjectView { gitlab_url: None, ..old(self)@ })),
            final(self)@.updated_at == now@,
    {
        self.gitlab_url = None;
        self.touch(now);
    }

    /// Records `now` as the modification time.
    fn touch(&mut self, now: &Timestamp)
        ensures
            same_but_updated(final(self)@, old(self)@),
            final(self)@.updated_at == now@,
    {
        self.updated_at = now.clone();
    }

    pub fn is_completed(&self) -> (r: bool)
        ensures
            r == (self@.status == Status::Completed),
    {
        self.status == Status::Completed
    }

    pub fn is_in_progress(&self) -> (r: bool)
        ensures
            r == (self@.status == Status::InProgress),
    {
        self.status == Status::InProgress
    }

    pub fn is_planned(&self) -> (r: bool)
        ensures
            r == (self@.status == Status::Planned),
    {
        self.status == Status::Planned
    }

    pub fn is_archived(&self) -> (r: bool)
        ensures
            r == (self@.status == Status::Archived),
    {
        self.status == Status::Archived
    }

    /// Whether `framework` is listed.
    pub fn uses_framework(&self, framework: &str) -> (r: bool)
        ensures
            r == self@.frameworks.contains(framework@),
    {
        let mut i: usize = 0;
        while i < self.frameworks.len()
            invariant
                i <= self.frameworks.len(),
                forall|j: int| 0 <= j < i ==> self@.frameworks[j] != framework@,
            decreases self.frameworks.len() - i,
        {
            if text_eq(self.frameworks[i].as_str(), framework) {
                proof {
                    assert(self@.frameworks[i as int] == framework@);
                }
                return true;
            }
            i = i + 1;
        }
        false
    }

    pub fn has_gitlab_url(&self) -> (r: bool)
        ensures
            r == (self@.gitlab_url is Some),
    {
        self.gitlab_url.is_some()
    }

    /// Whole days from the creation time to `now`.
    pub fn age_in_days(&self, now: &Timestamp) -> (r: i64)
        ensures
            r == crate::domain::models::timestamp::chrono_days_between(
                now@.0,
                now@.1,
                self@.created_at.0,
                self@.created_at.1,
            ),
    {
        now.days_since(&self.created_at)
    }

    /// Whole days from the modification time to `now`.
    pub fn days_since_update(&self, now: &Timestamp) -> (r: i64)
        ensures
            r == crate::domain::models::timestamp::chrono_days_between(
                now@.0,
                now@.1,
                self@.updated_at.0,
                self@.updated_at.1,
            ),
    {
        now.days_since(&self.updated_at)
    }

    /// Whether two projects are the same project: the same identifier.
    pub fn same_project(&self, other: &Project) -> (r: bool)
        ensures
            r == (self@.id == other@.id),
    {
        self.id.same_as(&other.id)
    }
}

/// A framework that was just added is in use, and removing it gives back
/// the framework list as it was before the addition.
pub proof fn lemma_remove_undoes_add_framework(frameworks: Seq<Seq<char>>, f: Seq<char>)
    requires
        !frameworks.contains(f),
    ensures
        frameworks.push(f).contains(f),
        frameworks.push(f)[frameworks.len() as int] == f,
        forall|j: int| 0 <= j < frameworks.len() ==> frameworks.push(f)[j] != f,
        seq_without(frameworks.push(f), frameworks.len() as int) == frameworks,
{
    assert(frameworks.push(f)[frameworks.len() as int] == f);
    assert forall|j: int| 0 <= j < frameworks.len() implies frameworks.push(f)[j] != f by {
        assert(frameworks.push(f)[j] == frameworks[j]);
    }
    assert(seq_without(frameworks.push(f), frameworks.len() as int) =~= frameworks);
}

} // verus!

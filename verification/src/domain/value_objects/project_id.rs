//! Validated project identifiers.
use vstd::prelude::*;
use vstd::string::*;
use crate::domain::errors::{DomainError, DomainErrorView};
use crate::text::{chars_of, owned, concat, decimal_text, decimal, has_pair, is_ascii_lower, is_ascii_digit};

verus! {

/// Characters an identifier may hold: lowercase ASCII letters, ASCII digits
/// and the hyphen.
pub open spec fn is_id_char(c: char) -> bool {
    is_ascii_lower(c) || is_ascii_digit(c) || c == '-'
}

pub open spec fn all_id_chars(s: Seq<char>) -> bool {
    forall|i: int| 0 <= i < s.len() ==> is_id_char(#[trigger] s[i])
}

/// The first rule that `s` breaks as a project identifier, with the message
/// it is reported with, checked in this order: not empty, at most 255 characters,
/// only identifier characters, no hyphen at either end, no two hyphens in a
/// row. `None` when `s` is a valid identifier.
pub open spec fn project_id_problem(s: Seq<char>) -> Option<Seq<char>> {
    if s.len() == 0 {
        Some("Project ID cannot be empty"@)
    } else if s.len() > 255 {
        Some("Project ID too long: "@ + decimal(s.len()) + " characters"@)
    } else if !all_id_chars(s) {
        Some("Project ID must contain only lowercase letters, numbers, and hyphens"@)
    } else if s[0] == '-' || s.last() == '-' {
        Some("Project ID cannot start or end with a hyphen"@)
    } else if has_pair(s, '-', '-') {
        Some("Project ID cannot contain consecutive hyphens"@)
    } else {
        None
    }
}

pub open spec fn is_valid_project_id(s: Seq<char>) -> bool {
    project_id_problem(s) is None
}

/// A project identifier. Built through [`ProjectId::new`] it is always valid
/// (see [`is_valid_project_id`]); [`ProjectId::new_unchecked`] takes any text.
#[derive(Debug, PartialEq, Eq, Hash)]
pub struct ProjectId(String);

impl Clone for ProjectId {
    fn clone(&self) -> (r: Self)
        ensures
            r@ == self@,
    {
        ProjectId(self.0.clone())
    }
}

impl View for ProjectId {
    type V = Seq<char>;

    closed spec fn view(&self) -> Seq<char> {
        self.0@
    }
}

impl ProjectId {
    /// Validates `id` and wraps it.
    pub fn new(id: &str) -> (r: Result<ProjectId, DomainError>)
        ensures
            match r {
                Ok(pid) => project_id_problem(id@) is None && pid@ == id@,
                Err(e) => project_id_problem(id@) is Some
                    && e@ == DomainErrorView::InvalidProjectId(project_id_problem(id@)->0),
            },
    {
        let cs = chars_of(id);
        if cs.len() == 0 {
            return Err(DomainError::InvalidProjectId(owned("Project ID cannot be empty")));
        }
        let n = cs.len();
        if n > 255 {
            let head = concat("Project ID too long: ", decimal_text(n).as_str());
            return Err(DomainError::InvalidProjectId(concat(head.as_str(), " characters")));
        }
        let mut i: usize = 0;
        while i < cs.len()
            invariant
                cs@ == id@,
                cs.len() > 0,
                id@.len() <= 255,
                i <= cs.len(),
                forall|j: int| 0 <= j < i ==> is_id_char(#[trigger] cs@[j]),
            decreases cs.len() - i,
        {
            let c = cs[i];
            if !(('a' <= c && c <= 'z') || ('0' <= c && c <= '9') || c == '-') {
                proof {
                    assert(!is_id_char(id@[i as int]));
                }
                return Err(
                    DomainError::InvalidProjectId(
                        owned(
                            "Project ID must contain only lowercase letters, numbers, and hyphens",
                        ),
                    ),
                );
            }
            i = i + 1;
        }
        if cs[0] == '-' || cs[cs.len() - 1] == '-' {
            return Err(
                DomainError::InvalidProjectId(owned("Project ID cannot start or end with a hyphen")),
            );
        }
        let mut k: usize = 0;
        while k < cs.len()
            invariant
                cs@ == id@,
                cs.len() > 0,
                id@.len() <= 255,
                all_id_chars(id@),
                id@[0] != '-' && id@.last() != '-',
                k <= cs.len(),
                forall|j: int| 0 <= j < k && j < cs.len() - 1 ==> !(#[trigger] cs@[j] == '-' && cs@[j + 1] == '-'),
            decreases cs.len() - k,
        {
            if k + 1 < cs.len() && cs[k] == '-' && cs[k + 1] == '-' {
                proof {
                    assert(id@[k as int] == '-' && id@[k + 1] == '-');
                }
                return Err(
                    DomainError::InvalidProjectId(
                        owned("Project ID cannot contain consecutive hyphens"),
                    ),
                );
            }
            k = k + 1;
        }
        Ok(ProjectId(owned(id)))
    }

    /// Wraps `id` without checking it.
    pub fn new_unchecked(id: &str) -> (r: ProjectId)
        ensures
            r@ == id@,
    {
        ProjectId(owned(id))
    }

    /// Wraps an owned text without checking it.
    pub fn from_string_unchecked(id: String) -> (r: ProjectId)
        ensures
            r@ == id@,
    {
        ProjectId(id)
    }

    /// The identifier's text.
    pub fn as_str(&self) -> (r: &str)
        ensures
            r@ == self@,
    {
        self.0.as_str()
    }

    /// The identifier's text, owned.
    pub fn into_inner(self) -> (r: String)
        ensures
            r@ == self@,
    {
        self.0
    }

    /// Whether two identifiers hold the same text.
    pub fn same_as(&self, other: &ProjectId) -> (r: bool)
        ensures
            r == (self@ == other@),
    {
        self.0 == other.0
    }
}

} // verus!

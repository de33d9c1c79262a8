//! Validated project names and the identifiers derived from them.
use vstd::prelude::*;
use vstd::string::*;
use vstd::utf8::{is_ascii_chars, is_ascii_chars_encode_utf8};
use crate::domain::errors::{DomainError, DomainErrorView};
use crate::domain::value_objects::project_id::{ProjectId, is_valid_project_id, is_id_char, all_id_chars};
use crate::text::{chars_of, owned, char_is_whitespace, to_lowercase, string_from_chars, is_blank, is_white_space, has_char, has_pair, is_ascii_alnum, is_ascii_upper, unicode_lowercase, ascii_lowercase, ascii_lower_char};

verus! {

/// The first rule that `s` breaks as a project name, checked in this order:
/// not blank, at most 255 characters, no path separator, no `..`, no NUL
/// character. `None` when `s` is a valid name.
pub open spec fn project_name_problem(s: Seq<char>) -> Option<DomainErrorView> {
    if is_blank(s) {
        Some(DomainErrorView::EmptyProjectName)
    } else if s.len() > 255 {
        Some(DomainErrorView::ProjectNameTooLong(s.len()))
    } else if has_char(s, '/') || has_char(s, '\\') {
        Some(
            DomainErrorView::InvalidCharactersInName(
                "Project name cannot contain path separators"@,
            ),
        )
    } else if has_pair(s, '.', '.') {
        Some(DomainErrorView::InvalidCharactersInName("Project name cannot contain '..'"@))
    } else if has_char(s, '\0') {
        Some(DomainErrorView::InvalidCharactersInName("Project name cannot contain null bytes"@))
    } else {
        None
    }
}

pub open spec fn is_valid_project_name(s: Seq<char>) -> bool {
    project_name_problem(s) is None
}

/// Space and underscore become hyphens; every other character stays.
pub open spec fn hyphen_for_space(c: char) -> char {
    if c == ' ' || c == '_' {
        '-'
    } else {
        c
    }
}

/// Characters kept when a name is turned into an identifier: after
/// lowercasing, the ASCII letters are lowercase, so these are the ASCII
/// letters, the digits and the hyphen.
pub open spec fn is_id_source_char(c: char) -> bool {
    is_id_char(c)
}

/// `s` with spaces and underscores turned into hyphens, keeping only
/// lowercase ASCII letters, digits and hyphens.
pub open spec fn id_source(s: Seq<char>) -> Seq<char>
    decreases s.len(),
{
    if s.len() == 0 {
        Seq::empty()
    } else {
        let c = hyphen_for_space(s.last());
        let rest = id_source(s.drop_last());
        if is_id_source_char(c) {
            rest.push(c)
        } else {
            rest
        }
    }
}

pub open spec fn strip_leading_hyphens(s: Seq<char>) -> Seq<char>
    decreases s.len(),
{
    if s.len() > 0 && s[0] == '-' {
        strip_leading_hyphens(s.drop_first())
    } else {
        s
    }
}

pub open spec fn strip_trailing_hyphens(s: Seq<char>) -> Seq<char>
    decreases s.len(),
{
    if s.len() > 0 && s.last() == '-' {
        strip_trailing_hyphens(s.drop_last())
    } else {
        s
    }
}

/// `s` without the hyphens at either end.
pub open spec fn trim_hyphens(s: Seq<char>) -> Seq<char> {
    strip_trailing_hyphens(strip_leading_hyphens(s))
}

/// `s` with every run of hyphens shortened to a single hyphen.
pub open spec fn collapse_hyphens(s: Seq<char>) -> Seq<char>
    decreases s.len(),
{
    if s.len() == 0 {
        s
    } else {
        let rest = collapse_hyphens(s.drop_last());
        if s.last() == '-' && s.len() >= 2 && s[s.len() - 2] == '-' {
            rest
        } else {
            rest.push(s.last())
        }
    }
}

/// The identifier derived from a name: lowercased, spaces and underscores
/// turned into hyphens, other characters than lowercase ASCII letters, digits
/// and hyphens dropped, hyphens trimmed at both ends and runs of hyphens
/// collapsed; `project` when nothing is left.
pub open spec fn id_from_name(s: Seq<char>) -> Seq<char> {
    let c = collapse_hyphens(trim_hyphens(id_source(unicode_lowercase(s))));
    if c.len() == 0 {
        "project"@
    } else {
        c
    }
}

/// Identifier characters are ASCII, unchanged by ASCII lowercasing, and all
/// kept, as they are, when a name is turned into an identifier.
pub proof fn lemma_id_chars_kept(s: Seq<char>)
    requires
        all_id_chars(s),
    ensures
        is_ascii_chars(s),
        ascii_lowercase(s) == s,
        id_source(s) == s,
    decreases s.len(),
{
    assert forall|k: int| 0 <= k < s.len() implies #[trigger] ascii_lower_char(s[k]) == s[k]
        && '\0' <= s[k] <= '\u{7f}' by {
        assert(is_id_char(s[k]));
    }
    assert(ascii_lowercase(s) =~= s);
    if s.len() > 0 {
        let d = s.drop_last();
        assert(all_id_chars(d)) by {
            assert forall|k: int| 0 <= k < d.len() implies is_id_char(#[trigger] d[k]) by {
                assert(d[k] == s[k]);
            }
        }
        lemma_id_chars_kept(d);
        assert(is_id_char(s.last()));
        assert(d.push(s.last()) =~= s);
    }
}

/// Text without two hyphens in a row is unchanged by collapsing hyphens.
pub proof fn lemma_collapse_without_pairs(s: Seq<char>)
    requires
        !has_pair(s, '-', '-'),
    ensures
        collapse_hyphens(s) == s,
    decreases s.len(),
{
    if s.len() > 0 {
        let d = s.drop_last();
        assert(!has_pair(d, '-', '-')) by {
            if has_pair(d, '-', '-') {
                let i = choose|i: int| 0 <= i < d.len() - 1 && #[trigger] d[i] == '-' && d[i + 1] == '-';
                assert(s[i] == '-' && s[i + 1] == '-');
            }
        }
        lemma_collapse_without_pairs(d);
        if s.last() == '-' && s.len() >= 2 && s[s.len() - 2] == '-' {
            let i = s.len() - 2;
            assert(s[i] == '-' && s[i + 1] == '-');
        }
        assert(d.push(s.last()) =~= s);
    }
}

/// A name that is already a valid identifier, lowercased the ASCII way,
/// becomes itself: no character is changed or dropped, no hyphen is trimmed
/// or collapsed.
pub proof fn lemma_valid_id_is_its_own_id(s: Seq<char>)
    requires
        is_valid_project_id(s),
    ensures
        is_ascii_chars(s),
        ascii_lowercase(s) == s,
        collapse_hyphens(trim_hyphens(id_source(ascii_lowercase(s)))) == s,
{
    lemma_id_chars_kept(s);
    assert(strip_leading_hyphens(s) == s);
    assert(strip_trailing_hyphens(s) == s);
    lemma_collapse_without_pairs(s);
}

/// A validated project name (see [`is_valid_project_name`]).
#[derive(Debug, PartialEq, Eq)]
pub struct ProjectName(String);

impl Clone for ProjectName {
    fn clone(&self) -> (r: Self)
        ensures
            r@ == self@,
    {
        proof {
            use_type_invariant(self);
        }
        ProjectName(self.0.clone())
    }
}

impl View for ProjectName {
    type V = Seq<char>;

    closed spec fn view(&self) -> Seq<char> {
        self.0@
    }
}

impl ProjectName {
    #[verifier::type_invariant]
    spec fn name_is_valid(self) -> bool {
        is_valid_project_name(self.0@)
    }

    /// Validates `name` and wraps it.
    pub fn new(name: &str) -> (r: Result<ProjectName, DomainError>)
        ensures
            match r {
                Ok(n) => is_valid_project_name(name@) && n@ == name@,
                Err(e) => project_name_problem(name@) == Some(e@),
            },
    {
        let cs = chars_of(name);
        let mut i: usize = 0;
        let mut blank = true;
        while i < cs.len()
            invariant
                cs@ == name@,
                i <= cs.len(),
                blank == (forall|j: int| 0 <= j < i ==> is_white_space(#[trigger] cs@[j])),
            decreases cs.len() - i,
        {
            if !char_is_whitespace(cs[i]) {
                blank = false;
            }
            i = i + 1;
        }
        if blank {
            return Err(DomainError::EmptyProjectName);
        }
        let n = cs.len();
        if n > 255 {
            return Err(DomainError::ProjectNameTooLong(n));
        }
        let mut has_sep = false;
        let mut has_dots = false;
        let mut has_nul = false;
        let mut k: usize = 0;
        while k < cs.len()
            invariant
                cs@ == name@,
                k <= cs.len(),
                has_sep == (exists|j: int| 0 <= j < k && (#[trigger] cs@[j] == '/' || cs@[j] == '\\')),
                has_nul == (exists|j: int| 0 <= j < k && #[trigger] cs@[j] == '\0'),
                has_dots == (exists|j: int| 0 <= j < k && j < cs.len() - 1 && #[trigger] cs@[j] == '.' && cs@[j + 1] == '.'),
            decreases cs.len() - k,
        {
            let c = cs[k];
            if c == '/' || c == '\\' {
                has_sep = true;
            }
            if c == '\0' {
                has_nul = true;
            }
            if k + 1 < cs.len() && c == '.' && cs[k + 1] == '.' {
                has_dots = true;
            }
            k = k + 1;
        }
        proof {
            assert(has_sep == (has_char(name@, '/') || has_char(name@, '\\')));
        }
        if has_sep {
            return Err(
                DomainError::InvalidCharactersInName(
                    owned("Project name cannot contain path separators"),
                ),
            );
        }
        if has_dots {
            return Err(
                DomainError::InvalidCharactersInName(owned("Project name cannot contain '..'")),
            );
        }
        if has_nul {
            return Err(
                DomainError::InvalidCharactersInName(owned("Project name cannot contain null bytes")),
            );
        }
        Ok(ProjectName(owned(name)))
    }

    /// The identifier derived from this name (see [`id_from_name`]). For every
    /// name it is non-empty, made of identifier characters, with no hyphen at
    /// either end and no two hyphens in a row, so it is valid unless it is
    /// longer than 255 characters; for a name of ASCII characters it is valid,
    /// and a name that is already a valid identifier is its own identifier.
    pub fn to_id(&self) -> (r: ProjectId)
        ensures
            r@ == id_from_name(self@),
            r@.len() > 0,
            all_id_chars(r@),
            r@[0] != '-' && r@.last() != '-',
            !has_pair(r@, '-', '-'),
            r@.len() <= 255 ==> is_valid_project_id(r@),
            is_ascii_chars(self@) ==> is_valid_project_id(r@),
            is_valid_project_id(self@) ==> r@ == self@,
    {
        proof {
            use_type_invariant(self);
            if is_valid_project_id(self@) {
                lemma_valid_id_is_its_own_id(self@);
            }
        }
        let lowered = to_lowercase(self.0.as_str());
        let src = chars_of(lowered.as_str());
        let ghost ascii = is_ascii_chars(self@);
        proof {
            if ascii {
                is_ascii_chars_encode_utf8(self@);
                assert(src@ == ascii_lowercase(self@));
                assert forall|k: int| 0 <= k < src@.len() implies !is_ascii_upper(#[trigger] src@[k]) by {
                    assert(src@[k] == ascii_lower_char(self@[k]));
                }
            }
        }
        // Spaces and underscores become hyphens; only lowercase letters, digits
        // and hyphens stay.
        let mut kept: Vec<char> = Vec::new();
        let mut i: usize = 0;
        while i < src.len()
            invariant
                i <= src.len(),
                kept@ == id_source(src@.take(i as int)),
                kept.len() <= i,
                ascii ==> src@.len() <= 255,
                forall|k: int| 0 <= k < kept@.len() ==> is_id_char(#[trigger] kept@[k]),
            decreases src.len() - i,
        {
            let c0 = src[i];
            let c = if c0 == ' ' || c0 == '_' {
                '-'
            } else {
                c0
            };
            proof {
                assert(src@.take(i + 1).drop_last() =~= src@.take(i as int));
                assert(src@.take(i + 1).last() == c0);
            }
            if ('a' <= c && c <= 'z') || ('0' <= c && c <= '9') || c == '-' {
                kept.push(c);
            }
            i = i + 1;
        }
        proof {
            assert(src@.take(src@.len() as int) =~= src@);
            assert(kept@.subrange(0, kept@.len() as int) =~= kept@);
        }
        // Hyphens at either end go.
        let mut start: usize = 0;
        while start < kept.len() && kept[start] == '-'
            invariant
                start <= kept.len(),
                strip_leading_hyphens(kept@) == strip_leading_hyphens(
                    kept@.subrange(start as int, kept@.len() as int),
                ),
            decreases kept.len() - start,
        {
            proof {
                let sub = kept@.subrange(start as int, kept@.len() as int);
                assert(sub.drop_first() =~= kept@.subrange(start + 1, kept@.len() as int));
            }
            start = start + 1;
        }
        let ghost lead = kept@.subrange(start as int, kept@.len() as int);
        proof {
            assert(strip_leading_hyphens(lead) == lead);
        }
        let mut end: usize = kept.len();
        while end > start && kept[end - 1] == '-'
            invariant
                start <= end <= kept.len(),
                lead == kept@.subrange(start as int, kept@.len() as int),
                strip_trailing_hyphens(lead) == strip_trailing_hyphens(
                    kept@.subrange(start as int, end as int),
                ),
            decreases end,
        {
            proof {
                let sub = kept@.subrange(start as int, end as int);
                assert(sub.drop_last() =~= kept@.subrange(start as int, end - 1));
            }
            end = end - 1;
        }
        let ghost trimmed = kept@.subrange(start as int, end as int);
        proof {
            assert(strip_trailing_hyphens(trimmed) == trimmed);
            assert(trim_hyphens(kept@) == trimmed);
        }
        // Runs of hyphens become a single hyphen.
        let mut out: Vec<char> = Vec::new();
        let mut j: usize = start;
        while j < end
            invariant
                start <= j <= end <= kept.len(),
                trimmed == kept@.subrange(start as int, end as int),
                start < end ==> kept@[start as int] != '-' && kept@[end - 1] != '-',
                out@ == collapse_hyphens(kept@.subrange(start as int, j as int)),
                out.len() <= j - start,
                j > start ==> out.len() > 0 && out@[0] == kept@[start as int],
                j > start ==> out@.last() == '-' ==> kept@[j - 1] == '-',
                forall|k: int| 0 <= k < out@.len() - 1 ==> !(#[trigger] out@[k] == '-' && out@[k + 1] == '-'),
                forall|k: int| 0 <= k < kept@.len() ==> is_id_char(#[trigger] kept@[k]),
                forall|k: int| 0 <= k < out@.len() ==> is_id_char(#[trigger] out@[k]),
            decreases end - j,
        {
            let c = kept[j];
            proof {
                let sub = kept@.subrange(start as int, j + 1);
                assert(sub.drop_last() =~= kept@.subrange(start as int, j as int));
                assert(sub.last() == c);
                if j > start {
                    assert(sub[sub.len() - 2] == kept@[j - 1]);
                }
            }
            if !(c == '-' && j > start && kept[j - 1] == '-') {
                out.push(c);
            }
            j = j + 1;
        }
        proof {
            assert(collapse_hyphens(trimmed) == out@);
        }
        if out.len() == 0 {
            proof {
                reveal_strlit("project");
                assert(is_ascii_chars("project"@));
                assert(all_id_chars("project"@));
                is_ascii_chars_encode_utf8("project"@);
                assert(!has_pair("project"@, '-', '-'));
            }
            ProjectId::new_unchecked("project")
        } else {
            proof {
                assert(out@.last() != '-');
                assert(out@[0] != '-');
                if ascii {
                    assert(is_ascii_chars(out@));
                    is_ascii_chars_encode_utf8(out@);
                    assert(out@.len() <= 255);
                    assert(out@.last() != '-');
                }
            }
            ProjectId::from_string_unchecked(string_from_chars(&out))
        }
    }

    /// The name's text.
    pub fn as_str(&self) -> (r: &str)
        ensures
            r@ == self@,
    {
        self.0.as_str()
    }

    /// The name's text, owned.
    pub fn into_inner(self) -> (r: String)
        ensures
            r@ == self@,
    {
        self.0
    }
}

} // verus!

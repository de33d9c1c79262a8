//! Opening projects in an editor or a terminal, and the check that keeps the
//! editor inside the portfolio.
use vstd::prelude::*;
use vstd::string::*;
use crate::infrastructure::errors::InfrastructureError;
use crate::text::{chars_of, concat, owned, string_from_chars, string_views, text_eq};

verus! {

/// The pieces of a path between separators, empty pieces included.
pub open spec fn split_path(s: Seq<char>) -> Seq<Seq<char>>
    decreases s.len(),
{
    if s.len() == 0 {
        seq![Seq::empty()]
    } else {
        let r = split_path(s.drop_last());
        if s.last() == '/' {
            r.push(Seq::empty())
        } else {
            r.update(r.len() - 1, r.last().push(s.last()))
        }
    }
}

/// The pieces that name something: neither empty nor `.`.
pub open spec fn named_pieces(pieces: Seq<Seq<char>>) -> Seq<Seq<char>>
    decreases pieces.len(),
{
    if pieces.len() == 0 {
        pieces
    } else {
        let r = named_pieces(pieces.drop_last());
        let p = pieces.last();
        if p.len() == 0 || p == "."@ {
            r
        } else {
            r.push(p)
        }
    }
}

/// The components of a Unix path, as `Path::components` reads them: `/` for
/// the root, `.` for a leading current directory, then every named piece.
pub open spec fn path_components(s: Seq<char>) -> Seq<Seq<char>> {
    let pieces = split_path(s);
    let lead = if s.len() > 0 && s[0] == '/' {
        seq!["/"@]
    } else if pieces[0] == "."@ {
        seq!["."@]
    } else {
        Seq::empty()
    };
    lead + named_pieces(pieces)
}

/// Whether `base` is a leading part of `path`, component by component, as
/// `Path::starts_with` decides.
pub open spec fn path_starts_with(path: Seq<char>, base: Seq<char>) -> bool {
    let p = path_components(path);
    let b = path_components(base);
    b.len() <= p.len() && p.take(b.len() as int) == b
}

pub proof fn lemma_split_path_nonempty(s: Seq<char>)
    ensures
        split_path(s).len() >= 1,
    decreases s.len(),
{
    if s.len() > 0 {
        lemma_split_path_nonempty(s.drop_last());
    }
}

/// The pieces of a path.
fn split_pieces(s: &str) -> (r: Vec<String>)
    ensures
        string_views(r@) == split_path(s@),
{
    let cs = chars_of(s);
    let mut done: Vec<String> = Vec::new();
    let mut cur: Vec<char> = Vec::new();
    let mut i: usize = 0;
    while i < cs.len()
        invariant
            cs@ == s@,
            i <= cs.len(),
            string_views(done@).push(cur@) == split_path(cs@.take(i as int)),
        decreases cs.len() - i,
    {
        let c = cs[i];
        proof {
            assert(cs@.take(i + 1).drop_last() =~= cs@.take(i as int));
            assert(cs@.take(i + 1).last() == c);
            lemma_split_path_nonempty(cs@.take(i as int));
        }
        if c == '/' {
            let piece = string_from_chars(&cur);
            done.push(piece);
            cur = Vec::new();
            proof {
                assert(string_views(done@).push(cur@) =~= split_path(cs@.take(i as int)).push(Seq::empty()));
            }
        } else {
            let ghost before = cur@;
            cur.push(c);
            proof {
                let r = split_path(cs@.take(i as int));
                assert(string_views(done@).push(cur@) =~= r.update(r.len() - 1, r.last().push(c)));
            }
        }
        i = i + 1;
    }
    proof {
        assert(cs@.take(cs@.len() as int) =~= cs@);
    }
    let last = string_from_chars(&cur);
    done.push(last);
    proof {
        assert(string_views(done@) =~= split_path(s@));
    }
    done
}

/// The components of a path.
pub fn components_of(s: &str) -> (r: Vec<String>)
    ensures
        string_views(r@) == path_components(s@),
{
    let pieces = split_pieces(s);
    let ghost ps = split_path(s@);
    proof {
        lemma_split_path_nonempty(s@);
        assert(pieces@[0]@ == ps[0]);
    }
    let mut r: Vec<String> = Vec::new();
    let cs = chars_of(s);
    if cs.len() > 0 && cs[0] == '/' {
        r.push(owned("/"));
    } else if text_eq(pieces[0].as_str(), ".") {
        r.push(owned("."));
    }
    let ghost lead = string_views(r@);
    proof {
        assert(lead =~= (if s@.len() > 0 && s@[0] == '/' {
            seq!["/"@]
        } else if ps[0] == "."@ {
            seq!["."@]
        } else {
            Seq::empty()
        }));
    }
    let mut i: usize = 0;
    while i < pieces.len()
        invariant
            i <= pieces@.len(),
            string_views(pieces@) == ps,
            r@.len() == lead.len() + named_pieces(ps.take(i as int)).len(),
            string_views(r@) == lead + named_pieces(ps.take(i as int)),
        decreases pieces@.len() - i,
    {
        proof {
            assert(ps.take(i + 1).drop_last() =~= ps.take(i as int));
            assert(ps.take(i + 1).last() == pieces@[i as int]@);
        }
        let p = &pieces[i];
        if !(p.as_str().unicode_len() == 0 || text_eq(p.as_str(), ".")) {
            let ghost before = r@;
            let q = p.clone();
            r.push(q);
            proof {
                let want = lead + named_pieces(ps.take(i as int)).push(p@);
                let had = lead + named_pieces(ps.take(i as int));
                assert forall|k: int| 0 <= k < r@.len() implies #[trigger] string_views(r@)[k] == want[k] by {
                    if k < before.len() {
                        assert(r@[k] == before[k]);
                        assert(string_views(before)[k] == had[k]);
                    } else {
                        assert(r@[k] == q);
                    }
                }
                assert(string_views(r@) =~= want);
            }
        }
        i = i + 1;
    }
    proof {
        assert(ps.take(ps.len() as int) =~= ps);
    }
    r
}

/// Whether `path` lies under `base`, component by component.
pub fn starts_with_path(path: &str, base: &str) -> (r: bool)
    ensures
        r == path_starts_with(path@, base@),
{
    let p = components_of(path);
    let b = components_of(base);
    if b.len() > p.len() {
        return false;
    }
    let mut i: usize = 0;
    while i < b.len()
        invariant
            string_views(p@) == path_components(path@),
            string_views(b@) == path_components(base@),
            b.len() <= p.len(),
            i <= b.len(),
            forall|k: int| 0 <= k < i ==> p@[k]@ == b@[k]@,
        decreases b.len() - i,
    {
        if !text_eq(p[i].as_str(), b[i].as_str()) {
            proof {
                let pv = string_views(p@);
                let bv = string_views(b@);
                assert(pv.take(bv.len() as int)[i as int] == p@[i as int]@);
                assert(bv[i as int] == b@[i as int]@);
                assert(pv.take(bv.len() as int)[i as int] != bv[i as int]);
                assert(pv.take(bv.len() as int) != bv);
            }
            return false;
        }
        i = i + 1;
    }
    proof {
        assert(string_views(p@).take(b.len() as int) =~= string_views(b@));
    }
    true
}

/// Opens paths in an editor, when given a root only paths under that root.
pub struct SystemEditorService {
    allowed_root: Option<String>,
}

impl View for SystemEditorService {
    type V = Option<Seq<char>>;

    closed spec fn view(&self) -> Option<Seq<char>> {
        match self.allowed_root {
            Some(r) => Some(r@),
            None => None,
        }
    }
}

impl SystemEditorService {
    /// An editor service for any path.
    pub fn new() -> (r: SystemEditorService)
        ensures
            r@ is None,
    {
        SystemEditorService { allowed_root: None }
    }

    /// An editor service for paths under `root` only.
    pub fn with_allowed_root(root: &str) -> (r: SystemEditorService)
        ensures
            r@ == Some(root@),
    {
        SystemEditorService { allowed_root: Some(owned(root)) }
    }

    /// The root paths must lie under, if any.
    pub fn allowed_root(&self) -> (r: Option<&str>)
        ensures
            match r {
                Some(t) => self@ == Some(t@),
                None => self@ is None,
            },
    {
        match &self.allowed_root {
            Some(t) => Some(t.as_str()),
            None => None,
        }
    }

    /// Whether the canonical form of a path may be opened: always without a
    /// root; with one, when it lies under the root.
    pub fn check_canonical_path(&self, canonical: &str) -> (r: Result<(), InfrastructureError>)
        ensures
            (r is Ok) <==> (match self@ {
                Some(root) => path_starts_with(canonical@, root),
                None => true,
            }),
            r is Err ==> (r matches Err(InfrastructureError::InvalidPath(m)) && m@ == "Path "@
                + canonical@ + " is outside allowed root "@ + self@->0),
    {
        match &self.allowed_root {
            None => Ok(()),
            Some(root) => {
                if starts_with_path(canonical, root.as_str()) {
                    Ok(())
                } else {
                    let a = concat("Path ", canonical);
                    let b = concat(a.as_str(), " is outside allowed root ");
                    Err(InfrastructureError::InvalidPath(concat(b.as_str(), root.as_str())))
                }
            },
        }
    }
}

impl Default for SystemEditorService {
    fn default() -> (r: SystemEditorService)
        ensures
            r@ is None,
    {
        SystemEditorService::new()
    }
}

/// Opens terminals.
pub struct SystemTerminalService;

impl SystemTerminalService {
    pub fn new() -> (r: SystemTerminalService) {
        SystemTerminalService
    }
}

impl Default for SystemTerminalService {
    fn default() -> (r: SystemTerminalService) {
        SystemTerminalService::new()
    }
}

} // verus!

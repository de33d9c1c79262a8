//! Version control with git: the arguments of each command.
use vstd::prelude::*;
use vstd::string::*;
use crate::text::{join_path, owned, path_join, string_views};

verus! {

/// Runs git.
pub struct GitService;

impl GitService {
    pub fn new() -> (r: GitService) {
        GitService
    }

    /// The arguments that make a repository.
    pub fn init_arguments(&self) -> (r: Vec<String>)
        ensures
            string_views(r@) == seq!["init"@],
    {
        let mut v: Vec<String> = Vec::new();
        v.push(owned("init"));
        proof {
            assert(string_views(v@) =~= seq!["init"@]);
        }
        v
    }

    /// The arguments that stage `files`.
    pub fn add_arguments(&self, files: &[&str]) -> (r: Vec<String>)
        ensures
            string_views(r@) == seq!["add"@] + files@.map_values(|f: &str| f@),
    {
        let mut v: Vec<String> = Vec::new();
        v.push(owned("add"));
        let mut i: usize = 0;
        while i < files.len()
            invariant
                i <= files@.len(),
                v@.len() == i + 1,
                string_views(v@) == seq!["add"@] + files@.take(i as int).map_values(|f: &str| f@),
            decreases files@.len() - i,
        {
            let ghost before = v@;
            v.push(owned(files[i]));
            proof {
                let want = seq!["add"@] + files@.take(i + 1).map_values(|f: &str| f@);
                let had = seq!["add"@] + files@.take(i as int).map_values(|f: &str| f@);
                assert forall|k: int| 0 <= k < v@.len() implies #[trigger] string_views(v@)[k] == want[k] by {
                    if k <= i {
                        assert(v@[k] == before[k]);
                        assert(string_views(before)[k] == had[k]);
                    }
                }
                assert(string_views(v@) =~= want);
            }
            i = i + 1;
        }
        proof {
            assert(files@.take(files@.len() as int) =~= files@);
        }
        v
    }

    /// The arguments that commit with `message`.
    pub fn commit_arguments(&self, message: &str) -> (r: Vec<String>)
        ensures
            string_views(r@) == seq!["commit"@, "-m"@, message@],
    {
        let mut v: Vec<String> = Vec::new();
        v.push(owned("commit"));
        v.push(owned("-m"));
        v.push(owned(message));
        proof {
            assert(string_views(v@) =~= seq!["commit"@, "-m"@, message@]);
        }
        v
    }

    /// The directory whose presence makes `path` a repository.
    pub fn git_dir(&self, path: &str) -> (r: String)
        ensures
            r@ == path_join(path@, ".git"@),
    {
        join_path(path, ".git")
    }
}

impl Default for GitService {
    fn default() -> (r: GitService) {
        GitService::new()
    }
}

} // verus!

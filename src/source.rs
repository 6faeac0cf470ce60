//! Keeping a Halide source tree: cloning, updating and building it.
use vstd::prelude::*;
use crate::invocation::{Invocation, opt_view, push_all};
use crate::text::views;

verus! {

/// Where a Halide source tree lives, where it comes from and how it is built.
pub struct Source {
    /// Path to the source tree.
    pub halide_path: String,
    /// The repository to clone.
    pub repo: String,
    /// The branch to follow.
    pub branch: String,
    /// The `make` program.
    pub make: String,
    /// Arguments to `make`.
    pub make_flags: Vec<String>,
}

impl Source {
    /// Describes the first download: `git clone -b <branch> <repo> <path>`.
    pub fn download_command(&self) -> (r: Invocation)
        ensures
            r.program@ == "git"@,
            views(r.args@) == seq!["clone"@, "-b"@, self.branch@, self.repo@, self.halide_path@],
            r.dir is None,
            r.env@.len() == 0,
    {
        let mut a: Vec<String> = Vec::new();
        a.push("clone".to_owned());
        a.push("-b".to_owned());
        a.push(self.branch.clone());
        a.push(self.repo.clone());
        a.push(self.halide_path.clone());
        assert(views(a@) =~= seq!["clone"@, "-b"@, self.branch@, self.repo@, self.halide_path@]);
        Invocation { program: "git".to_owned(), args: a, dir: None, env: Vec::new() }
    }

    /// Describes an update: `git pull origin <branch>`, run inside the tree.
    pub fn update_command(&self) -> (r: Invocation)
        ensures
            r.program@ == "git"@,
            views(r.args@) == seq!["pull"@, "origin"@, self.branch@],
            opt_view(r.dir) == Some(self.halide_path@),
            r.env@.len() == 0,
    {
        let mut a: Vec<String> = Vec::new();
        a.push("pull".to_owned());
        a.push("origin".to_owned());
        a.push(self.branch.clone());
        assert(views(a@) =~= seq!["pull"@, "origin"@, self.branch@]);
        Invocation {
            program: "git".to_owned(),
            args: a,
            dir: Some(self.halide_path.clone()),
            env: Vec::new(),
        }
    }

    /// Describes building the tree: `make` with its flags, run inside it.
    pub fn build_command(&self) -> (r: Invocation)
        ensures
            r.program@ == self.make@,
            views(r.args@) == views(self.make_flags@),
            opt_view(r.dir) == Some(self.halide_path@),
            r.env@.len() == 0,
    {
        let mut a: Vec<String> = Vec::new();
        push_all(&mut a, &self.make_flags);
        assert(views(a@) =~= views(self.make_flags@));
        Invocation {
            program: self.make.clone(),
            args: a,
            dir: Some(self.halide_path.clone()),
            env: Vec::new(),
        }
    }
}

} // verus!

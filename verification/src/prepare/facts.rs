use vstd::prelude::*;

use crate::text::{contains_string, lemma_push_contains, views};

verus! {

/// What is known of the file system: the paths that exist and the directories that
/// can be written to. Gathered by the caller; validation reads only this.
#[derive(Debug)]
pub struct PathFacts {
    pub existing: Vec<String>,
    pub writable: Vec<String>,
}

impl PathFacts {
    /// Whether `p` is known to exist.
    pub open spec fn is_present(&self, p: Seq<char>) -> bool {
        views(self.existing@).contains(p)
    }

    /// Whether `p` is known to be a writable directory.
    pub open spec fn writable(&self, p: Seq<char>) -> bool {
        views(self.writable@).contains(p)
    }

    /// Nothing known to exist.
    pub fn new() -> (r: Self)
        ensures
            forall|p: Seq<char>| !r.is_present(p) && !r.writable(p),
    {
        PathFacts { existing: Vec::new(), writable: Vec::new() }
    }

    /// Record that `p` exists.
    pub fn add_existing(&mut self, p: String)
        ensures
            forall|q: Seq<char>| final(self).is_present(q) == (old(self).is_present(q) || q == p@),
            forall|q: Seq<char>| final(self).writable(q) == old(self).writable(q),
    {
        let ghost before = views(self.existing@);
        self.existing.push(p);
        assert(views(self.existing@) =~= before.push(p@));
        assert forall|q: Seq<char>| views(self.existing@).contains(q) == (before.contains(q) || q == p@) by {
            lemma_push_contains(before, p@, q);
        }
    }

    /// Record that `p` is a writable directory.
    pub fn add_writable(&mut self, p: String)
        ensures
            forall|q: Seq<char>| final(self).writable(q) == (old(self).writable(q) || q == p@),
            forall|q: Seq<char>| final(self).is_present(q) == old(self).is_present(q),
    {
        let ghost before = views(self.writable@);
        self.writable.push(p);
        assert(views(self.writable@) =~= before.push(p@));
        assert forall|q: Seq<char>| views(self.writable@).contains(q) == (before.contains(q) || q == p@) by {
            lemma_push_contains(before, p@, q);
        }
    }

    /// Whether `p` is known to exist.
    pub fn path_exists(&self, p: &str) -> (r: bool)
        ensures
            r == self.is_present(p@),
    {
        contains_string(&self.existing, p)
    }

    /// Whether `p` is known to be a writable directory.
    pub fn dir_writable(&self, p: &str) -> (r: bool)
        ensures
            r == self.writable(p@),
    {
        contains_string(&self.writable, p)
    }
}

} // verus!

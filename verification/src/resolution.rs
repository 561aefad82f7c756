//! Resolving paths of which only the beginning exists.

use crate::paths::components;
use crate::paths::file_name;
use crate::paths::join_path;
use crate::paths::joined;
use crate::paths::last_name;
use crate::paths::name_cut;
use crate::paths::parent;
use crate::paths::parent_text;
use crate::paths::tail_trimmed;
use crate::text::views;
use vstd::prelude::*;

verus! {

/// The search for the nearest directory on the way to a path that can be
/// resolved.
#[derive(Debug, PartialEq, Eq)]
pub struct PathSearch {
    /// The path to try next.
    pub current: String,
    /// The names below it, the outermost last.
    pub missing: Vec<String>,
}

/// The view of a [`PathSearch`].
#[verifier::ext_equal]
pub struct PathSearchView {
    pub current: Seq<char>,
    pub missing: Seq<Seq<char>>,
}

impl View for PathSearch {
    type V = PathSearchView;

    open spec fn view(&self) -> PathSearchView {
        PathSearchView { current: self.current@, missing: views(self.missing@) }
    }
}

/// The names put back under a directory, the last one first.
pub open spec fn rejoined(directory: Seq<char>, missing: Seq<Seq<char>>) -> Seq<char>
    decreases missing.len(),
{
    if missing.len() == 0 {
        directory
    } else {
        rejoined(joined(directory, missing.last()), missing.drop_last())
    }
}

impl PathSearchView {
    /// The search one directory further out, unless there is none.
    pub open spec fn outward(self) -> Option<PathSearchView> {
        match (last_name(components(self.current)), parent_text(self.current)) {
            (Some(name), Some(directory)) => Some(
                PathSearchView { current: directory, missing: self.missing.push(name) },
            ),
            _ => None,
        }
    }

    /// The path, once the directory that was tried is resolved.
    pub open spec fn resolved(self, directory: Seq<char>) -> Seq<char> {
        rejoined(directory, self.missing)
    }
}

impl PathSearch {
    /// Begins with the whole path.
    pub fn new(path: &str) -> (search: PathSearch)
        ensures
            search@ == (PathSearchView { current: path@, missing: seq![] }),
    {
        let search = PathSearch { current: path.to_owned(), missing: Vec::new() };
        assert(views(search.missing@) =~= seq![]);
        search
    }

    /// Goes one directory further out.
    pub fn outward(self) -> (next: Option<PathSearch>)
        ensures
            match (next, self@.outward()) {
                (Some(search), Some(expected)) => search@ == expected,
                (None, None) => true,
                _ => false,
            },
    {
        let name = match file_name(&self.current) {
            Some(name) => name,
            None => return None,
        };
        let directory = match parent(&self.current) {
            Some(directory) => directory,
            None => return None,
        };
        let ghost before = self.missing@;
        let mut missing = self.missing;
        missing.push(name);
        assert(views(missing@) =~= views(before).push(name@));
        Some(PathSearch { current: directory, missing })
    }

    /// Puts the names back under the directory that was resolved.
    pub fn resolved(&self, directory: &str) -> (path: String)
        ensures
            path@ == self@.resolved(directory@),
    {
        let ghost all = views(self.missing@);
        let mut path = directory.to_owned();
        let mut left: usize = self.missing.len();
        assert(all.take(left as int) =~= all);
        while left > 0
            invariant
                left <= self.missing.len(),
                all == views(self.missing@),
                rejoined(path@, all.take(left as int)) == rejoined(directory@, all),
            decreases left,
        {
            assert(all.take(left as int).last() == self.missing@[left - 1]@);
            assert(all.take(left as int).drop_last() =~= all.take(left - 1));
            path = join_path(&path, &self.missing[left - 1]);
            left -= 1;
        }
        path
    }
}

proof fn lemma_trimming_shortens(path: Seq<char>)
    ensures
        tail_trimmed(path).len() <= path.len(),
        name_cut(path).len() <= path.len(),
        path.len() > 0 && path.last() != '/' ==> name_cut(path).len() < path.len(),
    decreases path.len(),
{
    if path.len() > 0 {
        lemma_trimming_shortens(path.drop_last());
        if path.len() > 1 {
            lemma_trimming_shortens(path.drop_last().drop_last());
        }
    }
}

proof fn lemma_trimmed_end(path: Seq<char>)
    ensures
        ({
            let trimmed = tail_trimmed(path);
            trimmed.len() == 0 || (trimmed.len() == 1 && trimmed[0] == '/') || trimmed.last()
                != '/'
        }),
    decreases path.len(),
{
    if path.len() > 0 {
        lemma_trimmed_end(path.drop_last());
        if path.len() > 1 {
            lemma_trimmed_end(path.drop_last().drop_last());
        }
    }
}

/// The search comes to an end: every step leads to a shorter path.
pub proof fn search_ends(search: PathSearchView)
    ensures
        search.outward() matches Some(next) ==> next.current.len() < search.current.len(),
{
    let trimmed = tail_trimmed(search.current);
    lemma_trimming_shortens(search.current);
    lemma_trimmed_end(search.current);
    lemma_trimming_shortens(trimmed);
    lemma_trimming_shortens(name_cut(trimmed));
}

} // verus!

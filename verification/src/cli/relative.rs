//! Paths as seen from the root of a repository.

use crate::paths::components;
use crate::paths::is_absolute;
use crate::paths::is_absolute_path;
use crate::paths::steps_of;
use crate::paths::Component;
use crate::text::is_blank;
use crate::text::join;
use crate::text::join_text;
use crate::text::pieces;
use crate::text::same_text;
use crate::text::split;
use crate::text::views;
use vstd::prelude::*;

verus! {

/// Whether a piece between slashes is a step: a dot is one only where the path
/// begins with it.
pub open spec fn is_step(part: Seq<char>, first: bool) -> bool {
    part.len() > 0 && (part != "."@ || first)
}

fn step(part: &str, first: bool) -> (result: bool)
    ensures
        result == is_step(part@, first),
{
    !is_blank(part) && (first || !same_text(part, "."))
}

/// The pieces after some steps.
pub open spec fn after_steps(parts: Seq<Seq<char>>, count: nat, first: bool) -> Seq<Seq<char>>
    decreases parts.len(),
{
    if count == 0 || parts.len() == 0 {
        parts
    } else if is_step(parts[0], first) {
        after_steps(parts.drop_first(), (count - 1) as nat, false)
    } else {
        after_steps(parts.drop_first(), count, false)
    }
}

/// The pieces from the first step on.
pub open spec fn from_first_step(parts: Seq<Seq<char>>) -> Seq<Seq<char>>
    decreases parts.len(),
{
    if parts.len() > 0 && !is_step(parts[0], false) {
        from_first_step(parts.drop_first())
    } else {
        parts
    }
}

/// The pieces up to the last step.
pub open spec fn to_last_step(parts: Seq<Seq<char>>) -> Seq<Seq<char>>
    decreases parts.len(),
{
    if parts.len() > 0 && !is_step(parts.last(), false) {
        to_last_step(parts.drop_last())
    } else {
        parts
    }
}

/// What is left of a path after some steps of it.
pub open spec fn rest_of_path(path: Seq<char>, count: nat) -> Seq<char> {
    let parts = pieces(path, '/');
    let named = if is_absolute_path(path) && count > 0 {
        (count - 1) as nat
    } else {
        count
    };
    let rest = after_steps(parts, named, true);
    join_text(
        to_last_step(
            if count > 0 {
                from_first_step(rest)
            } else {
                rest
            },
        ),
        "/"@,
    )
}

/// Whether the steps of one path begin those of another.
pub open spec fn leads_to(root: Seq<char>, path: Seq<char>) -> bool {
    let count = components(root).len();
    count <= components(path).len() && components(path).take(count as int) == components(root)
}

/// A path as seen from a root, where it stands below it.
pub open spec fn shown_path(root: Seq<char>, path: Seq<char>) -> Seq<char> {
    let rest = rest_of_path(path, components(root).len());
    if leads_to(root, path) && rest.len() > 0 {
        rest
    } else {
        path
    }
}

fn same_step(left: &Component, right: &Component) -> (same: bool)
    ensures
        same == (left@ == right@),
{
    match (left, right) {
        (Component::Root, Component::Root) => true,
        (Component::Current, Component::Current) => true,
        (Component::Parent, Component::Parent) => true,
        (Component::Normal(a), Component::Normal(b)) => same_text(a, b),
        _ => false,
    }
}

fn begins(root: &Vec<Component>, path: &Vec<Component>) -> (result: bool)
    ensures
        result == (root@.len() <= path@.len() && views(path@).take(root@.len() as int) == views(
            root@,
        )),
{
    if root.len() > path.len() {
        return false;
    }
    let mut i: usize = 0;
    while i < root.len()
        invariant
            i <= root.len() <= path.len(),
            forall|j: int| 0 <= j < i ==> root@[j]@ == (#[trigger] path@[j])@,
        decreases root.len() - i,
    {
        if !same_step(&root[i], &path[i]) {
            assert(views(path@).take(root@.len() as int)[i as int] != views(root@)[i as int]);
            return false;
        }
        i += 1;
    }
    assert(views(path@).take(root@.len() as int) =~= views(root@));
    true
}

fn rest_after(path: &str, count: usize) -> (text: String)
    ensures
        text@ == rest_of_path(path@, count as nat),
{
    let parts = split(path, '/');
    let ghost all = views(parts@);
    let named: usize = if is_absolute(path) && count > 0 {
        count - 1
    } else {
        count
    };
    let mut left: usize = named;
    let mut low: usize = 0;
    assert(all.skip(0) =~= all);
    while left > 0 && low < parts.len()
        invariant
            low <= parts.len(),
            all == views(parts@),
            after_steps(all.skip(low as int), left as nat, low == 0) == after_steps(
                all,
                named as nat,
                true,
            ),
        decreases parts.len() - low,
    {
        assert(all.skip(low as int)[0] == parts@[low as int]@);
        assert(all.skip(low as int).drop_first() =~= all.skip(low + 1));
        if step(&parts[low], low == 0) {
            left -= 1;
        }
        low += 1;
    }
    let ghost rest = after_steps(all, named as nat, true);
    assert(rest =~= all.skip(low as int));
    let ghost cut = low as int;
    if count > 0 {
        while low < parts.len() && !step(&parts[low], false)
            invariant
                cut <= low <= parts.len(),
                all == views(parts@),
                from_first_step(all.skip(low as int)) == from_first_step(all.skip(cut)),
            decreases parts.len() - low,
        {
            assert(all.skip(low as int)[0] == parts@[low as int]@);
            assert(all.skip(low as int).drop_first() =~= all.skip(low + 1));
            low += 1;
        }
        assert(low < parts.len() ==> all.skip(low as int)[0] == parts@[low as int]@);
    }
    let ghost begun = if count > 0 {
        from_first_step(rest)
    } else {
        rest
    };
    assert(begun =~= all.skip(low as int));
    let mut high: usize = parts.len();
    assert(all.subrange(low as int, high as int) =~= begun);
    while high > low && !step(&parts[high - 1], false)
        invariant
            low <= high <= parts.len(),
            all == views(parts@),
            to_last_step(all.subrange(low as int, high as int)) == to_last_step(begun),
        decreases high,
    {
        assert(all.subrange(low as int, high as int).last() == parts@[high - 1]@);
        assert(all.subrange(low as int, high as int).drop_last() =~= all.subrange(
            low as int,
            high - 1,
        ));
        high -= 1;
    }
    assert(high > low ==> all.subrange(low as int, high as int).last() == parts@[high - 1]@);
    let mut kept: Vec<String> = Vec::new();
    let mut i: usize = low;
    while i < high
        invariant
            low <= i <= high <= parts.len(),
            all == views(parts@),
            views(kept@) == all.subrange(low as int, i as int),
        decreases high - i,
    {
        let ghost before = kept@;
        kept.push(parts[i].clone());
        assert(views(kept@) =~= views(before).push(all[i as int]));
        assert(views(kept@) =~= all.subrange(low as int, i + 1));
        i += 1;
    }
    join(&kept, "/")
}

/// Shows a path as seen from a root.
pub fn display_worktree_path(root: &str, path: &str) -> (text: String)
    ensures
        text@ == shown_path(root@, path@),
{
    let root_steps = steps_of(root);
    let path_steps = steps_of(path);
    if !begins(&root_steps, &path_steps) {
        return path.to_owned();
    }
    let rest = rest_after(path, root_steps.len());
    if is_blank(&rest) {
        path.to_owned()
    } else {
        rest
    }
}

} // verus!

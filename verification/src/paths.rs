//! Paths as the file systems of Unix read them: names between slashes.

use crate::text::is_blank;
use crate::text::pieces;
use crate::text::same_text;
use crate::text::slice_text;
use crate::text::split;
use crate::text::to_chars;
use crate::text::views;
use vstd::prelude::*;

verus! {

/// A step of a path.
pub enum ComponentView {
    Root,
    Current,
    Parent,
    Normal(Seq<char>),
}

/// A step of a path.
#[derive(Debug, PartialEq, Eq)]
pub enum Component {
    Root,
    Current,
    Parent,
    Normal(String),
}

impl View for Component {
    type V = ComponentView;

    open spec fn view(&self) -> ComponentView {
        match self {
            Component::Root => ComponentView::Root,
            Component::Current => ComponentView::Current,
            Component::Parent => ComponentView::Parent,
            Component::Normal(name) => ComponentView::Normal(name@),
        }
    }
}

/// The steps that the pieces between slashes stand for: an empty piece is no
/// step, and a dot is one only where the path begins with it.
pub open spec fn piece_steps(parts: Seq<Seq<char>>) -> Seq<ComponentView>
    decreases parts.len(),
{
    if parts.len() == 0 {
        seq![]
    } else {
        let before = piece_steps(parts.drop_last());
        let part = parts.last();
        if part.len() == 0 {
            before
        } else if part == "."@ {
            if parts.len() == 1 {
                before.push(ComponentView::Current)
            } else {
                before
            }
        } else if part == ".."@ {
            before.push(ComponentView::Parent)
        } else {
            before.push(ComponentView::Normal(part))
        }
    }
}

/// Whether a path begins at the root.
pub open spec fn is_absolute_path(path: Seq<char>) -> bool {
    path.len() > 0 && path[0] == '/'
}

/// The steps of a path.
pub open spec fn components(path: Seq<char>) -> Seq<ComponentView> {
    if is_absolute_path(path) {
        seq![ComponentView::Root] + piece_steps(pieces(path, '/'))
    } else {
        piece_steps(pieces(path, '/'))
    }
}

/// Whether two paths have the same steps.
pub open spec fn same_steps(left: Seq<char>, right: Seq<char>) -> bool {
    components(left) == components(right)
}

/// The name of the last step, where it is one.
pub open spec fn last_name(steps: Seq<ComponentView>) -> Option<Seq<char>> {
    if steps.len() > 0 && steps.last() is Normal {
        Some(steps.last()->Normal_0)
    } else {
        None
    }
}

/// The steps without the last one, unless that is the root.
pub open spec fn parent_steps(steps: Seq<ComponentView>) -> Option<Seq<ComponentView>> {
    if steps.len() > 0 && !(steps.last() is Root) {
        Some(steps.drop_last())
    } else {
        None
    }
}

/// `child` placed under `base`, unless it begins at the root itself.
pub open spec fn joined(base: Seq<char>, child: Seq<char>) -> Seq<char> {
    if is_absolute_path(child) {
        child
    } else if base.len() == 0 || base.last() == '/' {
        base + child
    } else {
        base + "/"@ + child
    }
}

/// Whether a path begins at the root.
pub fn is_absolute(path: &str) -> (absolute: bool)
    ensures
        absolute == is_absolute_path(path@),
{
    let chars = to_chars(path);
    chars.len() > 0 && chars[0] == '/'
}

/// The steps of a path.
pub fn steps_of(path: &str) -> (steps: Vec<Component>)
    ensures
        views(steps@) == components(path@),
{
    let parts = split(path, '/');
    let ghost cut = pieces(path@, '/');
    let mut steps: Vec<Component> = Vec::new();
    let absolute = is_absolute(path);
    let ghost start: Seq<ComponentView> = if absolute {
        seq![ComponentView::Root]
    } else {
        seq![]
    };
    if absolute {
        steps.push(Component::Root);
    }
    assert(views(steps@) =~= start);
    assert(cut.take(0) =~= seq![]);
    assert(start + piece_steps(cut.take(0)) =~= start);
    let mut i: usize = 0;
    while i < parts.len()
        invariant
            i <= parts.len(),
            cut == views(parts@),
            views(steps@) == start + piece_steps(cut.take(i as int)),
        decreases parts.len() - i,
    {
        assert(cut.take(i + 1).drop_last() =~= cut.take(i as int));
        assert(cut.take(i + 1).last() == parts@[i as int]@);
        let ghost before = steps@;
        if is_blank(&parts[i]) {
        } else if same_text(&parts[i], ".") {
            if i == 0 {
                steps.push(Component::Current);
                assert(views(steps@) =~= views(before).push(ComponentView::Current));
            }
        } else if same_text(&parts[i], "..") {
            steps.push(Component::Parent);
            assert(views(steps@) =~= views(before).push(ComponentView::Parent));
        } else {
            steps.push(Component::Normal(parts[i].clone()));
            assert(views(steps@) =~= views(before).push(ComponentView::Normal(parts@[i as int]@)));
        }
        assert(views(steps@) =~= start + piece_steps(cut.take(i + 1)));
        i += 1;
    }
    assert(cut.take(i as int) =~= cut);
    assert(views(steps@) =~= components(path@));
    steps
}

fn same_component(left: &Component, right: &Component) -> (same: bool)
    ensures
        same == (left@ == right@),
{
    match (left, right) {
        (Component::Root, Component::Root) => true,
        (Component::Current, Component::Current) => true,
        (Component::Parent, Component::Parent) => true,
        (Component::Normal(a), Component::Normal(b)) => same_text(a, b),
        _ => false,
    }
}

/// Whether two paths have the same steps.
pub fn same_path(left: &str, right: &str) -> (same: bool)
    ensures
        same == same_steps(left@, right@),
{
    let a = steps_of(left);
    let b = steps_of(right);
    if a.len() != b.len() {
        assert(views(a@).len() != views(b@).len());
        return false;
    }
    let mut i: usize = 0;
    while i < a.len()
        invariant
            i <= a.len(),
            a.len() == b.len(),
            views(a@) == components(left@),
            views(b@) == components(right@),
            forall|j: int| 0 <= j < i ==> a@[j]@ == b@[j]@,
        decreases a.len() - i,
    {
        if !same_component(&a[i], &b[i]) {
            assert(views(a@)[i as int] != views(b@)[i as int]);
            return false;
        }
        i += 1;
    }
    assert(views(a@) =~= views(b@));
    true
}

fn name_of_last(steps: &Vec<Component>, count: usize) -> (name: Option<String>)
    requires
        count <= steps@.len(),
    ensures
        match (name, last_name(views(steps@).take(count as int))) {
            (Some(text), Some(expected)) => text@ == expected,
            (None, None) => true,
            _ => false,
        },
{
    if count == 0 {
        return None;
    }
    assert(views(steps@).take(count as int).last() == steps@[count - 1]@);
    match &steps[count - 1] {
        Component::Normal(name) => Some(name.clone()),
        _ => None,
    }
}

/// The name of the last step of a path, where it is one.
pub fn file_name(path: &str) -> (name: Option<String>)
    ensures
        match (name, last_name(components(path@))) {
            (Some(text), Some(expected)) => text@ == expected,
            (None, None) => true,
            _ => false,
        },
{
    let steps = steps_of(path);
    assert(views(steps@).take(steps@.len() as int) =~= views(steps@));
    name_of_last(&steps, steps.len())
}

/// The name of the step before the last one.
pub open spec fn parent_name_text(path: Seq<char>) -> Option<Seq<char>> {
    match parent_steps(components(path)) {
        Some(steps) => last_name(steps),
        None => None,
    }
}

/// The name of the step before the last one.
pub fn parent_name(path: &str) -> (name: Option<String>)
    ensures
        match (name, parent_name_text(path@)) {
            (Some(text), Some(expected)) => text@ == expected,
            (None, None) => true,
            _ => false,
        },
{
    let steps = steps_of(path);
    if steps.len() == 0 {
        return None;
    }
    assert(views(steps@).last() == steps@[steps@.len() - 1]@);
    assert(views(steps@).take(steps@.len() - 1) =~= views(steps@).drop_last());
    match &steps[steps.len() - 1] {
        Component::Root => None,
        _ => name_of_last(&steps, steps.len() - 1),
    }
}

/// A path without slashes and dots that add no step at its end.
pub open spec fn tail_trimmed(path: Seq<char>) -> Seq<char>
    decreases path.len(),
{
    if path.len() > 1 && path.last() == '/' {
        tail_trimmed(path.drop_last())
    } else if path.len() == 1 && path[0] == '/' {
        path
    } else if path.len() >= 2 && path.last() == '.' && path[path.len() - 2] == '/' {
        tail_trimmed(path.drop_last())
    } else {
        path
    }
}

/// A path without the name at its end.
pub open spec fn name_cut(path: Seq<char>) -> Seq<char>
    decreases path.len(),
{
    if path.len() > 0 && path.last() != '/' {
        name_cut(path.drop_last())
    } else {
        path
    }
}

/// The path of the directory in which a path stands; the root and the empty path
/// stand in none.
pub open spec fn parent_text(path: Seq<char>) -> Option<Seq<char>> {
    let trimmed = tail_trimmed(path);
    if trimmed.len() == 0 || (trimmed.len() == 1 && trimmed[0] == '/') {
        None
    } else {
        Some(tail_trimmed(name_cut(trimmed)))
    }
}

fn trimmed_length(chars: &Vec<char>, count: usize) -> (length: usize)
    requires
        count <= chars@.len(),
    ensures
        length <= count,
        tail_trimmed(chars@.take(count as int)) == chars@.take(length as int),
{
    let mut length: usize = count;
    while (length > 1 && chars[length - 1] == '/') || (length >= 2 && chars[length - 1] == '.'
        && chars[length - 2] == '/')
        invariant
            length <= count <= chars@.len(),
            tail_trimmed(chars@.take(count as int)) == tail_trimmed(chars@.take(length as int)),
        decreases length,
    {
        assert(chars@.take(length as int).drop_last() =~= chars@.take(length - 1));
        length -= 1;
    }
    length
}

/// The path of the directory in which a path stands.
pub fn parent(path: &str) -> (result: Option<String>)
    ensures
        match (result, parent_text(path@)) {
            (Some(text), Some(expected)) => text@ == expected,
            (None, None) => true,
            _ => false,
        },
{
    let chars = to_chars(path);
    assert(chars@.take(chars@.len() as int) =~= chars@);
    let trimmed = trimmed_length(&chars, chars.len());
    if trimmed == 0 || (trimmed == 1 && chars[0] == '/') {
        return None;
    }
    let mut cut: usize = trimmed;
    while cut > 0 && chars[cut - 1] != '/'
        invariant
            cut <= trimmed <= chars@.len(),
            name_cut(chars@.take(trimmed as int)) == name_cut(chars@.take(cut as int)),
        decreases cut,
    {
        assert(chars@.take(cut as int).drop_last() =~= chars@.take(cut - 1));
        cut -= 1;
    }
    let length = trimmed_length(&chars, cut);
    assert(chars@.take(length as int) =~= chars@.subrange(0, length as int));
    Some(slice_text(&chars, 0, length))
}

/// Places `child` under `base`.
pub fn join_path(base: &str, child: &str) -> (path: String)
    ensures
        path@ == joined(base@, child@),
{
    if is_absolute(child) {
        return child.to_owned();
    }
    let chars = to_chars(base);
    let mut path = base.to_owned();
    if chars.len() > 0 && chars[chars.len() - 1] != '/' {
        path.append("/");
    }
    path.append(child);
    path
}

} // verus!

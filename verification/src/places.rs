//! What joining and taking apart paths comes to.

use crate::git::meaning::lacks;
use crate::paths::components;
use crate::paths::ComponentView;
use crate::paths::file_name;
use crate::paths::is_absolute;
use crate::paths::is_absolute_path;
use crate::paths::join_path;
use crate::paths::joined;
use crate::paths::last_name;
use crate::paths::name_cut;
use crate::paths::parent;
use crate::paths::parent_text;
use crate::paths::piece_steps;
use crate::paths::same_path;
use crate::paths::tail_trimmed;
use crate::text::lemma_pieces_nonempty;
use crate::text::pieces;
use crate::wording::lemma_piece_added;
use vstd::prelude::*;

verus! {

/// Whether a text is the name of one step: it is not empty, holds no slash, and is neither
/// of the two names that stand for other steps.
pub open spec fn is_name(name: Seq<char>) -> bool {
    name.len() > 0 && lacks(name, '/') && name != "."@ && name != ".."@
}

/// Whether a path is written without a slash, or a slash and a dot, at its end.
pub open spec fn is_tidy(path: Seq<char>) -> bool {
    path.len() > 0
        && path.last() != '/'
        && !(path.len() >= 2 && path.last() == '.' && path[path.len()
        - 2] == '/')
}

proof fn lemma_slash()
    ensures
        "/"@ == seq!['/'],
        "."@ == seq!['.'],
{
    reveal_strlit("/");
    reveal_strlit(".");
    assert("/"@ =~= seq!['/']);
    assert("."@ =~= seq!['.']);
}

pub proof fn lemma_name_added(base: Seq<char>, name: Seq<char>)
    requires
        base.len() > 0,
        base.last() != '/',
        is_name(name),
    ensures
        joined(base, name) == base.push('/') + name,
        components(base.push('/') + name) == components(base).push(ComponentView::Normal(name)),
{
    lemma_slash();
    let head = base.push('/');
    let whole = head + name;
    assert(name[0] != '/');
    assert(base + "/"@ =~= head);
    lemma_piece_added(head, name, '/');
    assert(head.drop_last() =~= base);
    lemma_pieces_nonempty(base, '/');
    assert(pieces(head, '/') == pieces(base, '/').push(seq![]));
    assert(pieces(head, '/').drop_last() =~= pieces(base, '/'));
    let parts = pieces(base, '/').push(name);
    assert(pieces(whole, '/') == parts);
    assert(parts.drop_last() =~= pieces(base, '/'));
    assert(piece_steps(parts) == piece_steps(pieces(base, '/')).push(ComponentView::Normal(name)));
    assert(whole[0] == base[0]);
    if is_absolute_path(base) {
        assert(seq![ComponentView::Root] + piece_steps(parts) =~= (seq![ComponentView::Root]
            + piece_steps(pieces(base, '/'))).push(ComponentView::Normal(name)));
    }
}

proof fn lemma_name_cut(head: Seq<char>, name: Seq<char>)
    requires
        head.len() > 0,
        head.last() == '/',
        lacks(name, '/'),
    ensures
        name_cut(head + name) == head,
    decreases name.len(),
{
    let whole = head + name;
    if name.len() == 0 {
        assert(whole =~= head);
    } else {
        let shorter = name.drop_last();
        assert forall|i: int| 0 <= i < shorter.len() implies #[trigger] shorter[i] != '/' by {
            assert(shorter[i] == name[i]);
        }
        lemma_name_cut(head, shorter);
        assert(whole.drop_last() =~= head + shorter);
        assert(whole.last() == name[name.len() - 1]);
    }
}

/// A name that is placed under a path is the last step of the result, and the path is the
/// directory in which that stands. A path that begins at the root is never placed under
/// another.
pub proof fn joined_paths_come_apart(
    base: &str,
    name: &str,
    path: String,
    whole: &str,
    last: Option<String>,
    directory: Option<String>,
)
    requires
        is_name(name@),
        is_tidy(base@),
        call_ensures(join_path, (base, name), path),
        whole@ == path@,
        call_ensures(file_name, (whole,), last),
        call_ensures(parent, (whole,), directory),
    ensures
        path@ == base@ + "/"@ + name@,
        last is Some && last->0@ == name@,
        directory is Some && directory->0@ == base@,
{
    lemma_slash();
    lemma_name_added(base@, name@);
    let head = base@.push('/');
    assert(base@ + "/"@ =~= head);
    lemma_parts_of_joined(base@, name@);
}

/// A path that begins at the root stays what it is wherever it is placed, and only such a
/// path is absolute.
pub proof fn absolute_paths_stay(base: &str, child: &str, path: String, absolute: bool)
    requires
        call_ensures(is_absolute, (child,), absolute),
        call_ensures(join_path, (base, child), path),
    ensures
        absolute <==> child@.len() > 0 && child@[0] == '/',
        absolute ==> path@ == child@,
        !absolute && base@.len() > 0 && base@.last() != '/' ==> path@ == base@ + "/"@ + child@,
        !absolute && (base@.len() == 0 || base@.last() == '/') ==> path@ == base@ + child@,
{
}

/// Every path is the same as itself, whichever comes first; a slash at its end makes no
/// difference; and two names under one path are the same exactly if they are equal.
pub proof fn same_paths_lead_to_the_same_place(
    base: &str,
    slashed: &str,
    one: Seq<char>,
    other: Seq<char>,
    left: &str,
    right: &str,
    itself: bool,
    tolerant: bool,
    forth: bool,
    back: bool,
)
    requires
        base@.len() > 0,
        base@.last() != '/',
        slashed@ == base@.push('/'),
        is_name(one),
        is_name(other),
        left@ == base@.push('/') + one,
        right@ == base@.push('/') + other,
        call_ensures(same_path, (base, base), itself),
        call_ensures(same_path, (base, slashed), tolerant),
        call_ensures(same_path, (left, right), forth),
        call_ensures(same_path, (right, left), back),
    ensures
        itself,
        tolerant,
        forth <==> one == other,
        forth == back,
{
    lemma_name_added(base@, one);
    lemma_name_added(base@, other);
    let steps = components(base@);
    assert(steps.push(ComponentView::Normal(one)).last() == ComponentView::Normal(one));
    assert(steps.push(ComponentView::Normal(other)).last() == ComponentView::Normal(other));
    assert(slashed@.drop_last() =~= base@);
    lemma_pieces_nonempty(base@, '/');
    let parts = pieces(base@, '/').push(seq![]);
    assert(parts.drop_last() =~= pieces(base@, '/'));
    assert(piece_steps(parts) == piece_steps(pieces(base@, '/')));
    assert(slashed@[0] == base@[0]);
}

/// The last name of a joined path and the directory in which it stands.
pub proof fn lemma_parts_of_joined(base: Seq<char>, name: Seq<char>)
    requires
        is_name(name),
        is_tidy(base),
    ensures
        last_name(components(base.push('/') + name)) == Some(name),
        parent_text(base.push('/') + name) == Some(base),
{
    lemma_slash();
    lemma_name_added(base, name);
    let head = base.push('/');
    let text = head + name;
    lemma_name_cut(head, name);
    assert(text.last() == name[name.len() - 1]);
    if name.len() == 1 {
        assert(text[text.len() - 2] == '/');
        if name[0] == '.' {
            assert(name =~= "."@);
        }
    } else {
        assert(text[text.len() - 2] == name[name.len() - 2]);
    }
    assert(tail_trimmed(text) == text);
    assert(head.drop_last() =~= base);
    assert(tail_trimmed(base) == base);
    assert(tail_trimmed(head) == base);
}

} // verus!

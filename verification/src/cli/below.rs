//! How paths below a root are shown, and how paths are put together again.

use crate::cli::relative::after_steps;
use crate::cli::relative::display_worktree_path;
use crate::cli::relative::from_first_step;
use crate::cli::relative::is_step;
use crate::cli::relative::leads_to;
use crate::cli::relative::to_last_step;
use crate::paths::components;
use crate::paths::ComponentView;
use crate::paths::join_path;
use crate::paths::piece_steps;
use crate::places::is_name;
use crate::places::is_tidy;
use crate::places::lemma_parts_of_joined;
use crate::resolution::PathSearch;
use crate::text::join_text;
use crate::text::lemma_pieces_nonempty;
use crate::text::pieces;
use vstd::prelude::*;

verus! {

spec fn counted(parts: Seq<Seq<char>>, first: bool) -> nat
    decreases parts.len(),
{
    if parts.len() == 0 {
        0
    } else {
        (if is_step(parts[0], first) {
            1nat
        } else {
            0
        }) + counted(parts.drop_first(), false)
    }
}

proof fn lemma_counted_push(parts: Seq<Seq<char>>, last: Seq<char>, first: bool)
    ensures
        counted(parts.push(last), first) == counted(parts, first) + (if is_step(
            last,
            first && parts.len() == 0,
        ) {
            1nat
        } else {
            0
        }),
    decreases parts.len(),
{
    let whole = parts.push(last);
    if parts.len() == 0 {
        assert(whole.drop_first() =~= seq![]);
        assert(counted(whole.drop_first(), false) == 0);
        assert(whole[0] == last);
    } else {
        assert(whole.drop_first() =~= parts.drop_first().push(last));
        assert(whole[0] == parts[0]);
        lemma_counted_push(parts.drop_first(), last, false);
    }
}

proof fn lemma_counted(parts: Seq<Seq<char>>)
    ensures
        piece_steps(parts).len() == counted(parts, true),
    decreases parts.len(),
{
    if parts.len() > 0 {
        lemma_counted(parts.drop_last());
        assert(parts.drop_last().push(parts.last()) =~= parts);
        lemma_counted_push(parts.drop_last(), parts.last(), true);
    }
}

proof fn lemma_after(parts: Seq<Seq<char>>, rest: Seq<Seq<char>>, first: bool)
    requires
        parts.len() > 0,
        is_step(parts.last(), false),
    ensures
        after_steps(parts + rest, counted(parts, first), first) == rest,
    decreases parts.len(),
{
    let whole = parts + rest;
    assert(whole[0] == parts[0]);
    assert(whole.drop_first() =~= parts.drop_first() + rest);
    if parts.len() == 1 {
        assert(parts.drop_first() =~= seq![]);
        assert(parts.drop_first() + rest =~= rest);
        assert(parts[0] == parts.last());
        assert(counted(parts, first) == 1);
        assert(after_steps(rest, 0, false) == rest);
    } else {
        assert(parts.drop_first().last() == parts.last());
        lemma_after(parts.drop_first(), rest, false);
        lemma_some(parts.drop_first());
    }
}

proof fn lemma_some(parts: Seq<Seq<char>>)
    requires
        parts.len() > 0,
        is_step(parts.last(), false),
    ensures
        counted(parts, false) > 0,
    decreases parts.len(),
{
    if parts.len() > 1 {
        assert(parts.drop_first().last() == parts.last());
        lemma_some(parts.drop_first());
    } else {
        assert(parts[0] == parts.last());
    }
}

proof fn lemma_pieces_of_both(base: Seq<char>, rest: Seq<char>)
    ensures
        pieces(base.push('/') + rest, '/') == pieces(base, '/') + pieces(rest, '/'),
    decreases rest.len(),
{
    let whole = base.push('/') + rest;
    lemma_pieces_nonempty(rest, '/');
    if rest.len() == 0 {
        assert(whole =~= base.push('/'));
        assert(whole.drop_last() =~= base);
        assert(pieces(whole, '/') =~= pieces(base, '/') + pieces(rest, '/'));
    } else {
        lemma_pieces_of_both(base, rest.drop_last());
        lemma_pieces_nonempty(rest.drop_last(), '/');
        assert(whole.drop_last() =~= base.push('/') + rest.drop_last());
        assert(whole.last() == rest.last());
        let before = pieces(base, '/') + pieces(rest.drop_last(), '/');
        assert(before.last() == pieces(rest.drop_last(), '/').last());
        assert(
            before.drop_last() =~= pieces(base, '/') + pieces(rest.drop_last(), '/').drop_last()
        );
        assert(pieces(whole, '/') =~= pieces(base, '/') + pieces(rest, '/'));
    }
}

proof fn lemma_joined_pieces(text: Seq<char>)
    ensures
        join_text(pieces(text, '/'), "/"@) == text,
    decreases text.len(),
{
    reveal_strlit("/");
    lemma_pieces_nonempty(text, '/');
    if text.len() == 0 {
        assert(pieces(text, '/') =~= seq![seq![]]);
        assert(join_text(pieces(text, '/'), "/"@) =~= text);
    } else {
        let start = text.drop_last();
        lemma_joined_pieces(start);
        lemma_pieces_nonempty(start, '/');
        let parts = pieces(start, '/');
        let all = pieces(text, '/');
        if text.last() == '/' {
            assert(all.drop_last() =~= parts);
            assert(all.last() == Seq::<char>::empty());
            assert(start + "/"@ + seq![] =~= text);
        } else {
            assert(all.drop_last() =~= parts.drop_last());
            assert(all.last() == parts.last().push(text.last()));
            assert(start.push(text.last()) =~= text);
            if parts.len() > 1 {
                let head = join_text(parts.drop_last(), "/"@) + "/"@;
                assert(head + all.last() =~= (head + parts.last()).push(text.last()));
            }
        }
    }
}

proof fn lemma_steps_of_both(parts: Seq<Seq<char>>, rest: Seq<Seq<char>>)
    requires
        parts.len() > 0,
    ensures
        piece_steps(parts + rest).len() >= piece_steps(parts).len(),
        piece_steps(parts + rest).take(piece_steps(parts).len() as int) == piece_steps(parts),
    decreases rest.len(),
{
    let whole = parts + rest;
    let steps = piece_steps(parts);
    if rest.len() == 0 {
        assert(whole =~= parts);
        assert(steps.take(steps.len() as int) =~= steps);
    } else {
        lemma_steps_of_both(parts, rest.drop_last());
        assert(whole.drop_last() =~= parts + rest.drop_last());
        let before = piece_steps(whole.drop_last());
        assert(piece_steps(whole).take(steps.len() as int) =~= before.take(steps.len() as int));
    }
}

proof fn lemma_last_piece(path: Seq<char>)
    requires
        is_tidy(path),
        path[0] == '/',
    ensures
        is_step(pieces(path, '/').last(), false),
        pieces(path, '/').len() > 0,
{
    lemma_pieces_nonempty(path, '/');
    lemma_pieces_nonempty(path.drop_last(), '/');
    reveal_strlit(".");
    let last = pieces(path, '/').last();
    assert(last.last() == path.last());
    if last == "."@ {
        let before = pieces(path.drop_last(), '/').last();
        assert(last == before.push(path.last()));
        assert(before.len() == 0);
        let start = path.drop_last();
        if start.len() > 0 {
            assert(start.last() == path[path.len() - 2]);
            if start.last() != '/' {
                lemma_pieces_nonempty(start.drop_last(), '/');
                assert(before.last() == start.last());
                assert(before.len() > 0);
            }
        } else {
            assert(path.len() == 1);
            assert(path.last() == path[0]);
        }
    }
}

/// Whether a path has a name between any two slashes, and at its ends.
pub open spec fn is_plain(rest: Seq<char>) -> bool {
    forall|k: int| 0 <= k < pieces(rest, '/').len() ==> is_name(#[trigger] pieces(rest, '/')[k])
}

/// A path below the root is shown without the root.
pub proof fn path_below_the_root_is_shown_short(
    root: &str,
    rest: Seq<char>,
    path: &str,
    text: String,
)
    requires
        is_tidy(root@),
        root@[0] == '/',
        is_plain(rest),
        path@ == root@ + "/"@ + rest,
        call_ensures(display_worktree_path, (root, path), text),
    ensures
        text@ == rest,
{
    reveal_strlit("/");
    reveal_strlit(".");
    let base = root@;
    let whole = base.push('/') + rest;
    assert(path@ =~= whole);
    lemma_pieces_of_both(base, rest);
    lemma_last_piece(base);
    let left = pieces(base, '/');
    let right = pieces(rest, '/');
    lemma_pieces_nonempty(rest, '/');
    lemma_steps_of_both(left, right);
    lemma_counted(left);
    lemma_after(left, right, true);
    assert(whole[0] == '/');
    let count = components(base).len();
    assert(components(whole).take(count as int) =~= seq![ComponentView::Root] + piece_steps(
        left + right,
    ).take(piece_steps(left).len() as int));
    assert(leads_to(base, whole));
    assert(is_name(right[0]));
    assert(is_name(right[right.len() - 1]));
    assert(right[0] != "."@);
    assert(from_first_step(right) == right);
    assert(to_last_step(right) == right);
    lemma_joined_pieces(rest);
    if rest.len() == 0 {
        assert(right =~= seq![seq![]]);
        assert(right[0].len() == 0);
    }
}

/// The root itself, and a path that does not lead through the root, are shown whole.
pub proof fn other_paths_are_shown_whole(root: &str, path: &str, text: String)
    requires
        call_ensures(display_worktree_path, (root, path), text),
        components(root@).len() > components(path@).len() || exists|k: int|
            0 <= k < components(root@).len() && #[trigger] components(root@)[k] != components(
                path@,
            )[k],
    ensures
        text@ == path@,
{
    let count = components(root@).len();
    if count <= components(path@).len() {
        let k = choose|k: int|
            0 <= k < components(root@).len() && #[trigger] components(root@)[k] != components(
                path@,
            )[k];
        assert(components(path@).take(count as int)[k] == components(path@)[k]);
    }
}

/// Each step outward takes the last name off the path, and a resolved directory gets the
/// names back in their order.
pub proof fn search_puts_the_names_back(
    base: Seq<char>,
    name: &str,
    search: PathSearch,
    next: Option<PathSearch>,
    directory: &str,
    inner: String,
    inner_directory: &str,
    path: String,
    same: String,
)
    requires
        is_tidy(base),
        is_name(name@),
        search.current@ == base + "/"@ + name@,
        call_ensures(PathSearch::outward, (search,), next),
        next is Some ==> call_ensures(PathSearch::resolved, (&next->0, directory), path),
        call_ensures(join_path, (directory, name), inner),
        inner_directory@ == inner@,
        call_ensures(PathSearch::resolved, (&search, inner_directory), same),
    ensures
        next is Some,
        next->0.current@ == base,
        path@ == same@,
{
    reveal_strlit("/");
    assert(base + "/"@ + name@ =~= base.push('/') + name@);
    lemma_parts_of_joined(base, name@);
    let missing = search@.missing;
    assert(missing.push(name@).drop_last() =~= missing);
}

/// A search begins with the whole path, and a path that can be resolved at once is what it
/// was resolved to.
pub proof fn search_begins_with_the_path(
    path: &str,
    search: PathSearch,
    directory: &str,
    resolved: String,
)
    requires
        call_ensures(PathSearch::new, (path,), search),
        call_ensures(PathSearch::resolved, (&search, directory), resolved),
    ensures
        search.current@ == path@,
        resolved@ == directory@,
{
}

} // verus!

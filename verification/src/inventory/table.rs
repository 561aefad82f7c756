//! Tables as sequences of rows.

use crate::text::views;
use vstd::prelude::*;

verus! {

/// The first row that `wanted` picks.
pub open spec fn first_match<V>(rows: Seq<V>, wanted: spec_fn(V) -> bool) -> Option<V>
    decreases rows.len(),
{
    if rows.len() == 0 {
        None
    } else {
        match first_match(rows.drop_last(), wanted) {
            Some(row) => Some(row),
            None => if wanted(rows.last()) {
                Some(rows.last())
            } else {
                None
            },
        }
    }
}

pub proof fn lemma_first_match<V>(rows: Seq<V>, wanted: spec_fn(V) -> bool)
    ensures
        match first_match(rows, wanted) {
            Some(row) => wanted(row) && exists|i: int|
                0 <= i < rows.len() && rows[i] == row && forall|j: int|
                    0 <= j < i ==> !wanted(#[trigger] rows[j]),
            None => forall|i: int| 0 <= i < rows.len() ==> !wanted(#[trigger] rows[i]),
        },
    decreases rows.len(),
{
    if rows.len() > 0 {
        let shorter = rows.drop_last();
        lemma_first_match(shorter, wanted);
        assert forall|j: int| 0 <= j < shorter.len() implies shorter[j] == #[trigger] rows[j] by {}
        if first_match(shorter, wanted) is Some {
            let i = choose|i: int|
                0 <= i < shorter.len() && shorter[i] == first_match(shorter, wanted)->0 && forall|
                    j: int,
                | 0 <= j < i ==> !wanted(#[trigger] shorter[j]);
            assert(rows[i] == first_match(rows, wanted)->0);
            assert forall|j: int| 0 <= j < i implies !wanted(#[trigger] rows[j]) by {
                assert(!wanted(shorter[j]));
            }
        } else {
            assert forall|j: int| 0 <= j < rows.len() - 1 implies !wanted(#[trigger] rows[j]) by {
                assert(!wanted(shorter[j]));
            }
            if wanted(rows.last()) {
                assert(rows[rows.len() - 1] == rows.last());
            }
        }
    }
}

/// The row that stands first among those wanted is the one at `i`.
pub proof fn lemma_first_match_at<V>(rows: Seq<V>, wanted: spec_fn(V) -> bool, i: int)
    requires
        0 <= i < rows.len(),
        wanted(rows[i]),
        forall|j: int| 0 <= j < i ==> !wanted(#[trigger] rows[j]),
    ensures
        first_match(rows, wanted) == Some(rows[i]),
{
    lemma_first_match(rows, wanted);
    if first_match(rows, wanted) is Some {
        let k = choose|k: int|
            0 <= k < rows.len() && rows[k] == first_match(rows, wanted)->0 && forall|j: int|
                0 <= j < k ==> !wanted(#[trigger] rows[j]);
        assert(!(k < i));
        assert(!(i < k));
    } else {
        assert(!wanted(rows[i]));
    }
}

/// Finds the first row that `test` accepts.
pub(crate) fn find_row<R: View, F: Fn(&R) -> bool>(
    rows: &Vec<R>,
    test: F,
    Ghost(wanted): Ghost<spec_fn(R::V) -> bool>,
) -> (found: Option<usize>)
    requires
        forall|row: &R| call_requires(test, (row,)),
        forall|row: &R, answer: bool|
            call_ensures(test, (row,), answer) ==> answer == wanted(row@),
    ensures
        match found {
            Some(i) => i < rows@.len()
                && first_match(views(rows@), wanted) == Some(rows@[i as int]@)
                && forall|j: int| 0 <= j < i ==> !wanted(#[trigger] views(rows@)[j]),
            None => first_match(views(rows@), wanted) is None,
        },
{
    let mut i: usize = 0;
    while i < rows.len()
        invariant
            i <= rows.len(),
            forall|row: &R| call_requires(test, (row,)),
            forall|row: &R, answer: bool|
                call_ensures(test, (row,), answer) ==> answer == wanted(row@),
            forall|j: int| 0 <= j < i ==> !wanted(#[trigger] views(rows@)[j]),
        decreases rows.len() - i,
    {
        if test(&rows[i]) {
            proof {
                assert(views(rows@)[i as int] == rows@[i as int]@);
                lemma_first_match_at(views(rows@), wanted, i as int);
            }
            return Some(i);
        }
        assert(views(rows@)[i as int] == rows@[i as int]@);
        i += 1;
    }
    proof {
        lemma_first_match(views(rows@), wanted);
    }
    None
}

/// Whether some row is accepted by `test`.
pub(crate) fn any_row<R: View, F: Fn(&R) -> bool>(
    rows: &Vec<R>,
    test: F,
    Ghost(wanted): Ghost<spec_fn(R::V) -> bool>,
) -> (found: bool)
    requires
        forall|row: &R| call_requires(test, (row,)),
        forall|row: &R, answer: bool|
            call_ensures(test, (row,), answer) ==> answer == wanted(row@),
    ensures
        found == first_match(views(rows@), wanted) is Some,
{
    find_row(rows, test, Ghost(wanted)).is_some()
}

/// The rows, each changed by `change`.
pub(crate) fn map_rows<R: View, F: Fn(&R) -> R>(
    rows: &Vec<R>,
    change: F,
    Ghost(changed): Ghost<spec_fn(R::V) -> R::V>,
) -> (after: Vec<R>)
    requires
        forall|row: &R| call_requires(change, (row,)),
        forall|row: &R, out: R| call_ensures(change, (row,), out) ==> out@ == changed(row@),
    ensures
        views(after@) == views(rows@).map_values(changed),
{
    let mut after: Vec<R> = Vec::new();
    let mut i: usize = 0;
    while i < rows.len()
        invariant
            i <= rows.len(),
            after@.len() == i,
            forall|row: &R| call_requires(change, (row,)),
            forall|row: &R, out: R| call_ensures(change, (row,), out) ==> out@ == changed(row@),
            forall|j: int| 0 <= j < i ==> (#[trigger] after@[j])@ == changed(rows@[j]@),
        decreases rows.len() - i,
    {
        after.push(change(&rows[i]));
        i += 1;
    }
    assert(views(after@) =~= views(rows@).map_values(changed));
    after
}

/// Copies the rows that `pick` takes.
pub(crate) fn select_rows<R: View, F: Fn(&R) -> Option<R>>(
    rows: &Vec<R>,
    pick: F,
    Ghost(wanted): Ghost<spec_fn(R::V) -> bool>,
) -> (picked: Vec<R>)
    requires
        forall|row: &R| call_requires(pick, (row,)),
        forall|row: &R, out: Option<R>|
            call_ensures(pick, (row,), out) ==> match out {
                Some(copy) => wanted(row@) && copy@ == row@,
                None => !wanted(row@),
            },
    ensures
        views(picked@) == views(rows@).filter(wanted),
{
    let mut picked: Vec<R> = Vec::new();
    let mut i: usize = 0;
    let ghost all = views(rows@);
    proof {
        assert(all.take(0) =~= seq![]);
        reveal(Seq::filter);
        assert(views(picked@) =~= all.take(0).filter(wanted));
    }
    while i < rows.len()
        invariant
            i <= rows.len(),
            all == views(rows@),
            forall|row: &R| call_requires(pick, (row,)),
            forall|row: &R, out: Option<R>|
                call_ensures(pick, (row,), out) ==> match out {
                    Some(copy) => wanted(row@) && copy@ == row@,
                    None => !wanted(row@),
                },
            views(picked@) == all.take(i as int).filter(wanted),
        decreases rows.len() - i,
    {
        let ghost before = picked@;
        proof {
            reveal(Seq::filter);
            assert(all.take(i + 1).drop_last() =~= all.take(i as int));
        }
        match pick(&rows[i]) {
            Some(row) => {
                let ghost added = row@;
                picked.push(row);
                assert(views(picked@) =~= views(before).push(added));
            },
            None => {},
        }
        i += 1;
    }
    assert(all.take(i as int) =~= all);
    picked
}

/// Adding a row at the end adds its view.
pub proof fn lemma_views_push<R: View>(rows: Seq<R>, row: R)
    ensures
        views(rows.push(row)) == views(rows).push(row@),
{
    assert(views(rows.push(row)) =~= views(rows).push(row@));
}

} // verus!

//! Reconciling a repository again, when Git lists what it listed before.

use crate::git::repository::GitRepositoryView;
use crate::inventory::laws::branch_key;
use crate::inventory::laws::lemma_same_key;
use crate::inventory::laws::place_key;
use crate::inventory::laws::reconciling_keeps_consistent;
use crate::inventory::laws::registering_repository_keeps_consistent;
use crate::inventory::laws::worktree_key;
use crate::inventory::promises::known_to;
use crate::inventory::promises::lemma_entered_consistent;
use crate::inventory::promises::lemma_first_match_map;
use crate::inventory::promises::lemma_rows_belong;
use crate::inventory::promises::lemma_settled_rows;
use crate::inventory::promises::paths_differ;
use crate::inventory::promises::reconciled_inventory_reflects_git;
use crate::inventory::records::first_fault;
use crate::inventory::records::option_fault;
use crate::inventory::records::text_fault;
use crate::inventory::records::EventRecordView;
use crate::inventory::records::RepositoryRecordView;
use crate::inventory::records::ReservationRecordView;
use crate::inventory::records::WorktreeRecordView;
use crate::inventory::reservations::holds;
use crate::inventory::state::InventoryView;
use crate::inventory::table::first_match;
use crate::inventory::table::lemma_first_match;
use crate::inventory::table::lemma_first_match_at;
use crate::inventory::worktrees::by_path;
use crate::inventory::worktrees::keeps_branch;
use crate::inventory::worktrees::listed_at;
use crate::inventory::worktrees::repository_again;
use crate::inventory::worktrees::worktree_again;
use crate::inventory::worktrees::worktree_paths;
use crate::inventory::worktrees::ListedWorktreeView;
use crate::order::sorted_indices;
use crate::order::sorting_keeps_every_key;
use crate::order::sorting_puts_keys_in_order;
use crate::order::text_le;
use vstd::prelude::*;

verus! {

// ---------------------------------------------------------------------------
// Listings
// ---------------------------------------------------------------------------

/// The worktrees of a repository are listed in the order of their paths.
pub proof fn worktrees_are_listed_in_order(
    inventory: InventoryView,
    repository_id: i64,
    i: int,
    j: int,
)
    requires
        0 <= i < j < inventory.worktrees_of(repository_id).len(),
    ensures
        text_le(
            inventory.worktrees_of(repository_id)[i].path,
            inventory.worktrees_of(repository_id)[j].path,
        ),
{
    let rows = inventory.worktree_rows(repository_id);
    let keys = worktree_paths(rows);
    let order = sorted_indices(keys, rows.len());
    sorting_keeps_every_key(keys, rows.len());
    sorting_puts_keys_in_order(keys, rows.len());
    assert(0 <= order[i] < rows.len() && 0 <= order[j] < rows.len());
    assert(text_le(keys[order[i]], keys[order[j]]));
}

/// The worktrees of a repository are all listed, and no others are.
pub proof fn every_worktree_is_listed(
    inventory: InventoryView,
    repository_id: i64,
    row: WorktreeRecordView,
)
    ensures
        inventory.worktrees_of(repository_id).contains(row) <==> inventory.worktrees.contains(row)
            && row.repository_id == repository_id,
{
    let rows = inventory.worktree_rows(repository_id);
    let listed = by_path(rows);
    let keys = worktree_paths(rows);
    let order = sorted_indices(keys, rows.len());
    sorting_keeps_every_key(keys, rows.len());
    lemma_rows_belong(inventory, repository_id);
    if listed.contains(row) {
        let k = choose|k: int| 0 <= k < listed.len() && listed[k] == row;
        assert(0 <= order[k] < rows.len());
        assert(rows[order[k]] == row);
    }
    if inventory.worktrees.contains(row) && row.repository_id == repository_id {
        let i = choose|i: int| 0 <= i < inventory.worktrees.len() && inventory.worktrees[i] == row;
        assert(rows.contains(inventory.worktrees[i]));
        let m = choose|m: int| 0 <= m < rows.len() && rows[m] == row;
        assert(order.contains(m));
        let k = choose|k: int| 0 <= k < order.len() && order[k] == m;
        assert(listed[k] == row);
    }
}

pub proof fn lemma_listed_record(
    inventory: InventoryView,
    repository_id: i64,
    path: Seq<char>,
)
    requires
        inventory.consistent(),
    ensures
        first_match(
            inventory.worktrees_of(repository_id),
            |row: WorktreeRecordView| row.path == path,
        ) == inventory.worktree_at(repository_id, path),
{
    let records = inventory.worktrees_of(repository_id);
    let at = |row: WorktreeRecordView| row.path == path;
    let wanted = |row: WorktreeRecordView| row.repository_id == repository_id && row.path == path;
    lemma_first_match(records, at);
    lemma_first_match(inventory.worktrees, wanted);
    if let Some(found) = first_match(records, at) {
        every_worktree_is_listed(inventory, repository_id, found);
        assert(records.contains(found));
        let i = choose|i: int|
            0 <= i < inventory.worktrees.len() && inventory.worktrees[i] == found;
        assert(wanted(inventory.worktrees[i]));
        let row = inventory.worktree_at(repository_id, path)->0;
        let p = choose|p: int| 0 <= p < inventory.worktrees.len() && inventory.worktrees[p] == row;
        lemma_same_key(inventory.worktrees, place_key(), i, p);
    } else if let Some(row) = inventory.worktree_at(repository_id, path) {
        every_worktree_is_listed(inventory, repository_id, row);
        let p = choose|p: int| 0 <= p < inventory.worktrees.len() && inventory.worktrees[p] == row;
        assert(inventory.worktrees.contains(row));
        let k = choose|k: int| 0 <= k < records.len() && records[k] == row;
        assert(at(records[k]));
    }
}

// ---------------------------------------------------------------------------
// Worktrees
// ---------------------------------------------------------------------------

/// Whether the texts of a listed worktree can be stored.
pub open spec fn can_be_stored(item: ListedWorktreeView) -> bool {
    first_fault(
        text_fault(item.worktree.path),
        first_fault(option_fault(item.worktree.branch), option_fault(item.worktree.head)),
    ) is None
}

/// Whether the inventory knows a listed worktree by the branch and in the state
/// in which Git lists it.
pub open spec fn knows(
    inventory: InventoryView,
    repository_id: i64,
    item: ListedWorktreeView,
) -> bool {
    &&& can_be_stored(item)
    &&& match inventory.worktree_at(repository_id, item.worktree.path) {
        Some(row) => row.branch == item.worktree.branch && (row.lifecycle_state == "archived"@
            || row.lifecycle_state == item.lifecycle()),
        None => false,
    }
}

/// Whether the inventory knows every listed worktree as Git lists it.
pub open spec fn knows_all(
    inventory: InventoryView,
    repository_id: i64,
    listed: Seq<ListedWorktreeView>,
) -> bool {
    forall|k: int|
        0 <= k < listed.len() ==> knows(inventory, repository_id, #[trigger] listed[k])
}

/// Whether the worktrees are known by the same names and states as before, and
/// nothing else has changed.
pub open spec fn same_worktrees(before: InventoryView, after: InventoryView) -> bool {
    &&& after == InventoryView { worktrees: after.worktrees, ..before }
    &&& after.worktrees.len() == before.worktrees.len()
    &&& forall|i: int|
        #![trigger after.worktrees[i]]
        #![trigger before.worktrees[i]]
        0 <= i < before.worktrees.len() ==> {
            &&& after.worktrees[i].id == before.worktrees[i].id
            &&& after.worktrees[i].repository_id == before.worktrees[i].repository_id
            &&& after.worktrees[i].path == before.worktrees[i].path
            &&& after.worktrees[i].branch == before.worktrees[i].branch
            &&& after.worktrees[i].lifecycle_state == before.worktrees[i].lifecycle_state
        }
}

proof fn lemma_place(inventory: InventoryView, repository_id: i64, path: Seq<char>) -> (place: int)
    requires
        inventory.worktree_at(repository_id, path) is Some,
    ensures
        0 <= place < inventory.worktrees.len(),
        inventory.worktree_at(repository_id, path) == Some(inventory.worktrees[place]),
        inventory.worktrees[place].repository_id == repository_id,
        inventory.worktrees[place].path == path,
        forall|j: int|
            0 <= j < place ==> !((#[trigger] inventory.worktrees[j]).repository_id == repository_id
                && inventory.worktrees[j].path == path),
{
    let wanted = |row: WorktreeRecordView| row.repository_id == repository_id && row.path == path;
    lemma_first_match(inventory.worktrees, wanted);
    let place = choose|i: int|
        0 <= i < inventory.worktrees.len() && inventory.worktrees[i] == inventory.worktree_at(
            repository_id,
            path,
        )->0 && forall|j: int| 0 <= j < i ==> !wanted(#[trigger] inventory.worktrees[j]);
    assert forall|j: int| 0 <= j < place implies !((
    #[trigger] inventory.worktrees[j]).repository_id == repository_id
        && inventory.worktrees[j].path == path) by {
        assert(!wanted(inventory.worktrees[j]));
    }
    place
}

proof fn lemma_same_place(
    before: InventoryView,
    after: InventoryView,
    repository_id: i64,
    path: Seq<char>,
) -> (place: int)
    requires
        before.worktree_at(repository_id, path) is Some,
        after.worktrees.len() == before.worktrees.len(),
        forall|i: int|
            #![trigger after.worktrees[i]]
            #![trigger before.worktrees[i]]
            0 <= i < before.worktrees.len() ==> after.worktrees[i].repository_id
                == before.worktrees[i].repository_id && after.worktrees[i].path
                == before.worktrees[i].path,
    ensures
        0 <= place < before.worktrees.len(),
        before.worktree_at(repository_id, path) == Some(before.worktrees[place]),
        after.worktree_at(repository_id, path) == Some(after.worktrees[place]),
        before.worktrees[place].repository_id == repository_id,
        before.worktrees[place].path == path,
{
    let place = lemma_place(before, repository_id, path);
    let wanted = |row: WorktreeRecordView| row.repository_id == repository_id && row.path == path;
    assert forall|j: int| 0 <= j < place implies !wanted(#[trigger] after.worktrees[j]) by {
        assert(!(before.worktrees[j].repository_id == repository_id && before.worktrees[j].path
            == path));
    }
    lemma_first_match_at(after.worktrees, wanted, place);
    place
}

proof fn lemma_still_knows(
    before: InventoryView,
    after: InventoryView,
    repository_id: i64,
    item: ListedWorktreeView,
)
    requires
        same_worktrees(before, after),
        knows(before, repository_id, item),
    ensures
        knows(after, repository_id, item),
        after.worktree_at(repository_id, item.worktree.path)->0.id == before.worktree_at(
            repository_id,
            item.worktree.path,
        )->0.id,
{
    let place = lemma_same_place(before, after, repository_id, item.worktree.path);
    assert(after.worktrees[place].branch == before.worktrees[place].branch);
}

proof fn lemma_enter_again(
    inventory: InventoryView,
    repository_id: i64,
    item: ListedWorktreeView,
    now: i64,
)
    requires
        inventory.consistent(),
        knows(inventory, repository_id, item),
    ensures
        inventory.enter_worktree(repository_id, item, now) matches Ok(after) && same_worktrees(
            inventory,
            after,
        ),
{
    let path = item.worktree.path;
    let place = lemma_place(inventory, repository_id, path);
    let existing = inventory.worktrees[place];
    let again = worktree_again(existing, item, now);
    let keeper = |row: WorktreeRecordView|
        row.id != again.id && row.repository_id == again.repository_id && keeps_branch(row)
            && row.branch == again.branch;
    lemma_first_match(inventory.worktrees, keeper);
    if inventory.branch_clash(again) {
        let rival = inventory.branch_keeper(again)->0;
        let q = choose|q: int|
            0 <= q < inventory.worktrees.len() && inventory.worktrees[q] == rival;
        assert(keeps_branch(existing));
        lemma_same_key(inventory.worktrees, branch_key(), place, q);
    }
    let after = inventory.enter_worktree(repository_id, item, now)->Ok_0;
    assert forall|i: int| 0 <= i < inventory.worktrees.len() implies {
        &&& (#[trigger] after.worktrees[i]).id == inventory.worktrees[i].id
        &&& after.worktrees[i].repository_id == inventory.worktrees[i].repository_id
        &&& after.worktrees[i].path == inventory.worktrees[i].path
        &&& after.worktrees[i].branch == inventory.worktrees[i].branch
        &&& after.worktrees[i].lifecycle_state == inventory.worktrees[i].lifecycle_state
    } by {
        let row = inventory.worktrees[i];
        if row.repository_id == repository_id && row.path == path {
            lemma_same_key(inventory.worktrees, place_key(), i, place);
        }
    }
}

proof fn lemma_entered_again(
    inventory: InventoryView,
    repository_id: i64,
    listed: Seq<ListedWorktreeView>,
    now: i64,
)
    requires
        inventory.consistent(),
        knows_all(inventory, repository_id, listed),
    ensures
        inventory.enter_worktrees(repository_id, listed, now) matches Ok(after) && same_worktrees(
            inventory,
            after,
        ),
    decreases listed.len(),
{
    if listed.len() > 0 {
        let shorter = listed.drop_last();
        assert forall|k: int| 0 <= k < shorter.len() implies knows(
            inventory,
            repository_id,
            #[trigger] shorter[k],
        ) by {
            assert(shorter[k] == listed[k]);
        }
        lemma_entered_again(inventory, repository_id, shorter, now);
        lemma_entered_consistent(inventory, repository_id, shorter, now);
        let before = inventory.enter_worktrees(repository_id, shorter, now)->Ok_0;
        let last = listed.last();
        assert(knows(inventory, repository_id, listed[listed.len() - 1]));
        lemma_still_knows(inventory, before, repository_id, last);
        lemma_enter_again(before, repository_id, last, now);
    }
}

// ---------------------------------------------------------------------------
// Reservations
// ---------------------------------------------------------------------------

/// Whether the reservations are for the same paths, branches and keys as before, and
/// none holds what it did not hold.
pub open spec fn same_reservations(
    before: Seq<ReservationRecordView>,
    after: Seq<ReservationRecordView>,
) -> bool {
    &&& after.len() == before.len()
    &&& forall|i: int|
        #![trigger after[i]]
        #![trigger before[i]]
        0 <= i < before.len() ==> {
            &&& after[i].id == before[i].id
            &&& after[i].repository_id == before[i].repository_id
            &&& after[i].path == before[i].path
            &&& after[i].branch == before[i].branch
            &&& after[i].idempotency_key == before[i].idempotency_key
            &&& holds(after[i].state) ==> holds(before[i].state)
        }
}

/// Whether Git lists a worktree at a path, and it is there.
pub open spec fn is_there(listed: Seq<ListedWorktreeView>, path: Seq<char>) -> bool {
    match listed_at(listed, path) {
        Some(item) => !item.is_missing(),
        None => false,
    }
}

/// Whether settling the known worktrees leaves a reservation alone: it is not
/// fulfilled, or its worktree is listed and there.
pub open spec fn left_alone(
    known: Seq<WorktreeRecordView>,
    listed: Seq<ListedWorktreeView>,
    reservation: ReservationRecordView,
) -> bool {
    ||| reservation.state != "succeeded"@
    ||| forall|k: int|
        0 <= k < known.len() && reservation.worktree_id == Some(
            (#[trigger] known[k]).id,
        ) ==> is_there(listed, known[k].path)
}

proof fn lemma_reservations_settled(
    inventory: InventoryView,
    known: Seq<WorktreeRecordView>,
    listed: Seq<ListedWorktreeView>,
    now: i64,
    i: int,
)
    requires
        0 <= i < inventory.reservations.len(),
        left_alone(known, listed, inventory.reservations[i]),
    ensures
        same_reservations(
            inventory.reservations,
            inventory.settle_worktrees(known, listed, now).reservations,
        ),
        inventory.settle_worktrees(known, listed, now).reservations[i]
            == inventory.reservations[i],
        inventory.settle_worktrees(known, listed, now).repositories == inventory.repositories,
    decreases known.len(),
{
    if known.len() > 0 {
        let shorter = known.drop_last();
        assert(left_alone(shorter, listed, inventory.reservations[i])) by {
            if inventory.reservations[i].state == "succeeded"@ {
                assert forall|k: int|
                    0 <= k < shorter.len() && inventory.reservations[i].worktree_id == Some(
                        (#[trigger] shorter[k]).id,
                    ) implies is_there(listed, shorter[k].path) by {
                    assert(shorter[k] == known[k]);
                }
            }
        }
        lemma_reservations_settled(inventory, shorter, listed, now, i);
        assert(known.last() == known[known.len() - 1]);
    }
}

// ---------------------------------------------------------------------------
// Repositories
// ---------------------------------------------------------------------------

pub proof fn lemma_registered_again(
    inventory: InventoryView,
    repository: GitRepositoryView,
    now: i64,
)
    requires
        inventory.register_repository(repository, now) is Ok,
    ensures
        ({
            let (after, record) = inventory.register_repository(repository, now)->Ok_0;
            &&& after == InventoryView { repositories: after.repositories, ..inventory }
            &&& after.repository_at(repository.common_git_dir) == Some(record)
            &&& inventory.repository_at(repository.common_git_dir) matches Some(row)
                ==> row.id == record.id
        }),
{
    let wanted = |row: RepositoryRecordView| row.common_git_dir == repository.common_git_dir;
    let change = |row: RepositoryRecordView|
        if row.common_git_dir == repository.common_git_dir {
            repository_again(row, repository, now)
        } else {
            row
        };
    lemma_first_match(inventory.repositories, wanted);
    lemma_first_match_map(inventory.repositories, wanted, change);
    let (after, record) = inventory.register_repository(repository, now)->Ok_0;
    if inventory.repository_at(repository.common_git_dir) is None {
        crate::inventory::promises::lemma_first_match_push(
            inventory.repositories,
            wanted,
            record,
        );
    }
}

/// Whether the worktree of a reservation is listed and there.
pub open spec fn stands(
    inventory: InventoryView,
    repository_id: i64,
    listed: Seq<ListedWorktreeView>,
    reservation: ReservationRecordView,
    path: Seq<char>,
) -> bool {
    &&& inventory.worktree_at(repository_id, path) matches Some(row) && reservation.worktree_id
        == Some(row.id)
    &&& is_there(listed, path)
}

/// Reconciling a repository whose worktrees are known as Git lists them succeeds,
/// keeps the worktrees under their identifiers, and keeps the reservation of a
/// worktree that is there.
pub proof fn reconciling_again_changes_little(
    inventory: InventoryView,
    repository: GitRepositoryView,
    repository_id: i64,
    listed: Seq<ListedWorktreeView>,
    path: Seq<char>,
    i: int,
    now: i64,
)
    requires
        inventory.consistent(),
        inventory.register_repository(repository, now) is Ok,
        inventory.repository_at(repository.common_git_dir) matches Some(row) && row.id
            == repository_id,
        knows_all(inventory, repository_id, listed),
        0 <= i < inventory.reservations.len(),
        stands(inventory, repository_id, listed, inventory.reservations[i], path),
    ensures
        ({
            let (after, outcome) = inventory.reconcile_repository(repository, listed, now);
            &&& outcome == Ok::<
                Seq<WorktreeRecordView>,
                crate::inventory::records::InventoryErrorView,
            >(after.worktrees_of(repository_id))
            &&& after.consistent()
            &&& after.repository_at(repository.common_git_dir) matches Some(row) && row.id
                == repository_id
            &&& knows_all(after, repository_id, listed)
            &&& same_reservations(inventory.reservations, after.reservations)
            &&& after.reservations[i] == inventory.reservations[i]
            &&& stands(after, repository_id, listed, after.reservations[i], path)
        }),
{
    lemma_registered_again(inventory, repository, now);
    registering_repository_keeps_consistent(inventory, repository, now);
    reconciling_keeps_consistent(inventory, repository, listed, now);
    let (registered, record) = inventory.register_repository(repository, now)->Ok_0;
    assert forall|k: int| 0 <= k < listed.len() implies knows(
        registered,
        repository_id,
        #[trigger] listed[k],
    ) by {
        assert(knows(inventory, repository_id, listed[k]));
    }
    lemma_entered_again(registered, repository_id, listed, now);
    lemma_entered_consistent(registered, repository_id, listed, now);
    let entered = registered.enter_worktrees(repository_id, listed, now)->Ok_0;
    let known = entered.worktree_rows(repository_id);
    lemma_rows_belong(entered, repository_id);
    let after = entered.settle_worktrees(known, listed, now);
    let own = lemma_same_place(registered, entered, repository_id, path);
    assert(entered.worktrees[own].id == registered.worktrees[own].id);
    let reservation = inventory.reservations[i];
    assert(left_alone(known, listed, reservation)) by {
        assert forall|k: int|
            0 <= k < known.len() && reservation.worktree_id == Some(
                (#[trigger] known[k]).id,
            ) implies is_there(listed, known[k].path) by {
            assert(entered.worktrees.contains(known[k]));
            let m = choose|m: int|
                0 <= m < entered.worktrees.len() && entered.worktrees[m] == known[k];
            lemma_same_key(entered.worktrees, worktree_key(), m, own);
        }
    }
    lemma_reservations_settled(entered, known, listed, now, i);
    lemma_settled_rows(entered, known, listed, now, own);
    assert forall|k: int| 0 <= k < entered.worktrees.len() implies {
        &&& (#[trigger] after.worktrees[k]).repository_id == entered.worktrees[k].repository_id
        &&& after.worktrees[k].path == entered.worktrees[k].path
    } by {
        lemma_settled_rows(entered, known, listed, now, k);
    }
    assert forall|k: int| 0 <= k < listed.len() implies knows(
        after,
        repository_id,
        #[trigger] listed[k],
    ) by {
        lemma_still_knows(registered, entered, repository_id, listed[k]);
        let place = lemma_same_place(entered, after, repository_id, listed[k].worktree.path);
        let at = |item: ListedWorktreeView| item.worktree.path == listed[k].worktree.path;
        lemma_first_match(listed, at);
        assert(at(listed[k]));
        lemma_settled_rows(entered, known, listed, now, place);
    }
    let settled = lemma_same_place(entered, after, repository_id, path);
    lemma_settled_rows(entered, known, listed, now, settled);
}

// ---------------------------------------------------------------------------
// Reconciling for the first time
// ---------------------------------------------------------------------------

proof fn lemma_entering_is_about_worktrees(
    inventory: InventoryView,
    repository_id: i64,
    listed: Seq<ListedWorktreeView>,
    now: i64,
)
    requires
        inventory.enter_worktrees(repository_id, listed, now) is Ok,
    ensures
        ({
            let after = inventory.enter_worktrees(repository_id, listed, now)->Ok_0;
            after == InventoryView { worktrees: after.worktrees, ..inventory }
        }),
        forall|k: int| 0 <= k < listed.len() ==> can_be_stored(#[trigger] listed[k]),
    decreases listed.len(),
{
    if listed.len() > 0 {
        let shorter = listed.drop_last();
        lemma_entering_is_about_worktrees(inventory, repository_id, shorter, now);
        assert forall|k: int| 0 <= k < listed.len() implies can_be_stored(#[trigger] listed[k]) by {
            if k < shorter.len() {
                assert(can_be_stored(shorter[k]));
            } else {
                assert(listed[k] == listed.last());
            }
        }
    }
}

pub proof fn lemma_entered_row(
    inventory: InventoryView,
    repository_id: i64,
    listed: Seq<ListedWorktreeView>,
    now: i64,
    place: int,
)
    requires
        inventory.enter_worktrees(repository_id, listed, now) is Ok,
        0 <= place < inventory.worktrees.len(),
    ensures
        ({
            let after = inventory.enter_worktrees(repository_id, listed, now)->Ok_0;
            &&& place < after.worktrees.len()
            &&& after.worktrees[place].id == inventory.worktrees[place].id
            &&& after.worktrees[place].repository_id == inventory.worktrees[place].repository_id
            &&& after.worktrees[place].path == inventory.worktrees[place].path
        }),
    decreases listed.len(),
{
    if listed.len() > 0 {
        lemma_entered_row(inventory, repository_id, listed.drop_last(), now, place);
    }
}

/// Whether reconciling leaves a reservation alone: it is not fulfilled, or its
/// worktree, at a path, is listed and there.
pub open spec fn is_kept(
    inventory: InventoryView,
    repository_id: i64,
    listed: Seq<ListedWorktreeView>,
    reservation: ReservationRecordView,
    path: Seq<char>,
) -> bool {
    reservation.state != "succeeded"@ || stands(
        inventory,
        repository_id,
        listed,
        reservation,
        path,
    )
}

proof fn lemma_standing_is_left_alone(
    registered: InventoryView,
    entered: InventoryView,
    repository_id: i64,
    listed: Seq<ListedWorktreeView>,
    path: Seq<char>,
    reservation: ReservationRecordView,
    now: i64,
) -> (own: int)
    requires
        registered.consistent(),
        entered.consistent(),
        registered.enter_worktrees(repository_id, listed, now) == Ok::<
            InventoryView,
            crate::inventory::records::InventoryErrorView,
        >(entered),
        stands(registered, repository_id, listed, reservation, path),
    ensures
        left_alone(entered.worktree_rows(repository_id), listed, reservation),
        0 <= own < entered.worktrees.len(),
        entered.worktrees[own].repository_id == repository_id,
        entered.worktrees[own].path == path,
        entered.worktrees[own].id == registered.worktree_at(repository_id, path)->0.id,
{
    let own = lemma_place(registered, repository_id, path);
    lemma_entered_row(registered, repository_id, listed, now, own);
    lemma_rows_belong(entered, repository_id);
    let known = entered.worktree_rows(repository_id);
    assert forall|k: int|
        0 <= k < known.len() && reservation.worktree_id == Some(
            (#[trigger] known[k]).id,
        ) implies is_there(listed, known[k].path) by {
        assert(entered.worktrees.contains(known[k]));
        let m = choose|m: int|
            0 <= m < entered.worktrees.len() && entered.worktrees[m] == known[k];
        lemma_same_key(entered.worktrees, worktree_key(), m, own);
    }
    own
}

/// Reconciling a repository keeps a reservation that is not fulfilled yet, and one
/// whose worktree is listed and there. Afterwards the inventory knows every listed
/// worktree as Git lists it, if no path is listed twice.
pub proof fn reconciling_keeps_reservations(
    inventory: InventoryView,
    repository: GitRepositoryView,
    listed: Seq<ListedWorktreeView>,
    path: Seq<char>,
    i: int,
    now: i64,
)
    requires
        inventory.consistent(),
        inventory.reconcile_repository(repository, listed, now).1 is Ok,
        0 <= i < inventory.reservations.len(),
        is_kept(
            inventory,
            inventory.register_repository(repository, now)->Ok_0.1.id,
            listed,
            inventory.reservations[i],
            path,
        ),
    ensures
        ({
            let after = inventory.reconcile_repository(repository, listed, now).0;
            let record = inventory.register_repository(repository, now)->Ok_0.1;
            &&& inventory.reconcile_repository(repository, listed, now).1->Ok_0
                == after.worktrees_of(record.id)
            &&& after.consistent()
            &&& after.repository_at(repository.common_git_dir) == Some(record)
            &&& paths_differ(listed) ==> knows_all(after, record.id, listed)
            &&& same_reservations(inventory.reservations, after.reservations)
            &&& after.reservations[i] == inventory.reservations[i]
            &&& stands(inventory, record.id, listed, inventory.reservations[i], path) ==> stands(
                after,
                record.id,
                listed,
                after.reservations[i],
                path,
            )
        }),
{
    reconciling_keeps_consistent(inventory, repository, listed, now);
    registering_repository_keeps_consistent(inventory, repository, now);
    lemma_registered_again(inventory, repository, now);
    let (registered, record) = inventory.register_repository(repository, now)->Ok_0;
    lemma_entering_is_about_worktrees(registered, record.id, listed, now);
    lemma_entered_consistent(registered, record.id, listed, now);
    let entered = registered.enter_worktrees(record.id, listed, now)->Ok_0;
    let known = entered.worktree_rows(record.id);
    let after = entered.settle_worktrees(known, listed, now);
    let reservation = inventory.reservations[i];
    if stands(inventory, record.id, listed, reservation, path) {
        let own = lemma_standing_is_left_alone(
            registered,
            entered,
            record.id,
            listed,
            path,
            reservation,
            now,
        );
        lemma_rows_belong(entered, record.id);
        lemma_settled_rows(entered, known, listed, now, own);
        let wanted = |row: WorktreeRecordView| row.repository_id == record.id && row.path == path;
        lemma_first_match(after.worktrees, wanted);
        assert(wanted(after.worktrees[own]));
        let place = lemma_place(after, record.id, path);
        lemma_same_key(after.worktrees, place_key(), own, place);
    }
    lemma_reservations_settled(entered, known, listed, now, i);
    if paths_differ(listed) {
        assert forall|k: int| 0 <= k < listed.len() implies knows(
            after,
            record.id,
            #[trigger] listed[k],
        ) by {
            assert(can_be_stored(listed[k]));
            reconciled_inventory_reflects_git(inventory, repository, listed, now, k);
        }
    }
}

proof fn lemma_settling_is_not_about_repositories(
    inventory: InventoryView,
    known: Seq<WorktreeRecordView>,
    listed: Seq<ListedWorktreeView>,
    now: i64,
)
    ensures
        inventory.settle_worktrees(known, listed, now).repositories == inventory.repositories,
    decreases known.len(),
{
    if known.len() > 0 {
        lemma_settling_is_not_about_repositories(inventory, known.drop_last(), listed, now);
    }
}

pub proof fn lemma_reconciled_repository(
    inventory: InventoryView,
    repository: GitRepositoryView,
    listed: Seq<ListedWorktreeView>,
    now: i64,
)
    requires
        inventory.reconcile_repository(repository, listed, now).1 is Ok,
    ensures
        inventory.reconcile_repository(repository, listed, now).0.repository_at(
            repository.common_git_dir,
        ) == Some(inventory.register_repository(repository, now)->Ok_0.1),
{
    lemma_registered_again(inventory, repository, now);
    let (registered, record) = inventory.register_repository(repository, now)->Ok_0;
    lemma_entering_is_about_worktrees(registered, record.id, listed, now);
    let entered = registered.enter_worktrees(record.id, listed, now)->Ok_0;
    lemma_settling_is_not_about_repositories(
        entered,
        entered.worktree_rows(record.id),
        listed,
        now,
    );
}

// ---------------------------------------------------------------------------
// Removals that were interrupted
// ---------------------------------------------------------------------------

proof fn lemma_unlisted_row_stays(
    inventory: InventoryView,
    repository_id: i64,
    listed: Seq<ListedWorktreeView>,
    now: i64,
    place: int,
)
    requires
        inventory.enter_worktrees(repository_id, listed, now) is Ok,
        0 <= place < inventory.worktrees.len(),
        listed_at(listed, inventory.worktrees[place].path) is None,
    ensures
        ({
            let after = inventory.enter_worktrees(repository_id, listed, now)->Ok_0;
            &&& place < after.worktrees.len()
            &&& after.worktrees[place] == inventory.worktrees[place]
        }),
    decreases listed.len(),
{
    if listed.len() > 0 {
        let path = inventory.worktrees[place].path;
        let at = |item: ListedWorktreeView| item.worktree.path == path;
        lemma_first_match(listed, at);
        assert(!at(listed[listed.len() - 1]));
        lemma_unlisted_row_stays(inventory, repository_id, listed.drop_last(), now, place);
    }
}

pub proof fn lemma_same_standing_removal(left: InventoryView, right: InventoryView, worktree_id: i64)
    requires
        left.events == right.events,
    ensures
        left.standing_removal(worktree_id) == right.standing_removal(worktree_id),
{
    let one = |row: EventRecordView|
        row.worktree_id == Some(worktree_id) && row.action == "remove_worktree"@ && (row.result
            == "started"@ || row.result == "succeeded"@) && left.failed_removal_after(
            worktree_id,
            row.id,
        ) is None;
    let two = |row: EventRecordView|
        row.worktree_id == Some(worktree_id) && row.action == "remove_worktree"@ && (row.result
            == "started"@ || row.result == "succeeded"@) && right.failed_removal_after(
            worktree_id,
            row.id,
        ) is None;
    assert(one =~= two);
}

proof fn lemma_settled_removal(
    inventory: InventoryView,
    known: Seq<WorktreeRecordView>,
    listed: Seq<ListedWorktreeView>,
    now: i64,
    place: int,
)
    requires
        inventory.consistent(),
        0 <= place < inventory.worktrees.len(),
        listed_at(listed, inventory.worktrees[place].path) is None,
        inventory.worktrees[place].lifecycle_state != "archived"@,
        inventory.standing_removal(inventory.worktrees[place].id) is Some,
        forall|k: int|
            0 <= k < known.len() ==> inventory.worktrees.contains(#[trigger] known[k]),
    ensures
        ({
            let after = inventory.settle_worktrees(known, listed, now);
            &&& after.events == inventory.events
            &&& after.worktrees.len() == inventory.worktrees.len()
            &&& after.worktrees[place].id == inventory.worktrees[place].id
            &&& after.worktrees[place].lifecycle_state == (if known_to(
                known,
                inventory.worktrees[place].id,
            ) {
                "removed"@
            } else {
                inventory.worktrees[place].lifecycle_state
            })
            &&& after.worktrees[place].repository_id == inventory.worktrees[place].repository_id
            &&& after.worktrees[place].path == inventory.worktrees[place].path
        }),
    decreases known.len(),
{
    if known.len() > 0 {
        let shorter = known.drop_last();
        assert forall|k: int| 0 <= k < shorter.len() implies inventory.worktrees.contains(
            #[trigger] shorter[k],
        ) by {
            assert(shorter[k] == known[k]);
        }
        lemma_settled_removal(inventory, shorter, listed, now, place);
        let own = inventory.worktrees[place];
        let last = known.last();
        assert(inventory.worktrees.contains(known[known.len() - 1]));
        let at = choose|j: int|
            0 <= j < inventory.worktrees.len() && inventory.worktrees[j] == last;
        let before = inventory.settle_worktrees(shorter, listed, now);
        lemma_same_standing_removal(inventory, before, own.id);
        if last.id == own.id {
            lemma_same_key(inventory.worktrees, worktree_key(), place, at);
            assert(known[known.len() - 1].id == own.id);
        }
        if known_to(shorter, own.id) {
            let k = choose|k: int| 0 <= k < shorter.len() && (#[trigger] shorter[k]).id == own.id;
            assert(known[k].id == own.id);
        }
        if known_to(known, own.id) && last.id != own.id {
            let k = choose|k: int| 0 <= k < known.len() && (#[trigger] known[k]).id == own.id;
            assert(shorter[k].id == own.id);
        }
    }
}

/// After a repository is reconciled, a worktree whose removal had begun and did
/// not fail, and which Git no longer lists, is removed.
pub proof fn begun_removal_is_recognised(
    inventory: InventoryView,
    repository: GitRepositoryView,
    listed: Seq<ListedWorktreeView>,
    place: int,
    now: i64,
)
    requires
        inventory.consistent(),
        inventory.reconcile_repository(repository, listed, now).1 is Ok,
        0 <= place < inventory.worktrees.len(),
        inventory.worktrees[place].repository_id == inventory.register_repository(
            repository,
            now,
        )->Ok_0.1.id,
        inventory.worktrees[place].lifecycle_state != "archived"@,
        inventory.standing_removal(inventory.worktrees[place].id) is Some,
        listed_at(listed, inventory.worktrees[place].path) is None,
    ensures
        ({
            let after = inventory.reconcile_repository(repository, listed, now).0;
            &&& place < after.worktrees.len()
            &&& after.worktrees[place].lifecycle_state == "removed"@
            &&& after.worktrees[place].repository_id == inventory.worktrees[place].repository_id
            &&& after.worktrees[place].path == inventory.worktrees[place].path
        }),
{
    lemma_registered_again(inventory, repository, now);
    registering_repository_keeps_consistent(inventory, repository, now);
    let (registered, record) = inventory.register_repository(repository, now)->Ok_0;
    lemma_entering_is_about_worktrees(registered, record.id, listed, now);
    lemma_entered_consistent(registered, record.id, listed, now);
    lemma_unlisted_row_stays(registered, record.id, listed, now, place);
    let entered = registered.enter_worktrees(record.id, listed, now)->Ok_0;
    let known = entered.worktree_rows(record.id);
    lemma_rows_belong(entered, record.id);
    let own = entered.worktrees[place];
    lemma_same_standing_removal(inventory, entered, own.id);
    assert(known.contains(own));
    let k = choose|k: int| 0 <= k < known.len() && known[k] == own;
    assert(known[k].id == own.id);
    lemma_settled_removal(entered, known, listed, now, place);
}

} // verus!

//! What the inventory promises over several operations.

use crate::git::repository::GitRepositoryView;
use crate::inventory::laws::acquiring_keeps_consistent;
use crate::inventory::laws::entering_keeps_consistent;
use crate::inventory::laws::leased_key;
use crate::inventory::laws::lemma_active_differs;
use crate::inventory::laws::lemma_same_key;
use crate::inventory::laws::registering_repository_keeps_consistent;
use crate::inventory::laws::worktree_key;
use crate::inventory::records::text_fault;
use crate::inventory::records::InventoryErrorView;
use crate::inventory::records::LeaseRecordView;
use crate::inventory::records::RequestRecordView;
use crate::inventory::records::ReservationRecordView;
use crate::inventory::records::WorktreeRecordView;
use crate::inventory::reservations::holds;
use crate::inventory::sessions::later;
use crate::inventory::state::InventoryView;
use crate::inventory::table::first_match;
use crate::inventory::table::lemma_first_match;
use crate::inventory::table::lemma_first_match_at;
use crate::inventory::worktrees::listed_at;
use crate::inventory::worktrees::worktree_again;
use crate::inventory::worktrees::ListedWorktreeView;
use vstd::prelude::*;

verus! {

pub proof fn lemma_first_match_map<V>(
    rows: Seq<V>,
    wanted: spec_fn(V) -> bool,
    change: spec_fn(V) -> V,
)
    requires
        forall|row: V| wanted(#[trigger] change(row)) == wanted(row),
    ensures
        first_match(rows.map_values(change), wanted) == match first_match(rows, wanted) {
            Some(row) => Some(change(row)),
            None => None,
        },
    decreases rows.len(),
{
    if rows.len() > 0 {
        lemma_first_match_map(rows.drop_last(), wanted, change);
        assert(rows.map_values(change).drop_last() =~= rows.drop_last().map_values(change));
        assert(rows.map_values(change).last() == change(rows.last()));
    }
}

pub proof fn lemma_first_match_push<V>(rows: Seq<V>, wanted: spec_fn(V) -> bool, row: V)
    ensures
        first_match(rows.push(row), wanted) == match first_match(rows, wanted) {
            Some(found) => Some(found),
            None => if wanted(row) {
                Some(row)
            } else {
                None
            },
        },
{
    assert(rows.push(row).drop_last() =~= rows);
}

// ---------------------------------------------------------------------------
// Leases
// ---------------------------------------------------------------------------

/// The lease that a claim returns stands in the table.
proof fn lemma_claimed_stands(
    inventory: InventoryView,
    worktree_id: i64,
    session_id: Seq<char>,
    ttl_seconds: i64,
    now: i64,
) -> (place: int)
    requires
        inventory.claim_lease(worktree_id, session_id, ttl_seconds, now) is Ok,
    ensures
        ({
            let (after, lease) = inventory.claim_lease(
                worktree_id,
                session_id,
                ttl_seconds,
                now,
            )->Ok_0;
            &&& 0 <= place < after.leases.len()
            &&& after.leases[place] == lease
            &&& lease.worktree_id == worktree_id
            &&& lease.session_id == session_id
            &&& lease.state == "active"@
            &&& lease.expires_at == later(now, ttl_seconds)
        }),
{
    let wanted = |row: LeaseRecordView| row.worktree_id == worktree_id && row.state == "active"@;
    lemma_first_match(inventory.leases, wanted);
    match inventory.worktree_lease(worktree_id) {
        Some(existing) => {
            let place = choose|i: int|
                0 <= i < inventory.leases.len() && inventory.leases[i] == existing;
            place
        },
        None => inventory.leases.len() as int,
    }
}

/// A worktree is leased from the moment a lease is acquired until its time is
/// over, and not from then on.
pub proof fn lease_lasts_its_time(
    inventory: InventoryView,
    worktree_id: i64,
    session_id: Seq<char>,
    ttl_seconds: i64,
    now: i64,
    moment: i64,
)
    requires
        inventory.consistent(),
        inventory.acquire_lease(worktree_id, session_id, ttl_seconds, now) is Ok,
    ensures
        inventory.acquire_lease(
            worktree_id,
            session_id,
            ttl_seconds,
            now,
        )->Ok_0.0.live_worktree_lease(worktree_id, moment) is Some <==> moment < later(
            now,
            ttl_seconds,
        ),
{
    let (after, lease) = inventory.acquire_lease(worktree_id, session_id, ttl_seconds, now)->Ok_0;
    acquiring_keeps_consistent(inventory, worktree_id, session_id, ttl_seconds, now);
    let place = lemma_claimed_stands(
        inventory.with_worktree_leases_expired(worktree_id, now),
        worktree_id,
        session_id,
        ttl_seconds,
        now,
    );
    let live = |row: LeaseRecordView|
        row.worktree_id == worktree_id && row.state == "active"@ && row.expires_at > moment;
    lemma_first_match(after.leases, live);
    if moment < later(now, ttl_seconds) {
        assert(live(after.leases[place]));
    } else if after.live_worktree_lease(worktree_id, moment) is Some {
        let other = choose|i: int|
            0 <= i < after.leases.len() && after.leases[i] == after.live_worktree_lease(
                worktree_id,
                moment,
            )->0;
        lemma_same_key(after.leases, leased_key(), place, other);
    }
}

/// While a worktree is leased, no other session can acquire a lease on it.
pub proof fn leased_worktree_refuses_others(
    inventory: InventoryView,
    worktree_id: i64,
    session_id: Seq<char>,
    ttl_seconds: i64,
    now: i64,
)
    requires
        inventory.consistent(),
        inventory.live_worktree_lease(worktree_id, now) is Some,
        inventory.live_worktree_lease(worktree_id, now)->0.session_id != session_id,
    ensures
        inventory.acquire_lease(worktree_id, session_id, ttl_seconds, now) is Err,
{
    let held = inventory.live_worktree_lease(worktree_id, now)->0;
    let live = |row: LeaseRecordView|
        row.worktree_id == worktree_id && row.state == "active"@ && row.expires_at > now;
    lemma_first_match(inventory.leases, live);
    let place = choose|i: int| 0 <= i < inventory.leases.len() && inventory.leases[i] == held;
    let current = inventory.with_worktree_leases_expired(worktree_id, now);
    assert(current.leases[place] == held);
    let wanted = |row: LeaseRecordView| row.worktree_id == worktree_id && row.state == "active"@;
    lemma_first_match(current.leases, wanted);
    assert(wanted(current.leases[place]));
    let found = current.worktree_lease(worktree_id)->0;
    let other = choose|i: int| 0 <= i < current.leases.len() && current.leases[i] == found;
    lemma_active_differs();
    assert(inventory.leases[other].state == "active"@ && inventory.leases[other].worktree_id
        == worktree_id);
    lemma_same_key(inventory.leases, leased_key(), place, other);
}

/// Once leases are expired at a moment, no active lease is left whose time was
/// over by then, and the others are as before.
pub proof fn expired_leases_are_over(inventory: InventoryView, now: i64, i: int)
    requires
        0 <= i < inventory.leases.len(),
    ensures
        ({
            let before = inventory.leases[i];
            let after = inventory.with_leases_expired(now).leases[i];
            if before.state == "active"@ && before.expires_at <= now {
                after.state == "expired"@
            } else {
                after == before
            }
        }),
{
}

// ---------------------------------------------------------------------------
// Requests
// ---------------------------------------------------------------------------

pub proof fn lemma_request_after(
    inventory: InventoryView,
    id: Seq<char>,
    state: Seq<char>,
    response_json: Option<Seq<char>>,
    now: i64,
)
    ensures
        inventory.with_request_state(id, state, response_json, now).request(id) == match inventory.request(
            id,
        ) {
            Some(row) => Some(
                RequestRecordView { state, response_json, updated_at: now, ..row },
            ),
            None => None,
        },
{
    let wanted = |row: RequestRecordView| row.id == id;
    let change = |row: RequestRecordView|
        if row.id == id {
            RequestRecordView { state, response_json, updated_at: now, ..row }
        } else {
            row
        };
    lemma_first_match_map(inventory.requests, wanted, change);
    lemma_first_match(inventory.requests, wanted);
}

/// A request that was answered is answered again with the same response, without
/// any change to the inventory.
pub proof fn answered_request_is_replayed(
    inventory: InventoryView,
    id: Seq<char>,
    response_json: Seq<char>,
    answered_at: i64,
    repeated_at: i64,
)
    requires
        id.len() > 0,
        inventory.request(id) is Some,
        inventory.request(id)->0.operation.len() > 0,
        inventory.complete_request(id, response_json, answered_at) is Ok,
    ensures
        ({
            let operation = inventory.request(id)->0.operation;
            let (after, row) = inventory.complete_request(id, response_json, answered_at)->Ok_0;
            &&& row.response_json == Some(response_json)
            &&& after.begin_request(id, operation, repeated_at) == Ok::<
                (InventoryView, RequestRecordView),
                InventoryErrorView,
            >((after, row))
        }),
{
    lemma_request_after(inventory, id, "succeeded"@, Some(response_json), answered_at);
}

/// The identifier of a request cannot be used for another operation.
pub proof fn reused_request_id_is_refused(
    inventory: InventoryView,
    id: Seq<char>,
    operation: Seq<char>,
    now: i64,
)
    requires
        inventory.request(id) is Some,
        inventory.request(id)->0.operation != operation,
    ensures
        inventory.begin_request(id, operation, now) is Err,
{
}

/// A request that was interrupted, or that failed, is begun again.
pub proof fn unanswered_request_is_begun_again(
    inventory: InventoryView,
    id: Seq<char>,
    operation: Seq<char>,
    now: i64,
)
    requires
        id.len() > 0,
        operation.len() > 0,
        text_fault(id) is None,
        inventory.request(id) is Some,
        inventory.request(id)->0.operation == operation,
        inventory.request(id)->0.state != "succeeded"@,
    ensures
        inventory.begin_request(id, operation, now) matches Ok((after, row)) && row.state
            == "started"@ && row.response_json is None && after.request(id) == Some(row),
{
    lemma_request_after(inventory, id, "started"@, None, now);
}

// ---------------------------------------------------------------------------
// Reservations
// ---------------------------------------------------------------------------

/// A reservation that is asked for again with its key is the same reservation.
pub proof fn repeated_reservation_is_the_same(
    inventory: InventoryView,
    repository_id: i64,
    path: Seq<char>,
    branch: Seq<char>,
    key: Seq<char>,
    now: i64,
    repeated_at: i64,
)
    requires
        inventory.reserve_creation(repository_id, path, branch, Some(key), now) is Ok,
    ensures
        ({
            let (after, row) = inventory.reserve_creation(
                repository_id,
                path,
                branch,
                Some(key),
                now,
            )->Ok_0;
            after.reserve_creation(repository_id, path, branch, Some(key), repeated_at) == Ok::<
                (InventoryView, ReservationRecordView),
                InventoryErrorView,
            >((after, row))
        }),
{
    let keyed = |row: ReservationRecordView|
        row.repository_id == repository_id && row.idempotency_key == Some(key);
    let (after, row) = inventory.reserve_creation(
        repository_id,
        path,
        branch,
        Some(key),
        now,
    )->Ok_0;
    if inventory.reservation_for_key(repository_id, key) is None {
        lemma_first_match_push(inventory.reservations, keyed, row);
    }
}

/// Whether a key holds a reservation for a path and a branch.
pub open spec fn key_holds(
    inventory: InventoryView,
    repository_id: i64,
    key: Option<Seq<char>>,
    path: Seq<char>,
    branch: Seq<char>,
) -> bool {
    match key {
        Some(text) => match inventory.reservation_for_key(repository_id, text) {
            Some(own) => own.path == path && own.branch == branch && holds(own.state),
            None => false,
        },
        None => false,
    }
}

/// While a path or a branch is held, a creation that has not reserved both under its
/// key cannot reserve it: neither one without a key, nor one whose key has no
/// reservation, or one for another path or branch, or one that is over.
pub proof fn held_path_or_branch_is_refused(
    inventory: InventoryView,
    repository_id: i64,
    path: Seq<char>,
    branch: Seq<char>,
    key: Option<Seq<char>>,
    now: i64,
    i: int,
)
    requires
        0 <= i < inventory.reservations.len(),
        inventory.reservations[i].repository_id == repository_id,
        holds(inventory.reservations[i].state),
        inventory.reservations[i].path == path || inventory.reservations[i].branch == branch,
        !key_holds(inventory, repository_id, key, path, branch),
    ensures
        inventory.reserve_creation(repository_id, path, branch, key, now) is Err,
{
    let held = |row: ReservationRecordView|
        row.repository_id == repository_id && holds(row.state) && (row.path == path || row.branch
            == branch);
    lemma_first_match(inventory.reservations, held);
    assert(held(inventory.reservations[i]));
}

// ---------------------------------------------------------------------------
// Reconciliation
// ---------------------------------------------------------------------------

/// Whether the inventory says of a listed worktree what Git says of it.
pub open spec fn reflects(
    inventory: InventoryView,
    repository_id: i64,
    listed: ListedWorktreeView,
    now: i64,
) -> bool {
    match inventory.worktree_at(repository_id, listed.worktree.path) {
        None => false,
        Some(row) => {
            &&& row.branch == listed.worktree.branch
            &&& row.head == listed.worktree.head
            &&& row.git_state == listed.worktree.word()
            &&& row.last_seen_at == now
            &&& row.lifecycle_state == "archived"@ || row.lifecycle_state == listed.lifecycle()
        },
    }
}

/// The paths of the listed worktrees differ.
pub open spec fn paths_differ(listed: Seq<ListedWorktreeView>) -> bool {
    forall|i: int, j: int|
        #![trigger listed[i], listed[j]]
        0 <= i < j < listed.len() ==> listed[i].worktree.path != listed[j].worktree.path
}

proof fn lemma_enter_reflects(
    inventory: InventoryView,
    repository_id: i64,
    listed: ListedWorktreeView,
    now: i64,
)
    requires
        inventory.enter_worktree(repository_id, listed, now) is Ok,
    ensures
        reflects(
            inventory.enter_worktree(repository_id, listed, now)->Ok_0,
            repository_id,
            listed,
            now,
        ),
{
    let path = listed.worktree.path;
    let wanted = |row: WorktreeRecordView| row.repository_id == repository_id && row.path == path;
    lemma_first_match(inventory.worktrees, wanted);
    let change = |row: WorktreeRecordView|
        if row.repository_id == repository_id && row.path == path {
            worktree_again(row, listed, now)
        } else {
            row
        };
    lemma_first_match_map(inventory.worktrees, wanted, change);
    if inventory.worktree_at(repository_id, path) is None {
        let row = inventory.enter_worktree(repository_id, listed, now)->Ok_0.worktrees.last();
        lemma_first_match_push(inventory.worktrees, wanted, row);
    }
}

proof fn lemma_enter_keeps_reflecting(
    inventory: InventoryView,
    repository_id: i64,
    listed: ListedWorktreeView,
    other: ListedWorktreeView,
    now: i64,
)
    requires
        inventory.enter_worktree(repository_id, listed, now) is Ok,
        other.worktree.path != listed.worktree.path,
        reflects(inventory, repository_id, other, now),
    ensures
        reflects(
            inventory.enter_worktree(repository_id, listed, now)->Ok_0,
            repository_id,
            other,
            now,
        ),
{
    let path = listed.worktree.path;
    let wanted = |row: WorktreeRecordView|
        row.repository_id == repository_id && row.path == other.worktree.path;
    let change = |row: WorktreeRecordView|
        if row.repository_id == repository_id && row.path == path {
            worktree_again(row, listed, now)
        } else {
            row
        };
    lemma_first_match(inventory.worktrees, wanted);
    lemma_first_match_map(inventory.worktrees, wanted, change);
    if inventory.worktree_at(repository_id, path) is None {
        let row = inventory.enter_worktree(repository_id, listed, now)->Ok_0.worktrees.last();
        lemma_first_match_push(inventory.worktrees, wanted, row);
    }
}

proof fn lemma_entered_reflect(
    inventory: InventoryView,
    repository_id: i64,
    listed: Seq<ListedWorktreeView>,
    now: i64,
    k: int,
)
    requires
        inventory.enter_worktrees(repository_id, listed, now) is Ok,
        paths_differ(listed),
        0 <= k < listed.len(),
    ensures
        reflects(
            inventory.enter_worktrees(repository_id, listed, now)->Ok_0,
            repository_id,
            listed[k],
            now,
        ),
    decreases listed.len(),
{
    let shorter = listed.drop_last();
    let before = inventory.enter_worktrees(repository_id, shorter, now)->Ok_0;
    if k == listed.len() - 1 {
        lemma_enter_reflects(before, repository_id, listed.last(), now);
    } else {
        assert forall|i: int, j: int|
            #![trigger shorter[i], shorter[j]]
            0 <= i < j < shorter.len() implies shorter[i].worktree.path
            != shorter[j].worktree.path by {
            assert(listed[i].worktree.path != listed[j].worktree.path);
        }
        lemma_entered_reflect(inventory, repository_id, shorter, now, k);
        assert(shorter[k] == listed[k]);
        assert(listed[k].worktree.path != listed[listed.len() - 1].worktree.path);
        lemma_enter_keeps_reflecting(before, repository_id, listed.last(), listed[k], now);
    }
}

pub proof fn lemma_entered_consistent(
    inventory: InventoryView,
    repository_id: i64,
    listed: Seq<ListedWorktreeView>,
    now: i64,
)
    requires
        inventory.consistent(),
        inventory.enter_worktrees(repository_id, listed, now) is Ok,
    ensures
        inventory.enter_worktrees(repository_id, listed, now)->Ok_0.consistent(),
    decreases listed.len(),
{
    if listed.len() > 0 {
        lemma_entered_consistent(inventory, repository_id, listed.drop_last(), now);
        let before = inventory.enter_worktrees(repository_id, listed.drop_last(), now)->Ok_0;
        entering_keeps_consistent(before, repository_id, listed.last(), now);
    }
}

/// What settling leaves of a row: rows that are listed, archived
/// or removed stay as they are, and the others are lost.
pub open spec fn settled_row(
    before: WorktreeRecordView,
    after: WorktreeRecordView,
    listed: Seq<ListedWorktreeView>,
    done: bool,
    now: i64,
) -> bool {
    let lost = after == (WorktreeRecordView {
        lifecycle_state: after.lifecycle_state,
        last_seen_at: now,
        ..before
    }) && (after.lifecycle_state == "removed"@ || after.lifecycle_state == "missing"@);
    let stays = listed_at(listed, before.path) is Some || before.lifecycle_state == "removed"@
        || before.lifecycle_state == "archived"@;
    if stays {
        after == before
    } else if done {
        lost
    } else {
        after == before
    }
}

/// Whether a worktree is among those known before.
pub open spec fn known_to(known: Seq<WorktreeRecordView>, id: i64) -> bool {
    exists|k: int| 0 <= k < known.len() && (#[trigger] known[k]).id == id
}

pub proof fn lemma_settled_rows(
    inventory: InventoryView,
    known: Seq<WorktreeRecordView>,
    listed: Seq<ListedWorktreeView>,
    now: i64,
    i: int,
)
    requires
        inventory.consistent(),
        0 <= i < inventory.worktrees.len(),
        forall|k: int|
            0 <= k < known.len() ==> inventory.worktrees.contains(#[trigger] known[k]),
    ensures
        inventory.settle_worktrees(known, listed, now).worktrees.len()
            == inventory.worktrees.len(),
        settled_row(
            inventory.worktrees[i],
            inventory.settle_worktrees(known, listed, now).worktrees[i],
            listed,
            known_to(known, inventory.worktrees[i].id),
            now,
        ),
    decreases known.len(),
{
    if known.len() > 0 {
        let shorter = known.drop_last();
        assert forall|k: int| 0 <= k < shorter.len() implies inventory.worktrees.contains(
            #[trigger] shorter[k],
        ) by {
            assert(shorter[k] == known[k]);
        }
        lemma_settled_rows(inventory, shorter, listed, now, i);
        let own = inventory.worktrees[i];
        let last = known.last();
        assert(inventory.worktrees.contains(known[known.len() - 1]));
        let place = choose|j: int|
            0 <= j < inventory.worktrees.len() && inventory.worktrees[j] == last;
        if last.id == own.id {
            lemma_same_key(inventory.worktrees, worktree_key(), i, place);
            assert(known[known.len() - 1].id == own.id);
        }
        if known_to(shorter, own.id) {
            let k = choose|k: int| 0 <= k < shorter.len() && (#[trigger] shorter[k]).id == own.id;
            assert(known[k].id == own.id);
        }
        if known_to(known, own.id) && last.id != own.id {
            let k = choose|k: int| 0 <= k < known.len() && (#[trigger] known[k]).id == own.id;
            assert(shorter[k].id == own.id);
        }
    }
}

pub proof fn lemma_rows_belong(inventory: InventoryView, repository_id: i64)
    ensures
        forall|k: int|
            0 <= k < inventory.worktree_rows(repository_id).len()
                ==> inventory.worktrees.contains(
                #[trigger] inventory.worktree_rows(repository_id)[k],
            ) && inventory.worktree_rows(repository_id)[k].repository_id == repository_id,
        forall|i: int|
            0 <= i < inventory.worktrees.len() && (#[trigger] inventory.worktrees[i]).repository_id
                == repository_id ==> inventory.worktree_rows(repository_id).contains(
                inventory.worktrees[i],
            ),
{
    let wanted = |row: WorktreeRecordView| row.repository_id == repository_id;
    let rows = inventory.worktree_rows(repository_id);
    assert forall|k: int| 0 <= k < rows.len() implies inventory.worktrees.contains(
        #[trigger] rows[k],
    ) && rows[k].repository_id == repository_id by {
        inventory.worktrees.lemma_filter_pred(wanted, k);
        assert(rows.contains(rows[k]));
        inventory.worktrees.lemma_filter_contains_rev(wanted, rows[k]);
    }
    assert forall|i: int|
        0 <= i < inventory.worktrees.len() && (#[trigger] inventory.worktrees[i]).repository_id
            == repository_id implies rows.contains(inventory.worktrees[i]) by {
        inventory.worktrees.lemma_filter_contains(wanted, i);
    }
}

/// After a repository is reconciled, the inventory says of every listed worktree
/// what Git says of it: nothing remembered overrides the current state of Git.
pub proof fn reconciled_inventory_reflects_git(
    inventory: InventoryView,
    repository: GitRepositoryView,
    listed: Seq<ListedWorktreeView>,
    now: i64,
    k: int,
)
    requires
        inventory.consistent(),
        inventory.reconcile_repository(repository, listed, now).1 is Ok,
        paths_differ(listed),
        0 <= k < listed.len(),
    ensures
        reflects(
            inventory.reconcile_repository(repository, listed, now).0,
            inventory.register_repository(repository, now)->Ok_0.1.id,
            listed[k],
            now,
        ),
{
    registering_repository_keeps_consistent(inventory, repository, now);
    let (registered, record) = inventory.register_repository(repository, now)->Ok_0;
    let entered = registered.enter_worktrees(record.id, listed, now)->Ok_0;
    lemma_entered_consistent(registered, record.id, listed, now);
    lemma_entered_reflect(registered, record.id, listed, now, k);
    lemma_rows_belong(entered, record.id);
    let known = entered.worktree_rows(record.id);
    let after = entered.settle_worktrees(known, listed, now);
    let path = listed[k].worktree.path;
    let wanted = |row: WorktreeRecordView| row.repository_id == record.id && row.path == path;
    lemma_first_match(entered.worktrees, wanted);
    let place = choose|i: int|
        0 <= i < entered.worktrees.len() && entered.worktrees[i] == entered.worktree_at(
            record.id,
            path,
        )->0 && forall|j: int| 0 <= j < i ==> !wanted(#[trigger] entered.worktrees[j]);
    let at_path = |item: ListedWorktreeView| item.worktree.path == path;
    lemma_first_match(listed, at_path);
    assert(at_path(listed[k]));
    lemma_settled_rows(entered, known, listed, now, place);
    assert forall|j: int| 0 <= j < place implies !wanted(#[trigger] after.worktrees[j]) by {
        lemma_settled_rows(entered, known, listed, now, j);
        assert(!wanted(entered.worktrees[j]));
    }
    lemma_first_match_at(after.worktrees, wanted, place);
}

/// After a repository is reconciled, a worktree that Git no longer lists is
/// missing, removed or archived.
pub proof fn unlisted_worktrees_are_lost(
    inventory: InventoryView,
    repository: GitRepositoryView,
    listed: Seq<ListedWorktreeView>,
    now: i64,
    i: int,
)
    requires
        inventory.consistent(),
        inventory.reconcile_repository(repository, listed, now).1 is Ok,
        0 <= i < inventory.reconcile_repository(repository, listed, now).0.worktrees.len(),
        ({
            let row = inventory.reconcile_repository(repository, listed, now).0.worktrees[i];
            row.repository_id == inventory.register_repository(repository, now)->Ok_0.1.id
                && listed_at(listed, row.path) is None
        }),
    ensures
        ({
            let state = inventory.reconcile_repository(
                repository,
                listed,
                now,
            ).0.worktrees[i].lifecycle_state;
            state == "missing"@ || state == "removed"@ || state == "archived"@
        }),
{
    registering_repository_keeps_consistent(inventory, repository, now);
    let (registered, record) = inventory.register_repository(repository, now)->Ok_0;
    let entered = registered.enter_worktrees(record.id, listed, now)->Ok_0;
    lemma_entered_consistent(registered, record.id, listed, now);
    lemma_rows_belong(entered, record.id);
    let known = entered.worktree_rows(record.id);
    lemma_length(entered, known, listed, now);
    lemma_settled_rows(entered, known, listed, now, i);
    let own = entered.worktrees[i];
    assert(known.contains(own));
    let k = choose|k: int| 0 <= k < known.len() && known[k] == own;
    assert(known[k].id == own.id);
    assert(known_to(known, own.id));
}

proof fn lemma_length(
    inventory: InventoryView,
    known: Seq<WorktreeRecordView>,
    listed: Seq<ListedWorktreeView>,
    now: i64,
)
    ensures
        inventory.settle_worktrees(known, listed, now).worktrees.len()
            == inventory.worktrees.len(),
    decreases known.len(),
{
    if known.len() > 0 {
        lemma_length(inventory, known.drop_last(), listed, now);
    }
}

} // verus!

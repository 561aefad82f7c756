//! A key that was fulfilled stays fulfilled, whatever else is done, as long as its
//! worktree is there.

use crate::git::error::GitErrorView;
use crate::git::reads::CommandOutputView;
use crate::inventory::again::is_there;
use crate::inventory::again::lemma_entered_row;
use crate::inventory::again::lemma_registered_again;
use crate::inventory::laws::idempotency_key;
use crate::inventory::laws::lemma_same_key;
use crate::inventory::laws::place_key;
use crate::inventory::laws::registering_repository_keeps_consistent;
use crate::inventory::laws::reservation_key;
use crate::inventory::laws::reserving_keeps_consistent;
use crate::inventory::promises::lemma_entered_consistent;
use crate::inventory::promises::lemma_rows_belong;
use crate::inventory::promises::lemma_settled_rows;
use crate::inventory::records::ReservationRecordView;
use crate::inventory::records::WorktreeRecordView;
use crate::inventory::state::InventoryView;
use crate::inventory::table::lemma_first_match;
use crate::inventory::worktrees::ListedWorktreeView;
use crate::service::cleanup::ObservationView;
use crate::service::create::PendingCreateView;
use crate::service::laws::carrying_out_removal_keeps_consistent;
use crate::service::laws::creating_worktree_keeps_consistent;
use crate::service::laws::leases_keep_consistent;
use crate::service::laws::locking_keeps_consistent;
use crate::service::laws::preparing_removal_keeps_consistent;
use crate::service::laws::refreshing_keeps_consistent;
use crate::service::laws::sessions_keep_consistent;
use crate::service::lock::PendingLockView;
use crate::service::remove::BranchDeletionView;
use crate::service::remove::BranchRetryView;
use crate::service::remove::RemovalView;
use crate::service::reuse::is_fulfilled;
use crate::service::reuse::lemma_refreshed;
use crate::service::state::ServiceView;
use crate::service::types::CreateRequestView;
use crate::service::types::PlaceView;
use crate::service::types::RegisterSessionRequestView;
use vstd::prelude::*;

verus! {

/// A key that was fulfilled for a path and a branch of a repository.
pub struct FulfilledKey {
    pub repository_id: i64,
    pub key: Seq<char>,
    pub path: Seq<char>,
    pub branch: Seq<char>,
}

/// Whether a consistent inventory knows that a key of the repository of a service was
/// fulfilled.
pub open spec fn remembers(service: ServiceView, done: FulfilledKey) -> bool {
    &&& service.inventory.consistent()
    &&& service.inventory.repository_at(service.repository.common_git_dir) matches Some(row)
        && row.id == done.repository_id
    &&& is_fulfilled(service.inventory, done.repository_id, done.key, done.path, done.branch)
}

/// The reservation of a key that was fulfilled.
pub open spec fn own_reservation(service: ServiceView, done: FulfilledKey) -> ReservationRecordView {
    service.inventory.reservation_for_key(done.repository_id, done.key)->0
}

/// Whether the worktrees are the same ones as before, and maybe more, and the
/// reservation at an index is as it was.
spec fn preserved(before: InventoryView, after: InventoryView, i: int) -> bool {
    &&& 0 <= i < before.reservations.len()
    &&& i < after.reservations.len()
    &&& after.reservations[i] == before.reservations[i]
    &&& before.worktrees.len() <= after.worktrees.len()
    &&& forall|p: int|
        #![trigger before.worktrees[p]]
        #![trigger after.worktrees[p]]
        0 <= p < before.worktrees.len() ==> {
            &&& after.worktrees[p].id == before.worktrees[p].id
            &&& after.worktrees[p].repository_id == before.worktrees[p].repository_id
            &&& after.worktrees[p].path == before.worktrees[p].path
        }
}

proof fn lemma_own_place(service: ServiceView, done: FulfilledKey) -> (i: int)
    requires
        remembers(service, done),
    ensures
        0 <= i < service.inventory.reservations.len(),
        service.inventory.reservations[i] == own_reservation(service, done),
        service.inventory.reservations[i].repository_id == done.repository_id,
        service.inventory.reservations[i].idempotency_key == Some(done.key),
{
    let by_key = |row: ReservationRecordView|
        row.repository_id == done.repository_id && row.idempotency_key == Some(done.key);
    lemma_first_match(service.inventory.reservations, by_key);
    choose|i: int|
        0 <= i < service.inventory.reservations.len() && service.inventory.reservations[i]
            == own_reservation(service, done)
}

proof fn lemma_still_remembers(
    before: ServiceView,
    after: ServiceView,
    done: FulfilledKey,
    i: int,
)
    requires
        remembers(before, done),
        0 <= i < before.inventory.reservations.len(),
        before.inventory.reservations[i] == own_reservation(before, done),
        before.inventory.reservations[i].repository_id == done.repository_id,
        before.inventory.reservations[i].idempotency_key == Some(done.key),
        preserved(before.inventory, after.inventory, i),
        after.inventory.consistent(),
        after.inventory.repository_at(after.repository.common_git_dir) matches Some(row) && row.id
            == done.repository_id,
    ensures
        remembers(after, done),
        after.inventory.reservations[i] == own_reservation(after, done),
{
    let by_key = |row: ReservationRecordView|
        row.repository_id == done.repository_id && row.idempotency_key == Some(done.key);
    lemma_first_match(after.inventory.reservations, by_key);
    assert(by_key(after.inventory.reservations[i]));
    let found = own_reservation(after, done);
    let j = choose|j: int|
        0 <= j < after.inventory.reservations.len() && after.inventory.reservations[j] == found;
    lemma_same_key(after.inventory.reservations, idempotency_key(), i, j);
    let here = |row: WorktreeRecordView|
        row.repository_id == done.repository_id && row.path == done.path;
    lemma_first_match(before.inventory.worktrees, here);
    lemma_first_match(after.inventory.worktrees, here);
    let p = choose|p: int|
        0 <= p < before.inventory.worktrees.len() && before.inventory.worktrees[p]
            == before.inventory.worktree_at(done.repository_id, done.path)->0;
    assert(here(before.inventory.worktrees[p]));
    assert(here(after.inventory.worktrees[p]));
    let q = choose|q: int|
        0 <= q < after.inventory.worktrees.len() && after.inventory.worktrees[q]
            == after.inventory.worktree_at(done.repository_id, done.path)->0;
    lemma_same_key(after.inventory.worktrees, place_key(), p, q);
}

proof fn lemma_rows_stay(
    service: ServiceView,
    worktrees: Seq<ListedWorktreeView>,
    now: i64,
    p: int,
)
    requires
        service.inventory.consistent(),
        0 <= p < service.inventory.worktrees.len(),
    ensures
        ({
            let before = service.inventory;
            let after = service.refresh(worktrees, now).0;
            &&& before.worktrees.len() <= after.worktrees.len()
            &&& after.worktrees[p].id == before.worktrees[p].id
            &&& after.worktrees[p].repository_id == before.worktrees[p].repository_id
            &&& after.worktrees[p].path == before.worktrees[p].path
        }),
{
    let repository = service.inventory_repository();
    if service.inventory.register_repository(repository, now) is Ok {
        let (first, _) = service.inventory.register_repository(repository, now)->Ok_0;
        lemma_registered_again(service.inventory, repository, now);
        registering_repository_keeps_consistent(service.inventory, repository, now);
        if first.register_repository(repository, now) is Ok {
            let (registered, record) = first.register_repository(repository, now)->Ok_0;
            lemma_registered_again(first, repository, now);
            registering_repository_keeps_consistent(first, repository, now);
            if registered.enter_worktrees(record.id, worktrees, now) is Ok {
                let entered = registered.enter_worktrees(record.id, worktrees, now)->Ok_0;
                let last = registered.worktrees.len() - 1;
                lemma_entered_row(registered, record.id, worktrees, now, p);
                lemma_entered_row(registered, record.id, worktrees, now, last);
                lemma_entered_consistent(registered, record.id, worktrees, now);
                lemma_rows_belong(entered, record.id);
                lemma_settled_rows(
                    entered,
                    entered.worktree_rows(record.id),
                    worktrees,
                    now,
                    p,
                );
            }
        }
    }
}

/// Reconciling the inventory with what Git lists, whether that succeeds or not, keeps
/// a key fulfilled whose worktree is listed and there.
proof fn lemma_refresh_preserves(
    service: ServiceView,
    done: FulfilledKey,
    worktrees: Seq<ListedWorktreeView>,
    now: i64,
    i: int,
)
    requires
        remembers(service, done),
        is_there(worktrees, done.path),
        0 <= i < service.inventory.reservations.len(),
        service.inventory.reservations[i] == own_reservation(service, done),
        service.inventory.reservations[i].repository_id == done.repository_id,
        service.inventory.reservations[i].idempotency_key == Some(done.key),
    ensures
        preserved(service.inventory, service.refresh(worktrees, now).0, i),
        remembers(service.with_inventory(service.refresh(worktrees, now).0), done),
        service.refresh(worktrees, now).0.reservations[i] == own_reservation(
            service.with_inventory(service.refresh(worktrees, now).0),
            done,
        ),
        service.refresh(worktrees, now).1 matches Ok((record, _)) ==> record.id
            == done.repository_id,
{
    let after = service.refresh(worktrees, now).0;
    let repository = service.inventory_repository();
    refreshing_keeps_consistent(service, worktrees, now);
    if service.inventory.register_repository(repository, now) is Ok {
        let (first, _) = service.inventory.register_repository(repository, now)->Ok_0;
        lemma_registered_again(service.inventory, repository, now);
        if first.register_repository(repository, now) is Ok {
            lemma_registered_again(first, repository, now);
        }
    }
    if service.refresh(worktrees, now).1 is Ok {
        lemma_refreshed(service, done.repository_id, worktrees, done.path, i, now);
    }
    assert forall|p: int|
        #![trigger service.inventory.worktrees[p]]
        #![trigger after.worktrees[p]]
        0 <= p < service.inventory.worktrees.len() implies {
        &&& after.worktrees[p].id == service.inventory.worktrees[p].id
        &&& after.worktrees[p].repository_id == service.inventory.worktrees[p].repository_id
        &&& after.worktrees[p].path == service.inventory.worktrees[p].path
    } by {
        lemma_rows_stay(service, worktrees, now, p);
    }
    if service.inventory.worktrees.len() > 0 {
        lemma_rows_stay(service, worktrees, now, 0);
    }
    lemma_still_remembers(service, service.with_inventory(after), done, i);
}

/// Reconciling the inventory with what Git lists, whether that succeeds or not, keeps
/// a key fulfilled whose worktree is listed and there.
pub proof fn refreshing_keeps_keys_fulfilled(
    service: ServiceView,
    done: FulfilledKey,
    worktrees: Seq<ListedWorktreeView>,
    now: i64,
)
    requires
        remembers(service, done),
        is_there(worktrees, done.path),
    ensures
        remembers(service.with_inventory(service.refresh(worktrees, now).0), done),
{
    let i = lemma_own_place(service, done);
    lemma_refresh_preserves(service, done, worktrees, now, i);
}

/// Locking and unlocking worktrees, at every step and however Git fares, keeps a key
/// fulfilled whose worktree is listed and there.
pub proof fn locking_keeps_keys_fulfilled(
    service: ServiceView,
    done: FulfilledKey,
    requested: PlaceView,
    reason: Option<Seq<char>>,
    lock: bool,
    actor: Seq<char>,
    worktrees: Seq<ListedWorktreeView>,
    pending: PendingLockView,
    attempt: Result<CommandOutputView, GitErrorView>,
    now: i64,
)
    requires
        remembers(service, done),
        is_there(worktrees, done.path),
    ensures
        remembers(
            service.with_inventory(
                service.set_lock(requested, reason, lock, actor, worktrees, now).0,
            ),
            done,
        ),
        remembers(
            service.with_inventory(service.lock_after_git(pending, attempt, now).0),
            done,
        ),
        remembers(
            service.with_inventory(service.lock_finish(pending, worktrees, now).0),
            done,
        ),
{
    let i = lemma_own_place(service, done);
    lemma_refresh_preserves(service, done, worktrees, now, i);
    locking_keeps_consistent(
        service,
        requested,
        reason,
        lock,
        actor,
        worktrees,
        pending,
        attempt,
        now,
    );
    let set = service.with_inventory(
        service.set_lock(requested, reason, lock, actor, worktrees, now).0,
    );
    let ran = service.with_inventory(service.lock_after_git(pending, attempt, now).0);
    let last = service.with_inventory(service.lock_finish(pending, worktrees, now).0);
    lemma_still_remembers(service, set, done, i);
    lemma_still_remembers(service, ran, done, i);
    lemma_still_remembers(service, last, done, i);
}

/// Sessions that come, are seen, and go, and their leases, keep a key fulfilled whose
/// worktree is listed and there.
pub proof fn sessions_keep_keys_fulfilled(
    service: ServiceView,
    done: FulfilledKey,
    request: RegisterSessionRequestView,
    requested: PlaceView,
    worktrees: Seq<ListedWorktreeView>,
    session_id: Seq<char>,
    renewal: Option<i64>,
    ttl: i64,
    actor: Seq<char>,
    now: i64,
)
    requires
        remembers(service, done),
        is_there(worktrees, done.path),
    ensures
        remembers(
            service.with_inventory(service.register_session(request, requested, worktrees, now).0),
            done,
        ),
        remembers(
            service.with_inventory(service.heartbeat_session(session_id, renewal, actor, now).0),
            done,
        ),
        remembers(
            service.with_inventory(service.release_session(session_id, actor, now).0),
            done,
        ),
        remembers(
            service.with_inventory(
                service.acquire_lease(requested, worktrees, session_id, ttl, actor, now).0,
            ),
            done,
        ),
        remembers(
            service.with_inventory(service.release_lease(session_id, actor, now).0),
            done,
        ),
{
    let i = lemma_own_place(service, done);
    lemma_refresh_preserves(service, done, worktrees, now, i);
    sessions_keep_consistent(
        service,
        request,
        requested,
        worktrees,
        session_id,
        renewal,
        actor,
        now,
    );
    leases_keep_consistent(service, requested, worktrees, session_id, ttl, actor, now);
    let repository = service.inventory_repository();
    if service.inventory.register_repository(repository, now) is Ok {
        lemma_registered_again(service.inventory, repository, now);
    }
    let come = service.with_inventory(
        service.register_session(request, requested, worktrees, now).0,
    );
    let seen = service.with_inventory(
        service.heartbeat_session(session_id, renewal, actor, now).0,
    );
    let gone = service.with_inventory(service.release_session(session_id, actor, now).0);
    let leased = service.with_inventory(
        service.acquire_lease(requested, worktrees, session_id, ttl, actor, now).0,
    );
    let released = service.with_inventory(service.release_lease(session_id, actor, now).0);
    lemma_still_remembers(service, come, done, i);
    lemma_still_remembers(service, seen, done, i);
    lemma_still_remembers(service, gone, done, i);
    lemma_still_remembers(service, leased, done, i);
    lemma_still_remembers(service, released, done, i);
}

/// Scanning for cleanup, and deciding on the removal of whatever worktree, keeps a key
/// fulfilled whose worktree is listed and there.
pub proof fn preparing_removal_keeps_keys_fulfilled(
    service: ServiceView,
    done: FulfilledKey,
    requested: PlaceView,
    delete_branch: bool,
    actor: Seq<char>,
    minimum_age: i64,
    worktrees: Seq<ListedWorktreeView>,
    removal: RemovalView,
    seen: ObservationView,
    now: i64,
)
    requires
        remembers(service, done),
        is_there(worktrees, done.path),
    ensures
        remembers(
            service.with_inventory(service.cleanup_scan(minimum_age, worktrees, now).0),
            done,
        ),
        remembers(
            service.with_inventory(
                service.remove(
                    requested,
                    delete_branch,
                    actor,
                    minimum_age,
                    worktrees,
                    now,
                ).0,
            ),
            done,
        ),
        remembers(
            service.with_inventory(service.remove_start(removal, seen, now).0),
            done,
        ),
        remembers(
            service.with_inventory(service.remove_recheck(removal, worktrees, now).0),
            done,
        ),
        remembers(
            service.with_inventory(service.remove_confirm(removal, seen, now).0),
            done,
        ),
{
    let i = lemma_own_place(service, done);
    lemma_refresh_preserves(service, done, worktrees, now, i);
    preparing_removal_keeps_consistent(
        service,
        requested,
        delete_branch,
        actor,
        minimum_age,
        worktrees,
        removal,
        seen,
        now,
    );
    let scanned = service.with_inventory(service.cleanup_scan(minimum_age, worktrees, now).0);
    let asked = service.with_inventory(
        service.remove(requested, delete_branch, actor, minimum_age, worktrees, now).0,
    );
    let started = service.with_inventory(service.remove_start(removal, seen, now).0);
    let rechecked = service.with_inventory(service.remove_recheck(removal, worktrees, now).0);
    let confirmed = service.with_inventory(service.remove_confirm(removal, seen, now).0);
    lemma_still_remembers(service, scanned, done, i);
    lemma_still_remembers(service, asked, done, i);
    lemma_still_remembers(service, started, done, i);
    lemma_still_remembers(service, rechecked, done, i);
    lemma_still_remembers(service, confirmed, done, i);
}

/// Removing another worktree, and deleting whatever branch, keeps a key fulfilled,
/// however Git fares.
pub proof fn removing_others_keeps_keys_fulfilled(
    service: ServiceView,
    done: FulfilledKey,
    removal: RemovalView,
    deletion: BranchDeletionView,
    retry: BranchRetryView,
    attempt: Result<CommandOutputView, GitErrorView>,
    now: i64,
)
    requires
        remembers(service, done),
        own_reservation(service, done).worktree_id != Some(removal.record.id),
    ensures
        remembers(
            service.with_inventory(service.remove_after_git(removal, attempt, now).0),
            done,
        ),
        remembers(
            service.with_inventory(service.remove_finish(removal, deletion, attempt, now).0),
            done,
        ),
        remembers(service.with_inventory(service.retry_branch(retry, attempt, now).0), done),
        remembers(service.with_inventory(service.retry_finish(retry, attempt, now).0), done),
{
    let i = lemma_own_place(service, done);
    carrying_out_removal_keeps_consistent(service, removal, deletion, retry, attempt, now);
    let gone = service.with_inventory(service.remove_after_git(removal, attempt, now).0);
    let last = service.with_inventory(
        service.remove_finish(removal, deletion, attempt, now).0,
    );
    let again = service.with_inventory(service.retry_branch(retry, attempt, now).0);
    let settled = service.with_inventory(service.retry_finish(retry, attempt, now).0);
    lemma_still_remembers(service, gone, done, i);
    lemma_still_remembers(service, last, done, i);
    lemma_still_remembers(service, again, done, i);
    lemma_still_remembers(service, settled, done, i);
}

proof fn lemma_create_preserves(
    service: ServiceView,
    done: FulfilledKey,
    request: CreateRequestView,
    target: PlaceView,
    worktrees: Seq<ListedWorktreeView>,
    target_exists: bool,
    now: i64,
    i: int,
)
    requires
        remembers(service, done),
        is_there(worktrees, done.path),
        0 <= i < service.inventory.reservations.len(),
        service.inventory.reservations[i] == own_reservation(service, done),
        service.inventory.reservations[i].repository_id == done.repository_id,
        service.inventory.reservations[i].idempotency_key == Some(done.key),
    ensures
        ({
            let after = service.create(request, target, worktrees, target_exists, now).0;
            &&& preserved(service.inventory, after, i)
            &&& after.repository_at(service.repository.common_git_dir) matches Some(row) && row.id
                == done.repository_id
        }),
{
    lemma_refresh_preserves(service, done, worktrees, now, i);
    let (current, outcome) = service.refresh(worktrees, now);
    let asked = current.reserve_creation(
        done.repository_id,
        target.path,
        request.branch,
        request.idempotency_key,
        now,
    );
    if outcome is Ok && asked is Ok {
        let (reserved, reservation) = asked->Ok_0;
        let held = service.with_inventory(reserved);
        reserving_keeps_consistent(
            current,
            done.repository_id,
            target.path,
            request.branch,
            request.idempotency_key,
            now,
        );
        assert(preserved(current, reserved, i));
        lemma_still_remembers(service.with_inventory(current), held, done, i);
        lemma_refresh_preserves(held, done, worktrees, now, i);
        reveal_strlit("pending");
        reveal_strlit("succeeded");
        assert("pending"@.len() != "succeeded"@.len());
        if reservation.state == "pending"@ {
            lemma_reserved_place(
                current,
                done.repository_id,
                target.path,
                request.branch,
                request.idempotency_key,
                now,
            );
            let j = choose|j: int|
                0 <= j < reserved.reservations.len() && reserved.reservations[j] == reservation;
            if reserved.reservations[i].id == reservation.id {
                lemma_same_key(reserved.reservations, reservation_key(), i, j);
            }
        }
    }
}

proof fn lemma_reserved_place(
    inventory: InventoryView,
    repository_id: i64,
    path: Seq<char>,
    branch: Seq<char>,
    key: Option<Seq<char>>,
    now: i64,
)
    requires
        inventory.reserve_creation(repository_id, path, branch, key, now) is Ok,
    ensures
        ({
            let (after, row) = inventory.reserve_creation(
                repository_id,
                path,
                branch,
                key,
                now,
            )->Ok_0;
            exists|j: int| 0 <= j < after.reservations.len() && after.reservations[j] == row
        }),
{
    let (after, row) = inventory.reserve_creation(repository_id, path, branch, key, now)->Ok_0;
    if key is Some && inventory.reservation_for_key(repository_id, key->0) is Some {
        lemma_first_match(
            inventory.reservations,
            |one: ReservationRecordView|
                one.repository_id == repository_id && one.idempotency_key == Some(key->0),
        );
    } else {
        assert(after.reservations[after.reservations.len() - 1] == row);
    }
}

/// A creation for which a path and a branch are set aside has another reservation than
/// a key that was fulfilled.
pub proof fn pending_creation_is_another(
    service: ServiceView,
    done: FulfilledKey,
    pending: PendingCreateView,
)
    requires
        remembers(service, done),
        service.inventory.sets_aside(pending),
    ensures
        pending.reservation_id != own_reservation(service, done).id,
{
    let i = lemma_own_place(service, done);
    let rows = service.inventory.reservations;
    let j = choose|j: int|
        0 <= j < rows.len() && (#[trigger] rows[j]).id == pending.reservation_id && rows[j].state
            == "pending"@;
    reveal_strlit("pending");
    reveal_strlit("succeeded");
    assert("pending"@.len() != "succeeded"@.len());
    if rows[i].id == rows[j].id {
        lemma_same_key(rows, reservation_key(), i, j);
    }
}

/// Creating worktrees, at every step and however Git fares, keeps a key fulfilled whose
/// worktree is listed and there. A creation that is carried on has a reservation of its
/// own.
pub proof fn creating_keeps_keys_fulfilled(
    service: ServiceView,
    done: FulfilledKey,
    request: CreateRequestView,
    target: PlaceView,
    worktrees: Seq<ListedWorktreeView>,
    target_exists: bool,
    pending: PendingCreateView,
    attempt: Result<CommandOutputView, GitErrorView>,
    error: GitErrorView,
    now: i64,
)
    requires
        remembers(service, done),
        is_there(worktrees, done.path),
        pending.reservation_id != own_reservation(service, done).id,
    ensures
        remembers(
            service.with_inventory(
                service.create(request, target, worktrees, target_exists, now).0,
            ),
            done,
        ),
        remembers(
            service.with_inventory(service.create_after_git(pending, attempt, now).0),
            done,
        ),
        remembers(
            service.with_inventory(service.create_unconfirmed(pending, error, now).0),
            done,
        ),
        remembers(
            service.with_inventory(service.create_finish(pending, worktrees, now).0),
            done,
        ),
{
    let i = lemma_own_place(service, done);
    lemma_create_preserves(
        service,
        done,
        request,
        target,
        worktrees,
        target_exists,
        now,
        i,
    );
    lemma_refresh_preserves(service, done, worktrees, now, i);
    creating_worktree_keeps_consistent(
        service,
        request,
        target,
        worktrees,
        target_exists,
        pending,
        attempt,
        error,
        now,
    );
    let begun = service.with_inventory(
        service.create(request, target, worktrees, target_exists, now).0,
    );
    let ran = service.with_inventory(service.create_after_git(pending, attempt, now).0);
    let unsure = service.with_inventory(service.create_unconfirmed(pending, error, now).0);
    let last = service.with_inventory(service.create_finish(pending, worktrees, now).0);
    lemma_still_remembers(service, begun, done, i);
    lemma_still_remembers(service, ran, done, i);
    lemma_still_remembers(service, unsure, done, i);
    lemma_still_remembers(service, last, done, i);
}

} // verus!

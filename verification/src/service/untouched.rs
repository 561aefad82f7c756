//! Whatever the service does, the journal of requests stays as it was.

use crate::git::error::GitErrorView;
use crate::git::reads::CommandOutputView;
use crate::inventory::records::WorktreeRecordView;
use crate::inventory::state::InventoryView;
use crate::inventory::worktrees::ListedWorktreeView;
use crate::service::cleanup::ObservationView;
use crate::service::create::PendingCreateView;
use crate::service::lock::PendingLockView;
use crate::service::remove::BranchDeletionView;
use crate::service::remove::BranchRetryView;
use crate::service::remove::RemovalView;
use crate::service::state::ServiceView;
use crate::service::types::CreateRequestView;
use crate::service::types::PlaceView;
use crate::service::types::RegisterSessionRequestView;
use vstd::prelude::*;

verus! {

proof fn lemma_entering(
    inventory: InventoryView,
    repository_id: i64,
    listed: Seq<ListedWorktreeView>,
    now: i64,
)
    ensures
        inventory.enter_worktrees(repository_id, listed, now) matches Ok(after)
            ==> after.requests == inventory.requests,
    decreases listed.len(),
{
    if listed.len() > 0 {
        lemma_entering(inventory, repository_id, listed.drop_last(), now);
    }
}

proof fn lemma_settling(
    inventory: InventoryView,
    known: Seq<WorktreeRecordView>,
    listed: Seq<ListedWorktreeView>,
    now: i64,
)
    ensures
        inventory.settle_worktrees(known, listed, now).requests == inventory.requests,
    decreases known.len(),
{
    if known.len() > 0 {
        lemma_settling(inventory, known.drop_last(), listed, now);
    }
}

/// Reconciling the inventory with what Git lists leaves the journal as it was.
pub proof fn refreshing_leaves_the_journal(
    service: ServiceView,
    worktrees: Seq<ListedWorktreeView>,
    now: i64,
)
    ensures
        service.refresh(worktrees, now).0.requests == service.inventory.requests,
{
    let repository = service.inventory_repository();
    if let Ok((first, _)) = service.inventory.register_repository(repository, now) {
        if let Ok((registered, record)) = first.register_repository(repository, now) {
            lemma_entering(registered, record.id, worktrees, now);
            if let Ok(entered) = registered.enter_worktrees(record.id, worktrees, now) {
                lemma_settling(entered, entered.worktree_rows(record.id), worktrees, now);
            }
        }
    }
}

/// Creating a worktree leaves the journal as it was, at every step and however Git
/// fares.
pub proof fn creating_leaves_the_journal(
    service: ServiceView,
    request: CreateRequestView,
    target: PlaceView,
    worktrees: Seq<ListedWorktreeView>,
    target_exists: bool,
    pending: PendingCreateView,
    attempt: Result<CommandOutputView, GitErrorView>,
    error: GitErrorView,
    now: i64,
)
    ensures
        service.create(request, target, worktrees, target_exists, now).0.requests
            == service.inventory.requests,
        service.create_after_git(pending, attempt, now).0.requests == service.inventory.requests,
        service.create_unconfirmed(pending, error, now).0.requests == service.inventory.requests,
        service.create_finish(pending, worktrees, now).0.requests == service.inventory.requests,
{
    refreshing_leaves_the_journal(service, worktrees, now);
    let (current, outcome) = service.refresh(worktrees, now);
    if let Ok((repository, _)) = outcome {
        if let Ok((reserved, _)) = current.reserve_creation(
            repository.id,
            target.path,
            request.branch,
            request.idempotency_key,
            now,
        ) {
            refreshing_leaves_the_journal(service.with_inventory(reserved), worktrees, now);
        }
    }
}

/// Locking and unlocking a worktree leaves the journal as it was, at every step and
/// however Git fares.
pub proof fn locking_leaves_the_journal(
    service: ServiceView,
    requested: PlaceView,
    reason: Option<Seq<char>>,
    lock: bool,
    actor: Seq<char>,
    worktrees: Seq<ListedWorktreeView>,
    pending: PendingLockView,
    attempt: Result<CommandOutputView, GitErrorView>,
    now: i64,
)
    ensures
        service.set_lock(requested, reason, lock, actor, worktrees, now).0.requests
            == service.inventory.requests,
        service.lock_after_git(pending, attempt, now).0.requests == service.inventory.requests,
        service.lock_finish(pending, worktrees, now).0.requests == service.inventory.requests,
{
    refreshing_leaves_the_journal(service, worktrees, now);
}

/// Scanning for cleanup and deciding on a removal leaves the journal as it was.
pub proof fn preparing_removal_leaves_the_journal(
    service: ServiceView,
    requested: PlaceView,
    delete_branch: bool,
    actor: Seq<char>,
    minimum_age: i64,
    worktrees: Seq<ListedWorktreeView>,
    removal: RemovalView,
    seen: ObservationView,
    now: i64,
)
    ensures
        service.cleanup_scan(minimum_age, worktrees, now).0.requests
            == service.inventory.requests,
        service.remove(
            requested,
            delete_branch,
            actor,
            minimum_age,
            worktrees,
            now,
        ).0.requests == service.inventory.requests,
        service.remove_start(removal, seen, now).0.requests == service.inventory.requests,
        service.remove_recheck(removal, worktrees, now).0.requests == service.inventory.requests,
        service.remove_confirm(removal, seen, now).0.requests == service.inventory.requests,
{
    refreshing_leaves_the_journal(service, worktrees, now);
}

/// Removing a worktree and deleting its branch leaves the journal as it was, however
/// Git fares.
pub proof fn carrying_out_removal_leaves_the_journal(
    service: ServiceView,
    removal: RemovalView,
    deletion: BranchDeletionView,
    retry: BranchRetryView,
    attempt: Result<CommandOutputView, GitErrorView>,
    now: i64,
)
    ensures
        service.remove_after_git(removal, attempt, now).0.requests == service.inventory.requests,
        service.remove_finish(removal, deletion, attempt, now).0.requests
            == service.inventory.requests,
        service.retry_branch(retry, attempt, now).0.requests == service.inventory.requests,
        service.retry_finish(retry, attempt, now).0.requests == service.inventory.requests,
{
}

/// Sessions that come, are seen, and go, and their leases, leave the journal as it
/// was.
pub proof fn sessions_leave_the_journal(
    service: ServiceView,
    request: RegisterSessionRequestView,
    requested: PlaceView,
    worktrees: Seq<ListedWorktreeView>,
    session_id: Seq<char>,
    renewal: Option<i64>,
    ttl: i64,
    actor: Seq<char>,
    now: i64,
)
    ensures
        service.register_session(request, requested, worktrees, now).0.requests
            == service.inventory.requests,
        service.heartbeat_session(session_id, renewal, actor, now).0.requests
            == service.inventory.requests,
        service.release_session(session_id, actor, now).0.requests == service.inventory.requests,
        service.acquire_lease(requested, worktrees, session_id, ttl, actor, now).0.requests
            == service.inventory.requests,
        service.release_lease(session_id, actor, now).0.requests == service.inventory.requests,
{
    refreshing_leaves_the_journal(service, worktrees, now);
}

} // verus!

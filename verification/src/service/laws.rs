//! What holds of the service as a whole.

use crate::git::error::GitErrorView;
use crate::git::reads::CommandOutputView;
use crate::inventory::laws::acquiring_keeps_consistent;
use crate::inventory::laws::creating_keeps_consistent;
use crate::inventory::laws::ending_session_keeps_consistent;
use crate::inventory::laws::heartbeat_keeps_consistent;
use crate::inventory::laws::reconciling_keeps_consistent;
use crate::inventory::laws::recording_keeps_consistent;
use crate::inventory::laws::registering_repository_keeps_consistent;
use crate::inventory::laws::registering_with_lease_keeps_consistent;
use crate::inventory::laws::releasing_leases_keeps_consistent;
use crate::inventory::laws::releasing_reservations_keeps_consistent;
use crate::inventory::laws::removing_keeps_consistent;
use crate::inventory::laws::reservation_state_keeps_consistent;
use crate::inventory::laws::reserving_keeps_consistent;
use crate::inventory::records::EventInputView;
use crate::inventory::records::ReservationRecordView;
use crate::inventory::records::SessionInputView;
use crate::inventory::records::WorktreeRecordView;
use crate::inventory::state::InventoryView;
use crate::inventory::table::lemma_first_match;
use crate::inventory::worktrees::ListedWorktreeView;
use crate::service::assess::eligible_worktree_is_safe;
use crate::service::assess::used_worktree_is_in_use;
use crate::service::cleanup::ObservationView;
use crate::service::commands::remove_command;
use crate::service::create::create_details_json;
use crate::service::create::worktree_event;
use crate::service::create::worktree_on;
use crate::service::create::with_failed_reservation;
use crate::service::create::CreateStepView;
use crate::service::create::PendingCreateView;
use crate::service::error::ServiceErrorView;
use crate::service::lock::LockStepView;
use crate::service::lock::PendingLockView;
use crate::service::remove::BranchDeletionView;
use crate::service::remove::BranchRetryView;
use crate::service::remove::BranchStepView;
use crate::service::remove::RemovalView;
use crate::service::remove::RemoveStepView;
use crate::service::rules::worktree_there;
use crate::service::state::record_at;
use crate::service::state::with_event_if_possible;
use crate::service::state::ServiceView;
use crate::service::types::CreateRequestView;
use crate::service::types::PlaceView;
use crate::service::types::RegisterSessionRequestView;
use vstd::prelude::*;

verus! {

// ---------------------------------------------------------------------------
// The inventory stays consistent
// ---------------------------------------------------------------------------

/// Reconciling the inventory with Git keeps it consistent.
pub proof fn refreshing_keeps_consistent(
    service: ServiceView,
    worktrees: Seq<ListedWorktreeView>,
    now: i64,
)
    requires
        service.inventory.consistent(),
    ensures
        service.refresh(worktrees, now).0.consistent(),
{
    let repository = service.inventory_repository();
    registering_repository_keeps_consistent(service.inventory, repository, now);
    if let Ok((registered, _)) = service.inventory.register_repository(repository, now) {
        reconciling_keeps_consistent(registered, repository, worktrees, now);
    }
}

proof fn lemma_noting_keeps_consistent(inventory: InventoryView, input: EventInputView)
    requires
        inventory.consistent(),
    ensures
        with_event_if_possible(inventory, input).consistent(),
{
    recording_keeps_consistent(inventory, input);
}

proof fn lemma_failing_keeps_consistent(inventory: InventoryView, reservation_id: i64, now: i64)
    requires
        inventory.consistent(),
    ensures
        with_failed_reservation(inventory, reservation_id, now).consistent(),
{
    reservation_state_keeps_consistent(inventory, reservation_id, "failed"@, None, Some(now));
}

proof fn lemma_create_paths_keep_consistent(
    service: ServiceView,
    request: CreateRequestView,
    target: PlaceView,
    worktrees: Seq<ListedWorktreeView>,
    target_exists: bool,
    repository_id: i64,
    reservation_id: i64,
    now: i64,
)
    requires
        service.inventory.consistent(),
    ensures
        service.replay_create(request, target, worktrees, repository_id, now).0.consistent(),
        service.pursue_create(
            request,
            target,
            worktrees,
            target_exists,
            repository_id,
            reservation_id,
            now,
        ).0.consistent(),
{
    refreshing_keeps_consistent(service, worktrees, now);
    reservation_state_keeps_consistent(
        service.inventory,
        reservation_id,
        "failed"@,
        None,
        Some(now),
    );
    recording_keeps_consistent(
        service.inventory,
        worktree_event(
            repository_id,
            None,
            now,
            request.actor,
            "create_worktree"@,
            "started"@,
            create_details_json(target.path, request.branch),
        ),
    );
    if let (current, Ok((_, records))) = service.refresh(worktrees, now) {
        if let Some(record) = record_at(records, target.path) {
            lemma_noting_keeps_consistent(
                current,
                worktree_event(
                    repository_id,
                    Some(record.id),
                    now,
                    request.actor,
                    "create_worktree"@,
                    "idempotent-replay"@,
                    create_details_json(target.path, request.branch),
                ),
            );
            reservation_state_keeps_consistent(
                current,
                reservation_id,
                "succeeded"@,
                Some(record.id),
                Some(now),
            );
        }
    }
}

/// Creating a worktree keeps the inventory consistent, at every step and however
/// Git fares.
pub proof fn creating_worktree_keeps_consistent(
    service: ServiceView,
    request: CreateRequestView,
    target: PlaceView,
    worktrees: Seq<ListedWorktreeView>,
    target_exists: bool,
    pending: PendingCreateView,
    attempt: Result<CommandOutputView, GitErrorView>,
    error: GitErrorView,
    now: i64,
)
    requires
        service.inventory.consistent(),
    ensures
        service.create(request, target, worktrees, target_exists, now).0.consistent(),
        service.create_after_git(pending, attempt, now).0.consistent(),
        service.create_unconfirmed(pending, error, now).0.consistent(),
        service.create_finish(pending, worktrees, now).0.consistent(),
{
    refreshing_keeps_consistent(service, worktrees, now);
    let (current, outcome) = service.refresh(worktrees, now);
    if let Ok((repository, records)) = outcome {
        reserving_keeps_consistent(
            current,
            repository.id,
            target.path,
            request.branch,
            request.idempotency_key,
            now,
        );
        if let Ok((reserved, reservation)) = current.reserve_creation(
            repository.id,
            target.path,
            request.branch,
            request.idempotency_key,
            now,
        ) {
            lemma_create_paths_keep_consistent(
                service.with_inventory(reserved),
                request,
                target,
                worktrees,
                target_exists,
                repository.id,
                reservation.id,
                now,
            );
        }
        if let Some(record) = record_at(records, pending.target.path) {
            lemma_settling_create_keeps_consistent(current, pending, record, now);
        }
    }
    lemma_failing_keeps_consistent(service.inventory, pending.reservation_id, now);
    if let Some(failure) = crate::service::commands::attempt_failure(pending.args, attempt) {
        lemma_noting_keeps_consistent(
            with_failed_reservation(service.inventory, pending.reservation_id, now),
            worktree_event(
                pending.repository_id,
                None,
                now,
                pending.actor,
                "create_worktree"@,
                "failed"@,
                crate::service::create::create_failure_json(
                    pending.target.path,
                    pending.branch,
                    failure.text(),
                ),
            ),
        );
    }
}

proof fn lemma_settling_create_keeps_consistent(
    inventory: InventoryView,
    pending: PendingCreateView,
    record: WorktreeRecordView,
    now: i64,
)
    requires
        inventory.consistent(),
    ensures
        forall|service: ServiceView, listed: ListedWorktreeView|
            service.inventory == inventory ==> (#[trigger] service.settle_create(
                pending,
                listed,
                record,
                now,
            )).0.consistent(),
{
    creating_keeps_consistent(inventory, record.id, now);
    if let Ok(marked) = inventory.mark_created(record.id, now) {
        reservation_state_keeps_consistent(
            marked,
            pending.reservation_id,
            "succeeded"@,
            Some(record.id),
            Some(now),
        );
        if let Ok(fulfilled) = marked.set_reservation_state(
            pending.reservation_id,
            "succeeded"@,
            Some(record.id),
            Some(now),
        ) {
            recording_keeps_consistent(
                fulfilled,
                worktree_event(
                    pending.repository_id,
                    Some(record.id),
                    now,
                    pending.actor,
                    "create_worktree"@,
                    "succeeded"@,
                    create_details_json(pending.target.path, pending.branch),
                ),
            );
        }
    }
}

/// Locking and unlocking a worktree keeps the inventory consistent, at every step
/// and however Git fares.
pub proof fn locking_keeps_consistent(
    service: ServiceView,
    requested: PlaceView,
    reason: Option<Seq<char>>,
    lock: bool,
    actor: Seq<char>,
    worktrees: Seq<ListedWorktreeView>,
    pending: PendingLockView,
    attempt: Result<CommandOutputView, GitErrorView>,
    now: i64,
)
    requires
        service.inventory.consistent(),
    ensures
        service.set_lock(requested, reason, lock, actor, worktrees, now).0.consistent(),
        service.lock_after_git(pending, attempt, now).0.consistent(),
        service.lock_finish(pending, worktrees, now).0.consistent(),
{
    refreshing_keeps_consistent(service, worktrees, now);
    let (current, outcome) = service.refresh(worktrees, now);
    if let Ok((repository, records)) = outcome {
        if let Some(listed) = worktree_there(worktrees, requested.resolved_path) {
            recording_keeps_consistent(
                current,
                worktree_event(
                    repository.id,
                    crate::service::lock::record_id(record_at(records, listed.worktree.path)),
                    now,
                    actor,
                    crate::service::lock::lock_action(lock),
                    "started"@,
                    crate::service::lock::lock_details_json(listed.worktree.path, reason),
                ),
            );
        }
        recording_keeps_consistent(
            current,
            worktree_event(
                pending.repository_id,
                pending.worktree_id,
                now,
                pending.actor,
                crate::service::lock::lock_action(pending.lock),
                "succeeded"@,
                crate::service::lock::lock_details_json(pending.path, pending.reason),
            ),
        );
    }
    if let Some(failure) = crate::service::commands::attempt_failure(pending.args, attempt) {
        lemma_noting_keeps_consistent(
            service.inventory,
            worktree_event(
                pending.repository_id,
                pending.worktree_id,
                now,
                pending.actor,
                crate::service::lock::lock_action(pending.lock),
                "failed"@,
                crate::service::lock::lock_failure_json(pending.path, failure.text()),
            ),
        );
    }
}

/// Scanning for cleanup and deciding on a removal keeps the inventory consistent.
pub proof fn preparing_removal_keeps_consistent(
    service: ServiceView,
    requested: PlaceView,
    delete_branch: bool,
    actor: Seq<char>,
    minimum_age: i64,
    worktrees: Seq<ListedWorktreeView>,
    removal: RemovalView,
    seen: ObservationView,
    now: i64,
)
    requires
        service.inventory.consistent(),
    ensures
        service.cleanup_scan(minimum_age, worktrees, now).0.consistent(),
        service.remove(
            requested,
            delete_branch,
            actor,
            minimum_age,
            worktrees,
            now,
        ).0.consistent(),
        service.remove_start(removal, seen, now).0.consistent(),
        service.remove_recheck(removal, worktrees, now).0.consistent(),
        service.remove_confirm(removal, seen, now).0.consistent(),
{
    refreshing_keeps_consistent(service, worktrees, now);
    recording_keeps_consistent(
        service.inventory,
        removal.event(now, "started"@, removal.details()),
    );
    lemma_noting_keeps_consistent(
        service.inventory,
        removal.event(
            now,
            "failed"@,
            crate::service::remove::remove_failure_json(
                removal.listed.worktree.path,
                "worktree identity changed during removal preflight"@,
            ),
        ),
    );
    lemma_noting_keeps_consistent(
        service.inventory,
        removal.event(
            now,
            "failed"@,
            crate::service::remove::remove_blocked_json(
                removal.listed.worktree.path,
                service.removal_assessment(removal, seen, now).blockers,
            ),
        ),
    );
}

proof fn lemma_settling_branch_keeps_consistent(
    service: ServiceView,
    retry: BranchRetryView,
    existed: bool,
    now: i64,
)
    requires
        service.inventory.consistent(),
    ensures
        service.settle_branch(retry, existed, now).0.consistent(),
{
    recording_keeps_consistent(
        service.inventory,
        worktree_event(
            retry.repository_id,
            Some(retry.worktree_id),
            now,
            retry.actor,
            "delete_branch"@,
            if existed {
                "succeeded"@
            } else {
                "idempotent-replay"@
            },
            crate::service::remove::branch_details_json(retry.branch),
        ),
    );
}

/// Removing a worktree and deleting its branch keeps the inventory consistent,
/// however Git fares.
pub proof fn carrying_out_removal_keeps_consistent(
    service: ServiceView,
    removal: RemovalView,
    deletion: BranchDeletionView,
    retry: BranchRetryView,
    attempt: Result<CommandOutputView, GitErrorView>,
    now: i64,
)
    requires
        service.inventory.consistent(),
    ensures
        service.remove_after_git(removal, attempt, now).0.consistent(),
        service.remove_finish(removal, deletion, attempt, now).0.consistent(),
        service.retry_branch(retry, attempt, now).0.consistent(),
        service.retry_finish(retry, attempt, now).0.consistent(),
{
    let path = removal.listed.worktree.path;
    if let Some(failure) = crate::service::commands::attempt_failure(
        remove_command(path),
        attempt,
    ) {
        lemma_noting_keeps_consistent(
            service.inventory,
            removal.event(
                now,
                "failed"@,
                crate::service::remove::remove_failure_json(path, failure.text()),
            ),
        );
    }
    removing_keeps_consistent(service.inventory, removal.repository_id, path, now);
    if let Ok(marked) = service.inventory.mark_removed(removal.repository_id, path, now) {
        releasing_reservations_keeps_consistent(marked, removal.record.id, now);
        recording_keeps_consistent(
            marked.with_reservations_released(removal.record.id, now),
            removal.event(now, "succeeded"@, removal.details()),
        );
    }
    if let Some(failure) = crate::service::commands::attempt_failure(deletion.args, attempt) {
        lemma_noting_keeps_consistent(
            service.inventory,
            worktree_event(
                removal.repository_id,
                Some(removal.record.id),
                now,
                removal.actor,
                "delete_branch"@,
                "failed"@,
                crate::service::remove::branch_failure_json(deletion.branch, failure.text()),
            ),
        );
    }
    lemma_noting_keeps_consistent(
        service.inventory,
        worktree_event(
            removal.repository_id,
            Some(removal.record.id),
            now,
            removal.actor,
            "delete_branch"@,
            "succeeded"@,
            crate::service::remove::branch_details_json(deletion.branch),
        ),
    );
    lemma_settling_branch_keeps_consistent(service, retry, false, now);
    lemma_settling_branch_keeps_consistent(service, retry, true, now);
}

/// Sessions that come, are seen, and go keep the inventory consistent.
pub proof fn sessions_keep_consistent(
    service: ServiceView,
    request: RegisterSessionRequestView,
    requested: PlaceView,
    worktrees: Seq<ListedWorktreeView>,
    session_id: Seq<char>,
    ttl: Option<i64>,
    actor: Seq<char>,
    now: i64,
)
    requires
        service.inventory.consistent(),
    ensures
        service.register_session(request, requested, worktrees, now).0.consistent(),
        service.heartbeat_session(session_id, ttl, actor, now).0.consistent(),
        service.release_session(session_id, actor, now).0.consistent(),
{
    refreshing_keeps_consistent(service, worktrees, now);
    let (current, outcome) = service.refresh(worktrees, now);
    if let Ok((repository, records)) = outcome {
        if let Some(listed) = worktree_there(worktrees, requested.resolved_path) {
            if let Some(record) = record_at(records, listed.worktree.path) {
                lemma_enrolling_keeps_consistent(
                    current,
                    request,
                    requested.path,
                    repository.id,
                    record.id,
                    now,
                );
            }
        }
    }
    registering_repository_keeps_consistent(
        service.inventory,
        service.inventory_repository(),
        now,
    );
    if let Ok((known, repository)) = service.inventory.register_repository(
        service.inventory_repository(),
        now,
    ) {
        heartbeat_keeps_consistent(known, session_id, ttl, now);
        ending_session_keeps_consistent(known, session_id, now);
        if let Some(session) = service.inventory.session(session_id) {
            if let Ok((after, _, lease)) = known.heartbeat(session_id, ttl, now) {
                recording_keeps_consistent(
                    after,
                    crate::service::sessions::done_event(
                        repository.id,
                        session.worktree_id,
                        now,
                        actor,
                        "heartbeat_session"@,
                        "succeeded"@,
                    ).with_details(
                        crate::json::writer::json_text(
                            crate::service::sessions::heartbeat_details_json(session_id, lease),
                        ),
                    ),
                );
            }
            if let Ok((after, _)) = known.release_session(session_id, now) {
                recording_keeps_consistent(
                    after,
                    crate::service::sessions::done_event(
                        repository.id,
                        session.worktree_id,
                        now,
                        actor,
                        "release_session"@,
                        "succeeded"@,
                    ).with_details(
                        crate::json::writer::json_text(
                            crate::service::sessions::ended_details_json(session_id),
                        ),
                    ),
                );
            }
        }
    }
}

proof fn lemma_enrolling_keeps_consistent(
    inventory: InventoryView,
    request: RegisterSessionRequestView,
    path: Seq<char>,
    repository_id: i64,
    worktree_id: i64,
    now: i64,
)
    requires
        inventory.consistent(),
    ensures
        crate::service::sessions::enroll_session(
            inventory,
            request,
            path,
            repository_id,
            worktree_id,
            now,
        ).0.consistent(),
{
    let input = SessionInputView {
        id: request.session_id,
        worktree_id,
        provider: request.provider,
        provider_session_id: request.provider_session_id,
        pid: request.pid,
        process_started_at: request.process_started_at,
        terminal_metadata: request.terminal_metadata,
        now,
    };
    registering_with_lease_keeps_consistent(inventory, input, request.lease_ttl_seconds);
    if let Ok((registered, _, lease)) = inventory.register_with_lease(
        input,
        request.lease_ttl_seconds,
    ) {
        recording_keeps_consistent(
            registered,
            crate::service::sessions::done_event(
                repository_id,
                worktree_id,
                now,
                request.actor,
                "register_session"@,
                if inventory.session(request.session_id) is Some {
                    "idempotent-replay"@
                } else {
                    "succeeded"@
                },
            ).with_details(
                crate::json::writer::json_text(
                    crate::service::sessions::session_details_json(request, path, lease),
                ),
            ),
        );
    }
}

/// Acquiring and releasing leases keeps the inventory consistent.
pub proof fn leases_keep_consistent(
    service: ServiceView,
    requested: PlaceView,
    worktrees: Seq<ListedWorktreeView>,
    session_id: Seq<char>,
    ttl: i64,
    actor: Seq<char>,
    now: i64,
)
    requires
        service.inventory.consistent(),
    ensures
        service.acquire_lease(requested, worktrees, session_id, ttl, actor, now).0.consistent(),
        service.release_lease(session_id, actor, now).0.consistent(),
{
    refreshing_keeps_consistent(service, worktrees, now);
    let (current, outcome) = service.refresh(worktrees, now);
    if let Ok((repository, records)) = outcome {
        if let Some(listed) = worktree_there(worktrees, requested.resolved_path) {
            if let Some(record) = record_at(records, listed.worktree.path) {
                acquiring_keeps_consistent(current, record.id, session_id, ttl, now);
                if let Ok((leased, lease)) = current.acquire_lease(
                    record.id,
                    session_id,
                    ttl,
                    now,
                ) {
                    recording_keeps_consistent(
                        leased,
                        crate::service::sessions::done_event(
                            repository.id,
                            record.id,
                            now,
                            actor,
                            "acquire_lease"@,
                            "succeeded"@,
                        ).with_details(
                            crate::json::writer::json_text(
                                crate::service::sessions::lease_details_json(
                                    session_id,
                                    lease.id,
                                    ttl,
                                ),
                            ),
                        ),
                    );
                }
            }
        }
    }
    registering_repository_keeps_consistent(
        service.inventory,
        service.inventory_repository(),
        now,
    );
    if let Ok((known, repository)) = service.inventory.register_repository(
        service.inventory_repository(),
        now,
    ) {
        releasing_leases_keeps_consistent(known, session_id, now);
        if let Some(session) = service.inventory.session(session_id) {
            if let Ok((released, _)) = known.release_lease(session_id, now) {
                let count = crate::service::sessions::active_count(
                    service.inventory.session_leases(session_id),
                );
                recording_keeps_consistent(
                    released,
                    crate::service::sessions::done_event(
                        repository.id,
                        session.worktree_id,
                        now,
                        actor,
                        "release_lease"@,
                        "succeeded"@,
                    ).with_details(
                        crate::json::writer::json_text(
                            crate::service::sessions::release_details_json(
                                session_id,
                                count as int,
                            ),
                        ),
                    ),
                );
            }
        }
    }
}

// ---------------------------------------------------------------------------
// Creating worktrees
// ---------------------------------------------------------------------------

impl InventoryView {
    /// Whether the path and the branch of a worktree to create are set aside for it.
    pub open spec fn sets_aside(self, pending: PendingCreateView) -> bool {
        exists|i: int|
            0 <= i < self.reservations.len() && {
                let row = #[trigger] self.reservations[i];
                &&& row.id == pending.reservation_id
                &&& row.repository_id == pending.repository_id
                &&& row.path == pending.target.path
                &&& row.branch == pending.branch
                &&& row.state == "pending"@
            }
    }
}

proof fn lemma_reservation_is_there(
    inventory: InventoryView,
    repository_id: i64,
    path: Seq<char>,
    branch: Seq<char>,
    key: Option<Seq<char>>,
    now: i64,
)
    ensures
        inventory.reserve_creation(repository_id, path, branch, key, now) matches Ok((after, row))
            ==> row.repository_id == repository_id && row.path == path && row.branch == branch && (
        exists|i: int| 0 <= i < after.reservations.len() && after.reservations[i] == row),
{
    if let Ok((after, row)) = inventory.reserve_creation(repository_id, path, branch, key, now) {
        if let Some(wanted) = key {
            if inventory.reservation_for_key(repository_id, wanted) is Some {
                lemma_first_match(
                    inventory.reservations,
                    |one: ReservationRecordView|
                        one.repository_id == repository_id && one.idempotency_key == Some(wanted),
                );
            } else {
                assert(after.reservations.last() == row);
            }
        } else {
            assert(after.reservations.last() == row);
        }
    }
}

/// Git is run to create a worktree only at a path where nothing stands and for a
/// branch that no worktree has checked out, with that path and branch set aside
/// for it, and after the attempt was recorded with its actor.
pub proof fn creation_never_collides(
    service: ServiceView,
    request: CreateRequestView,
    target: PlaceView,
    worktrees: Seq<ListedWorktreeView>,
    target_exists: bool,
    now: i64,
)
    ensures
        match service.create(request, target, worktrees, target_exists, now) {
            (after, Ok(CreateStepView::RunGit(pending))) => {
                &&& !target_exists
                &&& worktree_there(worktrees, target.resolved_path) is None
                &&& worktree_on(worktrees, request.branch) is None
                &&& pending.target == target
                &&& pending.branch == request.branch
                &&& pending.args == crate::service::commands::add_command(
                    request.branch,
                    target.path,
                    request.base,
                )
                &&& after.events.len() > 0
                &&& after.events.last().actor == request.actor
                &&& after.events.last().action == "create_worktree"@
                &&& after.events.last().result == "started"@
                &&& after.sets_aside(pending)
            },
            _ => true,
        },
{
    if let (current, Ok((repository, _))) = service.refresh(worktrees, now) {
        if let Ok((reserved, reservation)) = current.reserve_creation(
            repository.id,
            target.path,
            request.branch,
            request.idempotency_key,
            now,
        ) {
            lemma_reservation_is_there(
                current,
                repository.id,
                target.path,
                request.branch,
                request.idempotency_key,
                now,
            );
            let i = choose|i: int|
                0 <= i < reserved.reservations.len() && reserved.reservations[i] == reservation;
            assert(reserved.reservations[i] == reservation);
        }
    }
}

/// A request whose idempotency key was fulfilled before never creates another
/// worktree.
pub proof fn fulfilled_key_never_creates_again(
    service: ServiceView,
    request: CreateRequestView,
    target: PlaceView,
    worktrees: Seq<ListedWorktreeView>,
    target_exists: bool,
    now: i64,
)
    requires
        request.idempotency_key is Some,
        service.refresh(worktrees, now) matches (current, Ok((repository, _)))
            && current.reservation_for_key(repository.id, request.idempotency_key->0) matches Some(
            reservation,
        ) && reservation.state == "succeeded"@,
    ensures
        match service.create(request, target, worktrees, target_exists, now).1 {
            Ok(CreateStepView::Done(result)) => result.already_existed && worktree_there(
                worktrees,
                target.resolved_path,
            ) == Some(
                (ListedWorktreeView {
                    worktree: result.worktree,
                    ..worktree_there(worktrees, target.resolved_path)->0
                }),
            ),
            Ok(CreateStepView::RunGit(_)) => false,
            Err(_) => true,
        },
{
}

// ---------------------------------------------------------------------------
// Removing worktrees
// ---------------------------------------------------------------------------

/// Whether nothing speaks against removing a worktree: it is not the repository
/// itself, is there, is not locked, in use or leased, is old enough, and was seen
/// clean, with no commits of its own, and merged.
pub open spec fn removable(
    service: ServiceView,
    removal: RemovalView,
    seen: ObservationView,
    now: i64,
) -> bool {
    let all = service.circumstances(seen, Some(removal.record), now, removal.minimum_age);
    &&& !all.is_primary()
    &&& !seen.listed.is_missing()
    &&& !seen.listed.worktree.locked
    &&& seen.processes == Ok::<
        Seq<crate::process::ProcessInfoView>,
        crate::process::ProcessErrorView,
    >(seq![])
    &&& service.inventory.live_worktree_lease(removal.record.id, now) is None
    &&& !all.too_young()
    &&& seen.status.observation_error is None
    &&& !seen.status.data.changes.is_dirty()
    &&& seen.status.data.merge.unique_commits == Some(0u32)
    &&& seen.status.data.merge.merged_locally == Some(true)
    &&& seen.status.data.merge.remote_integration_branch is Some
        ==> seen.status.data.merge.merged_remotely == Some(true)
}

proof fn lemma_eligible_is_removable(
    service: ServiceView,
    removal: RemovalView,
    seen: ObservationView,
    now: i64,
)
    requires
        service.removal_assessment(removal, seen, now).classification == "eligible"@,
    ensures
        removable(service, removal, seen, now),
{
    let all = service.circumstances(seen, Some(removal.record), now, removal.minimum_age);
    eligible_worktree_is_safe(all);
    assert(seen.processes->Ok_0 =~= seq![]);
}

/// A removal starts only on a worktree that is removable, and Git is told to
/// remove it only if it is still removable when it is inspected again. A removal
/// that does not start changes nothing.
pub proof fn only_removable_worktrees_are_removed(
    service: ServiceView,
    removal: RemovalView,
    seen: ObservationView,
    now: i64,
)
    ensures
        service.remove_start(removal, seen, now).1 is Ok ==> removable(
            service,
            removal,
            seen,
            now,
        ),
        service.remove_start(removal, seen, now).1 is Err ==> service.remove_start(
            removal,
            seen,
            now,
        ).0 == service.inventory,
        service.remove_confirm(removal, seen, now).1 matches Ok(args) ==> removable(
            service,
            removal,
            seen,
            now,
        ) && args == remove_command(removal.listed.worktree.path),
{
    if service.removal_assessment(removal, seen, now).classification == "eligible"@ {
        lemma_eligible_is_removable(service, removal, seen, now);
    }
}

/// A worktree on which a session holds a lease, or in which a process works, is
/// not removed, whatever else is known of it.
pub proof fn used_worktree_is_not_removed(
    service: ServiceView,
    removal: RemovalView,
    seen: ObservationView,
    now: i64,
)
    requires
        service.inventory.live_worktree_lease(removal.record.id, now) is Some || (
        seen.listed.is_directory && seen.processes is Ok && seen.processes->Ok_0.len() > 0),
    ensures
        service.remove_start(removal, seen, now).1 matches Err(
            ServiceErrorView::UnsafeRemoval { path, blockers },
        ) && path == removal.requested.path,
        service.remove_confirm(removal, seen, now).1 matches Err(
            ServiceErrorView::UnsafeRemoval { path, blockers },
        ) && path == removal.requested.path,
{
    let all = service.circumstances(seen, Some(removal.record), now, removal.minimum_age);
    used_worktree_is_in_use(all);
    reveal_strlit("in-use");
    reveal_strlit("eligible");
    assert("in-use"@.len() == 6);
    assert("eligible"@.len() == 8);
}

/// A branch is deleted only when that was asked for, and only once the worktree
/// is gone and its removal recorded.
pub proof fn branch_is_deleted_only_on_request(
    service: ServiceView,
    removal: RemovalView,
    attempt: Result<CommandOutputView, GitErrorView>,
    requested: PlaceView,
    worktrees: Seq<ListedWorktreeView>,
    now: i64,
)
    ensures
        match service.remove_after_git(removal, attempt, now) {
            (after, Ok(BranchStepView::DeleteBranch(deletion))) => {
                &&& removal.delete_branch
                &&& removal.listed.worktree.branch == Some(deletion.branch)
                &&& deletion.args == crate::service::commands::delete_branch_command(
                    deletion.branch,
                )
                &&& after.events.last().action == "remove_worktree"@
                &&& after.events.last().result == "succeeded"@
            },
            (after, Ok(BranchStepView::Done(result))) => {
                &&& !result.branch_deleted
                &&& result == removal.result(false)
                &&& after.events.last().action == "remove_worktree"@
                &&& after.events.last().result == "succeeded"@
            },
            (_, Err(_)) => true,
        },
        service.repeat_removal(requested, false, removal.actor, worktrees, now).1 matches Ok(step)
            ==> step matches RemoveStepView::Done(result) && !result.branch_deleted,
{
}

/// A removal that was interrupted after Git had removed the worktree succeeds
/// when it is asked for again.
pub proof fn interrupted_removal_is_completed(
    service: ServiceView,
    requested: PlaceView,
    delete_branch: bool,
    actor: Seq<char>,
    minimum_age: i64,
    worktrees: Seq<ListedWorktreeView>,
    now: i64,
)
    requires
        minimum_age >= 0,
        worktree_there(worktrees, requested.resolved_path) is None,
        service.refresh(worktrees, now) matches (_, Ok((_, records)))
            && crate::service::remove::removed_record(records, requested.path) is Some,
    ensures
        match service.remove(requested, delete_branch, actor, minimum_age, worktrees, now).1 {
            Ok(RemoveStepView::Done(result)) => result.path == requested.path && (delete_branch
                ==> result.branch is None),
            Ok(RemoveStepView::CheckBranch(retry)) => delete_branch && retry.path
                == requested.path,
            Ok(RemoveStepView::Inspect(_)) => false,
            Err(_) => false,
        },
{
}

// ---------------------------------------------------------------------------
// Every change is recorded
// ---------------------------------------------------------------------------

/// Whether the last event of an inventory says that an actor did something.
pub open spec fn records_last(
    inventory: InventoryView,
    actor: Seq<char>,
    action: Seq<char>,
    result: Seq<char>,
) -> bool {
    &&& inventory.events.len() > 0
    &&& inventory.events.last().actor == actor
    &&& inventory.events.last().action == action
    &&& inventory.events.last().result == result
}

/// Every change to the worktrees that succeeds is recorded with its actor, and
/// Git is not run to make it before the attempt was recorded.
pub proof fn worktree_changes_are_recorded(
    service: ServiceView,
    pending_create: PendingCreateView,
    worktrees: Seq<ListedWorktreeView>,
    requested: PlaceView,
    reason: Option<Seq<char>>,
    lock: bool,
    actor: Seq<char>,
    pending_lock: PendingLockView,
    removal: RemovalView,
    seen: ObservationView,
    attempt: Result<CommandOutputView, GitErrorView>,
    now: i64,
)
    ensures
        service.create_finish(pending_create, worktrees, now) matches (after, Ok(_))
            ==> records_last(after, pending_create.actor, "create_worktree"@, "succeeded"@),
        service.set_lock(requested, reason, lock, actor, worktrees, now) matches (
            after,
            Ok(LockStepView::RunGit(pending)),
        ) ==> records_last(after, actor, crate::service::lock::lock_action(lock), "started"@),
        service.lock_finish(pending_lock, worktrees, now) matches (after, Ok(_)) ==> records_last(
            after,
            pending_lock.actor,
            crate::service::lock::lock_action(pending_lock.lock),
            "succeeded"@,
        ),
        service.remove_start(removal, seen, now) matches (after, Ok(_)) ==> records_last(
            after,
            removal.actor,
            "remove_worktree"@,
            "started"@,
        ),
        service.remove_after_git(removal, attempt, now) matches (after, Ok(_)) ==> records_last(
            after,
            removal.actor,
            "remove_worktree"@,
            "succeeded"@,
        ),
{
}

/// Every change to the sessions and leases that succeeds is recorded with its
/// actor.
pub proof fn session_changes_are_recorded(
    service: ServiceView,
    request: RegisterSessionRequestView,
    requested: PlaceView,
    worktrees: Seq<ListedWorktreeView>,
    session_id: Seq<char>,
    ttl: Option<i64>,
    lease_ttl: i64,
    actor: Seq<char>,
    now: i64,
)
    ensures
        service.register_session(request, requested, worktrees, now) matches (after, Ok(result))
            ==> records_last(
            after,
            request.actor,
            "register_session"@,
            if result.already_registered {
                "idempotent-replay"@
            } else {
                "succeeded"@
            },
        ),
        service.heartbeat_session(session_id, ttl, actor, now) matches (after, Ok(_))
            ==> records_last(after, actor, "heartbeat_session"@, "succeeded"@),
        service.acquire_lease(requested, worktrees, session_id, lease_ttl, actor, now) matches (
            after,
            Ok(_),
        ) ==> records_last(after, actor, "acquire_lease"@, "succeeded"@),
        service.release_lease(session_id, actor, now) matches (after, Ok(_)) ==> records_last(
            after,
            actor,
            "release_lease"@,
            "succeeded"@,
        ),
        service.release_session(session_id, actor, now) matches (after, Ok(Some(_)))
            ==> records_last(after, actor, "release_session"@, "succeeded"@),
{
}

} // verus!

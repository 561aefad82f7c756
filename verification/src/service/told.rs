//! What the events of the service tell of the operations.

use crate::git::error::GitErrorView;
use crate::git::reads::CommandOutputView;
use crate::inventory::records::LeaseRecordView;
use crate::inventory::worktrees::ListedWorktreeView;
use crate::json::fields::has_fields;
use crate::json::fields::tells;
use crate::json::value::Json;
use crate::json::writer::json_text;
use crate::service::cleanup::ObservationView;
use crate::service::create::create_details_json;
use crate::service::create::CreateStepView;
use crate::service::create::PendingCreateView;
use crate::service::create::worktree_event;
use crate::service::lock::lock_details_json;
use crate::service::lock::LockStepView;
use crate::service::lock::PendingLockView;
use crate::service::remove::BranchDeletionView;
use crate::service::remove::RemovalView;
use crate::service::remove::remove_details_json;
use crate::service::sessions::active_count;
use crate::service::sessions::ended_details_json;
use crate::service::sessions::heartbeat_details_json;
use crate::service::sessions::lease_details_json;
use crate::service::sessions::release_details_json;
use crate::service::sessions::session_details_json;
use crate::service::state::ServiceView;
use crate::service::state::with_event_if_possible;
use crate::service::types::CreateRequestView;
use crate::service::types::PlaceView;
use crate::service::types::RegisterSessionRequestView;
use vstd::prelude::*;

verus! {

/// The event of a creation that is begun tells where and for which branch.
pub proof fn begun_creation_is_told(
    service: ServiceView,
    request: CreateRequestView,
    target: PlaceView,
    worktrees: Seq<ListedWorktreeView>,
    target_exists: bool,
    now: i64,
)
    ensures
        service.create(
            request,
            target,
            worktrees,
            target_exists,
            now,
        ) matches (after, Ok(CreateStepView::RunGit(pending))) ==> {
            &&& after.events.len() > 0
            &&& after.events.last().action == "create_worktree"@
            &&& after.events.last().result == "started"@
            &&& after.events.last().actor == request.actor
            &&& after.events.last().occurred_at == now
            &&& after.events.last().worktree_id == None::<i64>
            &&& exists|value: Json|
                after.events.last().details_json == #[trigger] json_text(value) && {
                    &&& has_fields(value, 2)
                    &&& tells(value, "path"@, Json::Str(target.path))
                    &&& tells(value, "branch"@, Json::Str(request.branch))
                }
        },
{
    if let (after, Ok(CreateStepView::RunGit(pending))) = service.create(
        request,
        target,
        worktrees,
        target_exists,
        now,
    ) {
        let value = create_details_json(target.path, request.branch);
        assert(value->Object_0[0] == ("path"@, Json::Str(target.path)));
        assert(value->Object_0[1] == ("branch"@, Json::Str(request.branch)));
        assert(after.events.last().details_json == json_text(value));
    }
}

/// The event of a creation that is finished tells where and for which branch, and names the
/// row of the worktree.
pub proof fn finished_creation_is_told(
    service: ServiceView,
    pending: PendingCreateView,
    worktrees: Seq<ListedWorktreeView>,
    now: i64,
)
    ensures
        service.create_finish(pending, worktrees, now) matches (after, Ok(result)) ==> {
            &&& after.events.len() > 0
            &&& after.events.last().action == "create_worktree"@
            &&& after.events.last().result == "succeeded"@
            &&& after.events.last().actor == pending.actor
            &&& after.events.last().occurred_at == now
            &&& after.events.last().worktree_id == Some(result.record.id)
            &&& exists|value: Json|
                after.events.last().details_json == #[trigger] json_text(value) && {
                    &&& has_fields(value, 2)
                    &&& tells(value, "path"@, Json::Str(pending.target.path))
                    &&& tells(value, "branch"@, Json::Str(pending.branch))
                }
        },
{
    if let (after, Ok(result)) = service.create_finish(pending, worktrees, now) {
        let value = create_details_json(pending.target.path, pending.branch);
        assert(value->Object_0[0] == ("path"@, Json::Str(pending.target.path)));
        assert(value->Object_0[1] == ("branch"@, Json::Str(pending.branch)));
        assert(after.events.last().details_json == json_text(value));
    }
}

/// The event of a lock or its end that is begun tells of the worktree and the reason.
pub proof fn begun_lock_is_told(
    service: ServiceView,
    requested: PlaceView,
    reason: Option<Seq<char>>,
    lock: bool,
    actor: Seq<char>,
    worktrees: Seq<ListedWorktreeView>,
    now: i64,
)
    ensures
        service.set_lock(
            requested,
            reason,
            lock,
            actor,
            worktrees,
            now,
        ) matches (after, Ok(LockStepView::RunGit(pending))) ==> {
            &&& after.events.len() > 0
            &&& after.events.last().action == (
                if lock { "lock_worktree"@ } else { "unlock_worktree"@ }
            )
            &&& after.events.last().result == "started"@
            &&& after.events.last().actor == actor
            &&& after.events.last().occurred_at == now
            &&& after.events.last().worktree_id == pending.worktree_id
            &&& exists|value: Json|
                after.events.last().details_json == #[trigger] json_text(value) && {
                    &&& has_fields(value, 2)
                    &&& tells(value, "path"@, Json::Str(pending.path))
                    &&& tells(
                        value,
                        "reason"@,
                        match reason { Some(text) => Json::Str(text), None => Json::Null },
                    )
                }
        },
{
    if let (after, Ok(LockStepView::RunGit(pending))) = service.set_lock(
        requested,
        reason,
        lock,
        actor,
        worktrees,
        now,
    ) {
        let value = lock_details_json(pending.path, reason);
        assert(value->Object_0[0] == ("path"@, Json::Str(pending.path)));
        assert(
            value->Object_0[1] == (
                "reason"@,
                match reason { Some(text) => Json::Str(text), None => Json::Null },
            )
        );
        assert(after.events.last().details_json == json_text(value));
    }
}

/// The event of a lock or its end that is finished tells of the worktree and the reason.
pub proof fn finished_lock_is_told(
    service: ServiceView,
    pending: PendingLockView,
    worktrees: Seq<ListedWorktreeView>,
    now: i64,
)
    ensures
        service.lock_finish(pending, worktrees, now) matches (after, Ok(result)) ==> {
            &&& after.events.len() > 0
            &&& after.events.last().action == (
                if pending.lock { "lock_worktree"@ } else { "unlock_worktree"@ }
            )
            &&& after.events.last().result == "succeeded"@
            &&& after.events.last().actor == pending.actor
            &&& after.events.last().occurred_at == now
            &&& after.events.last().worktree_id == pending.worktree_id
            &&& exists|value: Json|
                after.events.last().details_json == #[trigger] json_text(value) && {
                    &&& has_fields(value, 2)
                    &&& tells(value, "path"@, Json::Str(pending.path))
                    &&& tells(
                        value,
                        "reason"@,
                        match pending.reason { Some(text) => Json::Str(text), None => Json::Null },
                    )
                }
        },
{
    if let (after, Ok(result)) = service.lock_finish(pending, worktrees, now) {
        let value = lock_details_json(pending.path, pending.reason);
        assert(value->Object_0[0] == ("path"@, Json::Str(pending.path)));
        assert(
            value->Object_0[1] == (
                "reason"@,
                match pending.reason { Some(text) => Json::Str(text), None => Json::Null },
            )
        );
        assert(after.events.last().details_json == json_text(value));
    }
}

/// The event of a removal that is begun tells of the worktree, its branch, and whether that
/// is to be deleted, too.
pub proof fn begun_removal_is_told(
    service: ServiceView,
    removal: RemovalView,
    seen: ObservationView,
    now: i64,
)
    ensures
        service.remove_start(removal, seen, now) matches (after, Ok(done)) ==> {
            &&& after.events.len() > 0
            &&& after.events.last().action == "remove_worktree"@
            &&& after.events.last().result == "started"@
            &&& after.events.last().actor == removal.actor
            &&& after.events.last().occurred_at == now
            &&& after.events.last().worktree_id == Some(removal.record.id)
            &&& exists|value: Json|
                after.events.last().details_json == #[trigger] json_text(value) && {
                    &&& has_fields(value, 3)
                    &&& tells(value, "path"@, Json::Str(removal.listed.worktree.path))
                    &&& tells(
                        value,
                        "branch"@,
                        match removal.listed.worktree.branch {
                            Some(text) => Json::Str(text),
                            None => Json::Null,
                        },
                    )
                    &&& tells(value, "delete_branch_requested"@, Json::Bool(removal.delete_branch))
                }
        },
{
    if let (after, Ok(done)) = service.remove_start(removal, seen, now) {
        let value = remove_details_json(
            removal.listed.worktree.path,
            removal.listed.worktree.branch,
            removal.delete_branch,
        );
        assert(value->Object_0[0] == ("path"@, Json::Str(removal.listed.worktree.path)));
        assert(
            value->Object_0[1] == (
                "branch"@,
                match removal.listed.worktree.branch {
                    Some(text) => Json::Str(text),
                    None => Json::Null,
                },
            )
        );
        assert(
            value->Object_0[2] == ("delete_branch_requested"@, Json::Bool(removal.delete_branch))
        );
        assert(after.events.last().details_json == json_text(value));
    }
}

/// The event of a removal that is finished tells the same.
pub proof fn finished_removal_is_told(
    service: ServiceView,
    removal: RemovalView,
    attempt: Result<CommandOutputView, GitErrorView>,
    now: i64,
)
    ensures
        service.remove_after_git(removal, attempt, now) matches (after, Ok(step)) ==> {
            &&& after.events.len() > 0
            &&& after.events.last().action == "remove_worktree"@
            &&& after.events.last().result == "succeeded"@
            &&& after.events.last().actor == removal.actor
            &&& after.events.last().occurred_at == now
            &&& after.events.last().worktree_id == Some(removal.record.id)
            &&& exists|value: Json|
                after.events.last().details_json == #[trigger] json_text(value) && {
                    &&& has_fields(value, 3)
                    &&& tells(value, "path"@, Json::Str(removal.listed.worktree.path))
                    &&& tells(
                        value,
                        "branch"@,
                        match removal.listed.worktree.branch {
                            Some(text) => Json::Str(text),
                            None => Json::Null,
                        },
                    )
                    &&& tells(value, "delete_branch_requested"@, Json::Bool(removal.delete_branch))
                }
        },
{
    if let (after, Ok(step)) = service.remove_after_git(removal, attempt, now) {
        let value = remove_details_json(
            removal.listed.worktree.path,
            removal.listed.worktree.branch,
            removal.delete_branch,
        );
        assert(value->Object_0[0] == ("path"@, Json::Str(removal.listed.worktree.path)));
        assert(
            value->Object_0[1] == (
                "branch"@,
                match removal.listed.worktree.branch {
                    Some(text) => Json::Str(text),
                    None => Json::Null,
                },
            )
        );
        assert(
            value->Object_0[2] == ("delete_branch_requested"@, Json::Bool(removal.delete_branch))
        );
        assert(after.events.last().details_json == json_text(value));
    }
}

/// The event of a registration tells of the session and of its lease.
pub proof fn registration_is_told(
    service: ServiceView,
    request: RegisterSessionRequestView,
    requested: PlaceView,
    worktrees: Seq<ListedWorktreeView>,
    now: i64,
)
    ensures
        service.register_session(request, requested, worktrees, now) matches (after, Ok(result))
            ==> {
            &&& after.events.len() > 0
            &&& after.events.last().action == "register_session"@
            &&& after.events.last().actor == request.actor
            &&& after.events.last().occurred_at == now
            &&& exists|value: Json|
                after.events.last().details_json == #[trigger] json_text(value) && {
                    &&& has_fields(value, 5)
                    &&& tells(value, "session_id"@, Json::Str(request.session_id))
                    &&& tells(value, "path"@, Json::Str(requested.path))
                    &&& tells(value, "provider"@, Json::Str(request.provider))
                    &&& tells(
                        value,
                        "provider_session_id"@,
                        match request.provider_session_id {
                            Some(text) => Json::Str(text),
                            None => Json::Null,
                        },
                    )
                    &&& tells(
                        value,
                        "lease_id"@,
                        if result.lease is Some && result.lease->0.id >= 0 {
                            Json::Number(result.lease->0.id as int)
                        } else {
                            Json::Null
                        },
                    )
                }
        },
{
    if let (after, Ok(result)) = service.register_session(request, requested, worktrees, now) {
        let value = session_details_json(request, requested.path, result.lease);
        assert(value->Object_0[0] == ("session_id"@, Json::Str(request.session_id)));
        assert(value->Object_0[1] == ("path"@, Json::Str(requested.path)));
        assert(value->Object_0[2] == ("provider"@, Json::Str(request.provider)));
        assert(
            value->Object_0[3] == (
                "provider_session_id"@,
                match request.provider_session_id {
                    Some(text) => Json::Str(text),
                    None => Json::Null,
                },
            )
        );
        assert(
            value->Object_0[4] == (
                "lease_id"@,
                if result.lease is Some && result.lease->0.id >= 0 {
                    Json::Number(result.lease->0.id as int)
                } else {
                    Json::Null
                },
            )
        );
        assert(after.events.last().details_json == json_text(value));
    }
}

/// The event of a heartbeat tells of the session and of its lease.
pub proof fn heartbeat_is_told(
    service: ServiceView,
    session_id: Seq<char>,
    ttl: Option<i64>,
    actor: Seq<char>,
    now: i64,
)
    ensures
        service.heartbeat_session(session_id, ttl, actor, now) matches (after, Ok(result)) ==> {
            &&& after.events.len() > 0
            &&& after.events.last().action == "heartbeat_session"@
            &&& after.events.last().actor == actor
            &&& after.events.last().occurred_at == now
            &&& exists|value: Json|
                after.events.last().details_json == #[trigger] json_text(value) && {
                    &&& has_fields(value, 2)
                    &&& tells(value, "session_id"@, Json::Str(session_id))
                    &&& tells(
                        value,
                        "lease_id"@,
                        if result.lease is Some && result.lease->0.id >= 0 {
                            Json::Number(result.lease->0.id as int)
                        } else {
                            Json::Null
                        },
                    )
                }
        },
{
    if let (after, Ok(result)) = service.heartbeat_session(session_id, ttl, actor, now) {
        let value = heartbeat_details_json(session_id, result.lease);
        assert(value->Object_0[0] == ("session_id"@, Json::Str(session_id)));
        assert(
            value->Object_0[1] == (
                "lease_id"@,
                if result.lease is Some && result.lease->0.id >= 0 {
                    Json::Number(result.lease->0.id as int)
                } else {
                    Json::Null
                },
            )
        );
        assert(after.events.last().details_json == json_text(value));
    }
}

/// The event of a lease tells of the session, the lease and the time that was asked for.
pub proof fn acquired_lease_is_told(
    service: ServiceView,
    requested: PlaceView,
    worktrees: Seq<ListedWorktreeView>,
    session_id: Seq<char>,
    ttl_seconds: i64,
    actor: Seq<char>,
    now: i64,
)
    ensures
        service.acquire_lease(
            requested,
            worktrees,
            session_id,
            ttl_seconds,
            actor,
            now,
        ) matches (after, Ok(result)) ==> {
            &&& after.events.len() > 0
            &&& after.events.last().action == "acquire_lease"@
            &&& after.events.last().actor == actor
            &&& after.events.last().occurred_at == now
            &&& exists|value: Json|
                after.events.last().details_json == #[trigger] json_text(value) && {
                    &&& has_fields(value, 3)
                    &&& tells(value, "session_id"@, Json::Str(session_id))
                    &&& tells(
                        value,
                        "lease_id"@,
                        Json::Number(
                            if result.lease.id < 0 {
                                result.lease.id + 0x1_0000_0000_0000_0000
                            } else {
                                result.lease.id as int
                            }
                        ),
                    )
                    &&& tells(
                        value,
                        "ttl_seconds"@,
                        Json::Number(
                            if ttl_seconds < 0 {
                                ttl_seconds + 0x1_0000_0000_0000_0000
                            } else {
                                ttl_seconds as int
                            }
                        ),
                    )
                }
        },
{
    if let (after, Ok(result)) = service.acquire_lease(
        requested,
        worktrees,
        session_id,
        ttl_seconds,
        actor,
        now,
    ) {
        let value = lease_details_json(session_id, result.lease.id, ttl_seconds);
        assert(value->Object_0[0] == ("session_id"@, Json::Str(session_id)));
        assert(
            value->Object_0[1] == (
                "lease_id"@,
                Json::Number(
                    if result.lease.id < 0 {
                        result.lease.id + 0x1_0000_0000_0000_0000
                    } else {
                        result.lease.id as int
                    }
                ),
            )
        );
        assert(
            value->Object_0[2] == (
                "ttl_seconds"@,
                Json::Number(
                    if ttl_seconds < 0 {
                        ttl_seconds + 0x1_0000_0000_0000_0000
                    } else {
                        ttl_seconds as int
                    }
                ),
            )
        );
        assert(after.events.last().details_json == json_text(value));
    }
}

/// The event of a branch that was deleted, or could not be, says which.
pub proof fn deleted_branch_is_told(
    service: ServiceView,
    removal: RemovalView,
    deletion: BranchDeletionView,
    attempt: Result<CommandOutputView, GitErrorView>,
    now: i64,
)
    ensures
        ({
            let input = worktree_event(
                removal.repository_id,
                Some(removal.record.id),
                now,
                removal.actor,
                "delete_branch"@,
                "succeeded"@,
                Json::Object(seq![("branch"@, Json::Str(deletion.branch))]),
            );
            service.remove_finish(removal, deletion, attempt, now) matches (after, Ok(result))
                ==> after == with_event_if_possible(service.inventory, input)
        }),
{
}

/// An event holds what it is told, and its details are the text of what is told.
pub proof fn event_holds_what_it_is_told(
    repository_id: i64,
    worktree_id: Option<i64>,
    now: i64,
    actor: Seq<char>,
    action: Seq<char>,
    result: Seq<char>,
    details: Json,
)
    ensures
        ({
            let event = worktree_event(
                repository_id,
                worktree_id,
                now,
                actor,
                action,
                result,
                details,
            );
            &&& event.repository_id == repository_id
            &&& event.worktree_id == worktree_id
            &&& event.occurred_at == now
            &&& event.actor == actor
            &&& event.action == action
            &&& event.result == result
            &&& event.details_json == json_text(details)
        }),
{
}

proof fn lemma_active_count(leases: Seq<LeaseRecordView>)
    ensures
        active_count(leases) == leases.filter(|row: LeaseRecordView| row.state == "active"@).len(),
    decreases leases.len(),
{
    let active = |row: LeaseRecordView| row.state == "active"@;
    reveal(Seq::filter);
    if leases.len() > 0 {
        lemma_active_count(leases.drop_last());
    }
}

/// The event of leases that were given up names the session and tells how many of its
/// leases were active.
pub proof fn released_leases_are_told(
    service: ServiceView,
    session_id: Seq<char>,
    actor: Seq<char>,
    now: i64,
)
    ensures
        service.release_lease(session_id, actor, now) matches (after, Ok(rows)) ==> {
            let event = after.events.last();
            let own = service.inventory.leases.filter(
                |row: LeaseRecordView| row.session_id == session_id,
            );
            let count = own.filter(|row: LeaseRecordView| row.state == "active"@).len();
            &&& after.events.len() > 0
            &&& event.action == "release_lease"@
            &&& event.result == "succeeded"@
            &&& event.actor == actor
            &&& event.occurred_at == now
            &&& exists|value: Json| event.details_json == #[trigger] json_text(value) && {
                &&& has_fields(value, 2)
                &&& tells(value, "session_id"@, Json::Str(session_id))
                &&& tells(value, "released_count"@, Json::Number(count as int))
            }
        },
{
    if let (after, Ok(rows)) = service.release_lease(session_id, actor, now) {
        let own = service.inventory.session_leases(session_id);
        lemma_active_count(own);
        let value = release_details_json(session_id, active_count(own) as int);
        assert(value->Object_0[0] == ("session_id"@, Json::Str(session_id)));
        assert(value->Object_0[1] == (
            "released_count"@,
            Json::Number(active_count(own) as int),
        ));
        assert(after.events.last().details_json == json_text(value));
    }
}

/// The event of a session that ended names it.
pub proof fn ended_session_is_told(
    service: ServiceView,
    session_id: Seq<char>,
    actor: Seq<char>,
    now: i64,
)
    ensures
        service.release_session(session_id, actor, now) matches (after, Ok(Some(row))) ==> {
            let event = after.events.last();
            &&& after.events.len() > 0
            &&& event.action == "release_session"@
            &&& event.result == "succeeded"@
            &&& event.actor == actor
            &&& event.occurred_at == now
            &&& exists|value: Json| event.details_json == #[trigger] json_text(value) && tells(
                value,
                "session_id"@,
                Json::Str(session_id),
            )
        },
{
    if let (after, Ok(Some(row))) = service.release_session(session_id, actor, now) {
        let value = ended_details_json(session_id);
        assert(value->Object_0[0] == ("session_id"@, Json::Str(session_id)));
        assert(after.events.last().details_json == json_text(value));
    }
}

} // verus!

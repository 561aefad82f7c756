//! What sessions get when they register, are seen, and leave.

use crate::inventory::columns::heartbeat_prolongs_the_lease;
use crate::inventory::columns::lease_is_granted_as_asked;
use crate::inventory::columns::moment_after;
use crate::inventory::columns::registration_leases_on_request;
use crate::inventory::columns::session_is_registered_as_told;
use crate::inventory::records::SessionInputView;
use crate::inventory::records::SessionRecordView;
use crate::inventory::table::lemma_first_match;
use crate::inventory::worktrees::ListedWorktreeView;
use crate::paths::same_steps;
use crate::service::rules::worktree_there;
use crate::service::state::record_at;
use crate::service::state::ServiceView;
use crate::service::steps::lemma_there;
use crate::service::types::PlaceView;
use crate::service::types::RegisterSessionRequestView;
use crate::wording::lemma_all_space;
use vstd::prelude::*;

verus! {

/// A session is registered only in a listed worktree that is there and has files. It is
/// known as it was told, active, and seen now. It has a lease exactly if a time was given
/// for one, and that lease runs out when the time is over, counted from now.
pub proof fn session_gets_what_it_asked_for(
    service: ServiceView,
    request: RegisterSessionRequestView,
    requested: PlaceView,
    worktrees: Seq<ListedWorktreeView>,
    now: i64,
)
    ensures
        service.register_session(request, requested, worktrees, now).1 matches Ok(result) ==> {
            &&& result.session.id == request.session_id
            &&& result.session.provider == request.provider
            &&& result.session.provider_session_id == request.provider_session_id
            &&& result.session.pid == request.pid
            &&& result.session.process_started_at == request.process_started_at
            &&& result.session.terminal_metadata == request.terminal_metadata
            &&& result.session.state == "active"@
            &&& result.session.last_seen_at == now
            &&& result.lease is Some <==> request.lease_ttl_seconds is Some
            &&& request.lease_ttl_seconds matches Some(seconds) ==> {
                &&& seconds > 0
                &&& result.lease->0.session_id == request.session_id
                &&& result.lease->0.worktree_id == result.session.worktree_id
                &&& result.lease->0.state == "active"@
                &&& result.lease->0.expires_at == moment_after(now, seconds)
            }
            &&& exists|i: int|
                0 <= i < worktrees.len() && same_steps(
                    (#[trigger] worktrees[i]).resolved_path,
                    requested.resolved_path,
                ) && !worktrees[i].worktree.bare && !worktrees[i].worktree.prunable
                    && worktrees[i].is_directory
        },
{
    lemma_there(worktrees, requested.resolved_path);
    if let Some(listed) = worktree_there(worktrees, requested.resolved_path) {
        let i = choose|i: int| 0 <= i < worktrees.len() && worktrees[i] == listed;
        assert(same_steps(worktrees[i].resolved_path, requested.resolved_path));
        if let (current, Ok((repository, records))) = service.refresh(worktrees, now) {
            if let Some(record) = record_at(records, listed.worktree.path) {
                let input = SessionInputView {
                    id: request.session_id,
                    worktree_id: record.id,
                    provider: request.provider,
                    provider_session_id: request.provider_session_id,
                    pid: request.pid,
                    process_started_at: request.process_started_at,
                    terminal_metadata: request.terminal_metadata,
                    now,
                };
                session_is_registered_as_told(current, input);
                registration_leases_on_request(current, input, request.lease_ttl_seconds);
            }
        }
    }
}

/// A session that is seen is active and seen now, and where a time is given its lease runs
/// out when that time is over, counted from now. A time that is not positive is refused.
pub proof fn seen_session_keeps_its_lease(
    service: ServiceView,
    session_id: Seq<char>,
    ttl: Option<i64>,
    actor: Seq<char>,
    now: i64,
)
    ensures
        service.heartbeat_session(session_id, ttl, actor, now).1 matches Ok(result) ==> {
            &&& result.session.id == session_id
            &&& result.session.state == "active"@
            &&& result.session.last_seen_at == now
            &&& ttl matches Some(seconds) ==> {
                &&& seconds > 0
                &&& result.lease is Some
                &&& result.lease->0.session_id == session_id
                &&& result.lease->0.state == "active"@
                &&& result.lease->0.expires_at == moment_after(now, seconds)
            }
        },
        ttl is Some && ttl->0 <= 0 ==> service.heartbeat_session(session_id, ttl, actor, now).1
            is Err,
        session_id.len() == 0 ==> service.heartbeat_session(session_id, ttl, actor, now).1 is Err,
{
    if let Ok((current, _)) = service.inventory.register_repository(
        service.inventory_repository(),
        now,
    ) {
        heartbeat_prolongs_the_lease(current, session_id, ttl, now);
    }
    lemma_all_space(session_id);
}

/// A session acquires a lease on the worktree that Git lists at the requested path, for the
/// time that it asked for, counted from now, and only for a positive time.
pub proof fn lease_lasts_as_asked(
    service: ServiceView,
    requested: PlaceView,
    worktrees: Seq<ListedWorktreeView>,
    session_id: Seq<char>,
    ttl_seconds: i64,
    actor: Seq<char>,
    now: i64,
)
    ensures
        service.acquire_lease(requested, worktrees, session_id, ttl_seconds, actor, now).1 matches Ok(
            result,
        ) ==> {
            &&& ttl_seconds > 0
            &&& result.lease.session_id == session_id
            &&& result.lease.state == "active"@
            &&& result.lease.renewed_at == now
            &&& result.lease.expires_at == moment_after(now, ttl_seconds)
            &&& exists|i: int|
                0 <= i < worktrees.len() && same_steps(
                    (#[trigger] worktrees[i]).resolved_path,
                    requested.resolved_path,
                )
        },
        ttl_seconds <= 0 ==> service.acquire_lease(
            requested,
            worktrees,
            session_id,
            ttl_seconds,
            actor,
            now,
        ).1 is Err,
{
    lemma_there(worktrees, requested.resolved_path);
    if let Some(listed) = worktree_there(worktrees, requested.resolved_path) {
        let i = choose|i: int| 0 <= i < worktrees.len() && worktrees[i] == listed;
        assert(same_steps(worktrees[i].resolved_path, requested.resolved_path));
        if let (current, Ok((_, records))) = service.refresh(worktrees, now) {
            if let Some(record) = record_at(records, listed.worktree.path) {
                lease_is_granted_as_asked(current, record.id, session_id, ttl_seconds, now);
            }
        }
    }
}

/// A session that gives up its leases holds none that is active afterwards, and a session
/// that is over is reported as such, from now on.
pub proof fn leaving_session_holds_nothing(
    service: ServiceView,
    session_id: Seq<char>,
    actor: Seq<char>,
    now: i64,
    i: int,
)
    ensures
        service.release_lease(session_id, actor, now) matches (after, Ok(rows)) ==> {
            0 <= i < after.leases.len() && after.leases[i].session_id == session_id
                ==> after.leases[i].state != "active"@
        },
        service.release_session(session_id, actor, now) matches (after, Ok(ended)) ==> {
            &&& 0 <= i < after.leases.len() && after.leases[i].session_id == session_id
                ==> after.leases[i].state != "active"@
            &&& 0 <= i < after.sessions.len() && after.sessions[i].id == session_id
                ==> after.sessions[i].state == "released"@ && after.sessions[i].last_seen_at == now
            &&& ended matches Some(row) ==> row.id == session_id && row.state == "released"@
                && row.last_seen_at == now
        },
{
    reveal_strlit("active");
    reveal_strlit("released");
    assert("active"@.len() == 6);
    assert("released"@.len() == 8);
    if let Ok((current, _)) = service.inventory.register_repository(
        service.inventory_repository(),
        now,
    ) {
        lemma_first_match(current.sessions, |row: SessionRecordView| row.id == session_id);
    }
}

} // verus!

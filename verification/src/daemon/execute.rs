//! Executing the requests that need no change by Git.

use crate::daemon::error::DaemonError;
use crate::daemon::error::DaemonErrorView;
use crate::daemon::replies::cleanup_json;
use crate::daemon::replies::cleanup_result;
use crate::daemon::replies::ended_result;
use crate::daemon::replies::ended_result_json;
use crate::daemon::replies::heartbeat_result;
use crate::daemon::replies::heartbeat_result_json;
use crate::daemon::replies::lease_result;
use crate::daemon::replies::lease_result_json;
use crate::daemon::replies::leases_result;
use crate::daemon::replies::leases_result_json;
use crate::daemon::replies::ping_json;
use crate::daemon::replies::ping_result;
use crate::daemon::replies::refresh_json;
use crate::daemon::replies::refresh_result;
use crate::daemon::replies::session_result;
use crate::daemon::replies::session_result_json;
use crate::inventory::records::LeaseRecordView;
use crate::inventory::records::RepositoryRecordView;
use crate::inventory::records::SessionRecordView;
use crate::inventory::records::WorktreeRecord;
use crate::inventory::records::WorktreeRecordView;
use crate::inventory::state::Inventory;
use crate::inventory::state::InventoryView;
use crate::inventory::worktrees::ListedWorktree;
use crate::inventory::worktrees::ListedWorktreeView;
use crate::json::value::Json;
use crate::json::writer::json_text;
use crate::json::writer::slice_view;
use crate::service::cleanup::Observation;
use crate::service::error::ServiceErrorView;
use crate::service::state::RepositoryService;
use crate::service::state::ServiceView;
use crate::service::types::HeartbeatResultView;
use crate::service::types::LeaseResultView;
use crate::service::types::Place;
use crate::service::types::RegisterSessionRequest;
use crate::service::types::SessionResultView;
use crate::text::views;
use vstd::prelude::*;

verus! {

/// An operation of the service, with its result printed.
pub open spec fn printed<T>(
    done: (InventoryView, Result<T, ServiceErrorView>),
    print: spec_fn(T) -> Json,
) -> (InventoryView, Result<Seq<char>, DaemonErrorView>) {
    match done {
        (inventory, Ok(result)) => (inventory, Ok(json_text(print(result)))),
        (inventory, Err(error)) => (inventory, Err(DaemonErrorView::Service(error))),
    }
}

/// Whether a service came from another by an operation with that outcome.
pub open spec fn performed(
    before: ServiceView,
    after: ServiceView,
    result: Result<String, DaemonError>,
    expected: (InventoryView, Result<Seq<char>, DaemonErrorView>),
) -> bool {
    &&& after == before.with_inventory(expected.0)
    &&& match (result, expected.1) {
        (Ok(text), Ok(printed_result)) => text@ == printed_result,
        (Err(error), Err(failure)) => error@ == failure,
        _ => false,
    }
}

/// Reconciles the inventory with what Git lists.
pub open spec fn refresh_outcome(
    service: ServiceView,
    worktrees: Seq<ListedWorktreeView>,
    now: i64,
) -> (InventoryView, Result<(RepositoryRecordView, Seq<WorktreeRecordView>), ServiceErrorView>) {
    match service.refresh(worktrees, now) {
        (inventory, Ok(both)) => (inventory, Ok(both)),
        (inventory, Err(error)) => (inventory, Err(ServiceErrorView::Inventory(error))),
    }
}

/// Reconciles the inventory with what Git lists.
pub fn execute_refresh(
    service: &mut RepositoryService,
    worktrees: &Vec<ListedWorktree>,
    now: i64,
) -> (result: Result<String, DaemonError>)
    ensures
        performed(
            old(service)@,
            final(service)@,
            result,
            printed(
                refresh_outcome(old(service)@, views(worktrees@), now),
                |both: (
                    RepositoryRecordView,
                    Seq<WorktreeRecordView>,
                )| refresh_json(both.0.id, both.1),
            ),
        ),
{
    match service.refresh(worktrees, now) {
        Ok((repository, records)) => Ok(refresh_result(repository.id, &records)),
        Err(error) => Err(DaemonError::Service(error)),
    }
}

/// Registers a session.
pub fn execute_register_session(
    service: &mut RepositoryService,
    request: &RegisterSessionRequest,
    requested: &Place,
    worktrees: &Vec<ListedWorktree>,
    now: i64,
) -> (result: Result<String, DaemonError>)
    ensures
        performed(
            old(service)@,
            final(service)@,
            result,
            printed(
                old(service)@.register_session(request@, requested@, views(worktrees@), now),
                |done: SessionResultView| session_result_json(done),
            ),
        ),
{
    match service.register_session(request, requested, worktrees, now) {
        Ok(done) => Ok(session_result(&done)),
        Err(error) => Err(DaemonError::Service(error)),
    }
}

/// Notes that a session was seen.
pub fn execute_heartbeat_session(
    service: &mut RepositoryService,
    session_id: &str,
    lease_ttl_seconds: Option<i64>,
    actor: &str,
    now: i64,
) -> (result: Result<String, DaemonError>)
    ensures
        performed(
            old(service)@,
            final(service)@,
            result,
            printed(
                old(service)@.heartbeat_session(session_id@, lease_ttl_seconds, actor@, now),
                |done: HeartbeatResultView| heartbeat_result_json(done),
            ),
        ),
{
    match service.heartbeat_session(session_id, lease_ttl_seconds, actor, now) {
        Ok(done) => Ok(heartbeat_result(&done)),
        Err(error) => Err(DaemonError::Service(error)),
    }
}

/// Acquires a lease.
pub fn execute_acquire_lease(
    service: &mut RepositoryService,
    requested: &Place,
    worktrees: &Vec<ListedWorktree>,
    session_id: &str,
    lease_ttl_seconds: i64,
    actor: &str,
    now: i64,
) -> (result: Result<String, DaemonError>)
    ensures
        performed(
            old(service)@,
            final(service)@,
            result,
            printed(
                old(service)@.acquire_lease(
                    requested@,
                    views(worktrees@),
                    session_id@,
                    lease_ttl_seconds,
                    actor@,
                    now,
                ),
                |done: LeaseResultView| lease_result_json(done),
            ),
        ),
{
    match service.acquire_lease(
        requested,
        worktrees,
        session_id,
        lease_ttl_seconds,
        actor,
        now,
    ) {
        Ok(done) => Ok(lease_result(&done)),
        Err(error) => Err(DaemonError::Service(error)),
    }
}

/// Releases the leases of a session.
pub fn execute_release_lease(
    service: &mut RepositoryService,
    session_id: &str,
    actor: &str,
    now: i64,
) -> (result: Result<String, DaemonError>)
    ensures
        performed(
            old(service)@,
            final(service)@,
            result,
            printed(
                old(service)@.release_lease(session_id@, actor@, now),
                |leases: Seq<LeaseRecordView>| leases_result_json(leases),
            ),
        ),
{
    match service.release_lease(session_id, actor, now) {
        Ok(done) => Ok(leases_result(&done)),
        Err(error) => Err(DaemonError::Service(error)),
    }
}

/// Ends a session.
pub fn execute_release_session(
    service: &mut RepositoryService,
    session_id: &str,
    actor: &str,
    now: i64,
) -> (result: Result<String, DaemonError>)
    ensures
        performed(
            old(service)@,
            final(service)@,
            result,
            printed(
                old(service)@.release_session(session_id@, actor@, now),
                |session: Option<SessionRecordView>| ended_result_json(session),
            ),
        ),
{
    match service.release_session(session_id, actor, now) {
        Ok(done) => Ok(ended_result(&done)),
        Err(error) => Err(DaemonError::Service(error)),
    }
}

/// Prints the assessment of every worktree that was observed for a cleanup.
pub fn execute_cleanup_scan(
    service: &RepositoryService,
    records: &Vec<WorktreeRecord>,
    seen: &Vec<Observation>,
    base: Option<&str>,
    minimum_age: i64,
    now: i64,
) -> (text: String)
    ensures
        text@ == json_text(
            cleanup_json(
                slice_view(base),
                minimum_age,
                service@.cleanup_candidates(views(records@), views(seen@), now, minimum_age),
            ),
        ),
{
    let candidates = service.cleanup_candidates(records, seen, now, minimum_age);
    cleanup_result(base, minimum_age, &candidates)
}

/// Prints the answer to a ping.
pub fn execute_ping(
    service: &RepositoryService,
    pid: u32,
    inventory_path: &str,
    inventory_identity: &str,
) -> (text: String)
    ensures
        text@ == json_text(
            ping_json(
                pid,
                service@.repository.root,
                inventory_path@,
                inventory_identity@,
                service@.minimum_cleanup_age_seconds,
            ),
        ),
{
    ping_result(
        pid,
        &service.repository.root,
        inventory_path,
        inventory_identity,
        service.minimum_cleanup_age_seconds,
    )
}

} // verus!

//! What the daemon makes of the requests that it gets.

use crate::daemon::command::Command;
use crate::daemon::command::CommandView;
use crate::daemon::command::decode;
use crate::daemon::command::is_mutating_method;
use crate::daemon::command::requested_cleanup_age;
use crate::daemon::error::DaemonError;
use crate::json::value::Json;
use crate::json::value::Value;
use vstd::prelude::*;

verus! {

/// The text under a key, where there is one.
pub open spec fn text_under(params: Json, key: Seq<char>) -> Option<Seq<char>> {
    match params.field(key) {
        Some(Json::Str(text)) => Some(text),
        _ => None,
    }
}

/// Whether a key is absent or stands for nothing.
pub open spec fn nothing_under(params: Json, key: Seq<char>) -> bool {
    params.field(key) is None || params.field(key) == Some(Json::Null)
}

proof fn lemma_methods()
    ensures
        "ping"@ != "refresh"@,
        "ping"@ != "create"@,
        "ping"@ != "lock"@,
        "ping"@ != "unlock"@,
        "ping"@ != "cleanup_scan"@,
        "ping"@ != "remove"@,
        "ping"@ != "register_session"@,
        "ping"@ != "heartbeat_session"@,
        "ping"@ != "acquire_lease"@,
        "ping"@ != "release_lease"@,
        "ping"@ != "release_session"@,
        "refresh"@ != "create"@,
        "refresh"@ != "lock"@,
        "refresh"@ != "unlock"@,
        "refresh"@ != "cleanup_scan"@,
        "refresh"@ != "remove"@,
        "refresh"@ != "register_session"@,
        "refresh"@ != "heartbeat_session"@,
        "refresh"@ != "acquire_lease"@,
        "refresh"@ != "release_lease"@,
        "refresh"@ != "release_session"@,
        "create"@ != "lock"@,
        "create"@ != "unlock"@,
        "create"@ != "cleanup_scan"@,
        "create"@ != "remove"@,
        "create"@ != "register_session"@,
        "create"@ != "heartbeat_session"@,
        "create"@ != "acquire_lease"@,
        "create"@ != "release_lease"@,
        "create"@ != "release_session"@,
        "lock"@ != "unlock"@,
        "lock"@ != "cleanup_scan"@,
        "lock"@ != "remove"@,
        "lock"@ != "register_session"@,
        "lock"@ != "heartbeat_session"@,
        "lock"@ != "acquire_lease"@,
        "lock"@ != "release_lease"@,
        "lock"@ != "release_session"@,
        "unlock"@ != "cleanup_scan"@,
        "unlock"@ != "remove"@,
        "unlock"@ != "register_session"@,
        "unlock"@ != "heartbeat_session"@,
        "unlock"@ != "acquire_lease"@,
        "unlock"@ != "release_lease"@,
        "unlock"@ != "release_session"@,
        "cleanup_scan"@ != "remove"@,
        "cleanup_scan"@ != "register_session"@,
        "cleanup_scan"@ != "heartbeat_session"@,
        "cleanup_scan"@ != "acquire_lease"@,
        "cleanup_scan"@ != "release_lease"@,
        "cleanup_scan"@ != "release_session"@,
        "remove"@ != "register_session"@,
        "remove"@ != "heartbeat_session"@,
        "remove"@ != "acquire_lease"@,
        "remove"@ != "release_lease"@,
        "remove"@ != "release_session"@,
        "register_session"@ != "heartbeat_session"@,
        "register_session"@ != "acquire_lease"@,
        "register_session"@ != "release_lease"@,
        "register_session"@ != "release_session"@,
        "heartbeat_session"@ != "acquire_lease"@,
        "heartbeat_session"@ != "release_lease"@,
        "heartbeat_session"@ != "release_session"@,
        "acquire_lease"@ != "release_lease"@,
        "acquire_lease"@ != "release_session"@,
        "release_lease"@ != "release_session"@,
{
    reveal_strlit("ping");
    reveal_strlit("refresh");
    reveal_strlit("create");
    reveal_strlit("lock");
    reveal_strlit("unlock");
    reveal_strlit("cleanup_scan");
    reveal_strlit("remove");
    reveal_strlit("register_session");
    reveal_strlit("heartbeat_session");
    reveal_strlit("acquire_lease");
    reveal_strlit("release_lease");
    reveal_strlit("release_session");
    assert("ping"@.len() == 4);
    assert("refresh"@.len() == 7);
    assert("create"@.len() == 6);
    assert("lock"@.len() == 4);
    assert("unlock"@.len() == 6);
    assert("cleanup_scan"@.len() == 12);
    assert("remove"@.len() == 6);
    assert("register_session"@.len() == 16);
    assert("heartbeat_session"@.len() == 17);
    assert("acquire_lease"@.len() == 13);
    assert("release_lease"@.len() == 13);
    assert("release_session"@.len() == 15);
    assert("ping"@[0] == 'p' && "lock"@[0] == 'l');
    assert("create"@[0] == 'c' && "unlock"@[0] == 'u');
    assert("create"@[0] == 'c' && "remove"@[0] == 'r');
    assert("unlock"@[0] == 'u' && "remove"@[0] == 'r');
    assert("acquire_lease"@[0] == 'a' && "release_lease"@[0] == 'r');
}

/// A request to create a worktree is decoded with the branch, base and path that it names.
/// Its key is the one it names, or else its own identifier; and a branch is required.
pub proof fn creation_is_decoded(
    request_id: &str,
    method: &str,
    params: &Value,
    default_age: i64,
    result: Result<Command, DaemonError>,
)
    requires
        method@ == "create"@,
        call_ensures(decode, (request_id, method, params, default_age), result),
    ensures
        result matches Ok(command) ==> command@ matches CommandView::Create(request) && {
            &&& text_under(params@, "branch"@) == Some(request.branch)
            &&& text_under(params@, "base"@) == request.base
            &&& text_under(params@, "path"@) == request.path
            &&& text_under(params@, "idempotency_key"@) matches Some(key)
                ==> request.idempotency_key
                == Some(key)
            &&& nothing_under(params@, "idempotency_key"@) ==> request.idempotency_key == Some(
                request_id@,
            )
            &&& text_under(params@, "actor"@) matches Some(given) ==> request.actor == given
            &&& nothing_under(params@, "actor"@) ==> request.actor == "ipc"@
        },
        text_under(params@, "branch"@) is None ==> result is Err,
{
    lemma_methods();
}

/// A request to lock a worktree is decoded as such, with its path and its reason.
pub proof fn lock_is_decoded(
    request_id: &str,
    method: &str,
    params: &Value,
    default_age: i64,
    result: Result<Command, DaemonError>,
)
    requires
        method@ == "lock"@,
        call_ensures(decode, (request_id, method, params, default_age), result),
    ensures
        result matches Ok(command)
            ==> command@ matches CommandView::Lock { path, reason, actor } && {
            &&& text_under(params@, "path"@) == Some(path)
            &&& text_under(params@, "reason"@) == reason
            &&& text_under(params@, "actor"@) matches Some(given) ==> actor == given
            &&& nothing_under(params@, "actor"@) ==> actor == "ipc"@
        },
        text_under(params@, "path"@) is None ==> result is Err,
{
    lemma_methods();
}

/// A request to unlock a worktree is decoded as such, with its path.
pub proof fn unlock_is_decoded(
    request_id: &str,
    method: &str,
    params: &Value,
    default_age: i64,
    result: Result<Command, DaemonError>,
)
    requires
        method@ == "unlock"@,
        call_ensures(decode, (request_id, method, params, default_age), result),
    ensures
        result matches Ok(command) ==> command@ matches CommandView::Unlock { path, actor } && {
            &&& text_under(params@, "path"@) == Some(path)
            &&& text_under(params@, "actor"@) matches Some(given) ==> actor == given
            &&& nothing_under(params@, "actor"@) ==> actor == "ipc"@
        },
        text_under(params@, "path"@) is None ==> result is Err,
{
    lemma_methods();
}

/// A scan for cleanup is decoded with its base and its age, or the age of the daemon.
pub proof fn cleanup_is_decoded(
    request_id: &str,
    method: &str,
    params: &Value,
    default_age: i64,
    result: Result<Command, DaemonError>,
)
    requires
        method@ == "cleanup_scan"@,
        call_ensures(decode, (request_id, method, params, default_age), result),
    ensures
        result matches Ok(command)
            ==> command@ matches CommandView::CleanupScan { base, minimum_age } && {
            &&& text_under(params@, "base"@) == base
            &&& params@.field("minimum_age_seconds"@) matches Some(Json::Number(given))
                ==> minimum_age == given as i64
            &&& nothing_under(params@, "minimum_age_seconds"@) ==> minimum_age == default_age
        },
{
    lemma_methods();
}

/// A request to remove a worktree is decoded with its path and its age, or the age of the
/// daemon. The branch is to be deleted only if the request says so.
pub proof fn removal_is_decoded(
    request_id: &str,
    method: &str,
    params: &Value,
    default_age: i64,
    result: Result<Command, DaemonError>,
)
    requires
        method@ == "remove"@,
        call_ensures(decode, (request_id, method, params, default_age), result),
    ensures
        result matches Ok(command)
            ==> command@ matches CommandView::Remove { path, delete_branch, actor, minimum_age }
                && {
            &&& text_under(params@, "path"@) == Some(path)
            &&& delete_branch <==> params@.field("delete_branch"@) == Some(Json::Bool(true))
            &&& text_under(params@, "actor"@) matches Some(given) ==> actor == given
            &&& nothing_under(params@, "actor"@) ==> actor == "ipc"@
            &&& params@.field("minimum_age_seconds"@) matches Some(Json::Number(given))
                ==> minimum_age == given as i64
            &&& nothing_under(params@, "minimum_age_seconds"@) ==> minimum_age == default_age
        },
        text_under(params@, "path"@) is None ==> result is Err,
{
    lemma_methods();
}

/// A registration is decoded with all that it tells of the session. Its name is the one it
/// tells, or else the identifier of the request.
pub proof fn registration_is_decoded(
    request_id: &str,
    method: &str,
    params: &Value,
    default_age: i64,
    result: Result<Command, DaemonError>,
)
    requires
        method@ == "register_session"@,
        call_ensures(decode, (request_id, method, params, default_age), result),
    ensures
        result matches Ok(command) ==> command@ matches CommandView::RegisterSession(request) && {
            &&& text_under(params@, "path"@) == Some(request.worktree)
            &&& text_under(params@, "session_id"@) matches Some(given)
                ==> request.session_id == given
            &&& nothing_under(params@, "session_id"@) ==> request.session_id == request_id@
            &&& text_under(params@, "provider"@) matches Some(given) ==> request.provider == given
            &&& nothing_under(params@, "provider"@) ==> request.provider == "terminal"@
            &&& text_under(params@, "provider_session_id"@) == request.provider_session_id
            &&& text_under(params@, "terminal_metadata"@) == request.terminal_metadata
            &&& params@.field("pid"@) matches Some(Json::Number(given))
                ==> request.pid == Some(given as i64)
            &&& nothing_under(params@, "pid"@) ==> request.pid is None
            &&& params@.field("process_started_at"@) matches Some(Json::Number(given))
                ==> request.process_started_at == Some(given as i64)
            &&& nothing_under(params@, "process_started_at"@) ==> request.process_started_at is None
            &&& params@.field("lease_ttl_seconds"@) matches Some(Json::Number(given))
                ==> request.lease_ttl_seconds == Some(given as i64)
            &&& nothing_under(params@, "lease_ttl_seconds"@) ==> request.lease_ttl_seconds is None
            &&& text_under(params@, "actor"@) matches Some(given) ==> request.actor == given
            &&& nothing_under(params@, "actor"@) ==> request.actor == "ipc"@
        },
        text_under(params@, "path"@) is None ==> result is Err,
{
    lemma_methods();
}

/// A heartbeat is decoded with its session and the time for its lease, where one is given.
pub proof fn heartbeat_is_decoded(
    request_id: &str,
    method: &str,
    params: &Value,
    default_age: i64,
    result: Result<Command, DaemonError>,
)
    requires
        method@ == "heartbeat_session"@,
        call_ensures(decode, (request_id, method, params, default_age), result),
    ensures
        result matches Ok(command)
            ==> command@ matches CommandView::HeartbeatSession {
                session_id,
                lease_ttl_seconds,
                actor,
            } && {
            &&& text_under(params@, "session_id"@) == Some(session_id)
            &&& params@.field("lease_ttl_seconds"@) matches Some(Json::Number(given))
                ==> lease_ttl_seconds == Some(given as i64)
            &&& nothing_under(params@, "lease_ttl_seconds"@) ==> lease_ttl_seconds is None
            &&& text_under(params@, "actor"@) matches Some(given) ==> actor == given
            &&& nothing_under(params@, "actor"@) ==> actor == "ipc"@
        },
        text_under(params@, "session_id"@) is None ==> result is Err,
{
    lemma_methods();
}

/// A request for a lease is decoded with its path, its session and its time, all of which
/// are required.
pub proof fn acquisition_is_decoded(
    request_id: &str,
    method: &str,
    params: &Value,
    default_age: i64,
    result: Result<Command, DaemonError>,
)
    requires
        method@ == "acquire_lease"@,
        call_ensures(decode, (request_id, method, params, default_age), result),
    ensures
        result matches Ok(command)
            ==> command@ matches CommandView::AcquireLease {
                path,
                session_id,
                lease_ttl_seconds,
                actor,
            } && {
            &&& text_under(params@, "path"@) == Some(path)
            &&& text_under(params@, "session_id"@) == Some(session_id)
            &&& params@.field("lease_ttl_seconds"@) matches Some(Json::Number(given))
                && lease_ttl_seconds == given as i64
            &&& text_under(params@, "actor"@) matches Some(given) ==> actor == given
            &&& nothing_under(params@, "actor"@) ==> actor == "ipc"@
        },
        text_under(params@, "path"@) is None ==> result is Err,
        text_under(params@, "session_id"@) is None ==> result is Err,
{
    lemma_methods();
}

/// A request to release leases is decoded as such, with its session.
pub proof fn release_of_leases_is_decoded(
    request_id: &str,
    method: &str,
    params: &Value,
    default_age: i64,
    result: Result<Command, DaemonError>,
)
    requires
        method@ == "release_lease"@,
        call_ensures(decode, (request_id, method, params, default_age), result),
    ensures
        result matches Ok(command)
            ==> command@ matches CommandView::ReleaseLease { session_id, actor } && {
            &&& text_under(params@, "session_id"@) == Some(session_id)
            &&& text_under(params@, "actor"@) matches Some(given) ==> actor == given
            &&& nothing_under(params@, "actor"@) ==> actor == "ipc"@
        },
        text_under(params@, "session_id"@) is None ==> result is Err,
{
    lemma_methods();
}

/// A request to end a session is decoded as such, with its session.
pub proof fn end_of_session_is_decoded(
    request_id: &str,
    method: &str,
    params: &Value,
    default_age: i64,
    result: Result<Command, DaemonError>,
)
    requires
        method@ == "release_session"@,
        call_ensures(decode, (request_id, method, params, default_age), result),
    ensures
        result matches Ok(command)
            ==> command@ matches CommandView::ReleaseSession { session_id, actor } && {
            &&& text_under(params@, "session_id"@) == Some(session_id)
            &&& text_under(params@, "actor"@) matches Some(given) ==> actor == given
            &&& nothing_under(params@, "actor"@) ==> actor == "ipc"@
        },
        text_under(params@, "session_id"@) is None ==> result is Err,
{
    lemma_methods();
}

/// A ping and a refresh are decoded as such, whatever stands beside them; and a method that
/// is none of the twelve is refused.
pub proof fn other_methods_are_refused(
    request_id: &str,
    method: &str,
    params: &Value,
    default_age: i64,
    result: Result<Command, DaemonError>,
)
    requires
        call_ensures(decode, (request_id, method, params, default_age), result),
    ensures
        method@ == "ping"@ ==> result is Ok && result->Ok_0@ == CommandView::Ping,
        method@ == "refresh"@ ==> result is Ok && result->Ok_0@ == CommandView::Refresh,
        method@ != "ping"@
            && method@ != "refresh"@
            && method@ != "create"@
            && method@ != "lock"@
            && method@ != "unlock"@
            && method@ != "cleanup_scan"@
            && method@ != "remove"@
            && method@ != "register_session"@
            && method@ != "heartbeat_session"@
            && method@ != "acquire_lease"@
            && method@ != "release_lease"@
            && method@ != "release_session"@
            ==> result is Err,
{
    lemma_methods();
}

/// Every method that the daemon understands but the ping has to go through the journal, and
/// the ping has not.
pub proof fn all_but_the_ping_are_journalled(method: &str, journalled: bool)
    requires
        call_ensures(is_mutating_method, (method,), journalled),
    ensures
        journalled <==> method@ == "refresh"@
            || method@ == "create"@
            || method@ == "lock"@
            || method@ == "unlock"@
            || method@ == "cleanup_scan"@
            || method@ == "remove"@
            || method@ == "register_session"@
            || method@ == "heartbeat_session"@
            || method@ == "acquire_lease"@
            || method@ == "release_lease"@
            || method@ == "release_session"@,
        method@ == "ping"@ ==> !journalled,
{
    lemma_methods();
}

/// The age that a request asks for is used, and that of the daemon where none is asked for.
pub proof fn asked_age_wins(params: &Value, default: i64, result: Result<i64, DaemonError>)
    requires
        call_ensures(requested_cleanup_age, (params, default), result),
    ensures
        params@.field("minimum_age_seconds"@) matches Some(Json::Number(given)) ==> result is Ok
            && result->Ok_0 == given as i64,
        nothing_under(params@, "minimum_age_seconds"@) ==> result is Ok && result->Ok_0 == default,
{
}

} // verus!

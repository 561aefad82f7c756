//! The requests that the daemon understands.

use crate::daemon::error::DaemonError;
use crate::daemon::error::protocol;
use crate::daemon::error::protocol_error;
use crate::json::value::Json;
use crate::json::value::Value;
use crate::json::value::optional_integer;
use crate::json::value::optional_text;
use crate::json::value::optional_truth;
use crate::json::value::required_text;
use crate::service::types::CreateRequest;
use crate::service::types::CreateRequestView;
use crate::service::types::RegisterSessionRequest;
use crate::service::types::RegisterSessionRequestView;
use crate::text::concat;
use crate::text::debug_string;
use crate::text::debug_text;
use crate::text::option_view;
use crate::text::same_text;
use vstd::prelude::*;

verus! {

/// A request, decoded.
#[derive(Debug, PartialEq, Eq)]
pub enum Command {
    Ping,
    Refresh,
    Create(CreateRequest),
    Lock { path: String, reason: Option<String>, actor: String },
    Unlock { path: String, actor: String },
    CleanupScan { base: Option<String>, minimum_age: i64 },
    Remove { path: String, delete_branch: bool, actor: String, minimum_age: i64 },
    RegisterSession(RegisterSessionRequest),
    HeartbeatSession { session_id: String, lease_ttl_seconds: Option<i64>, actor: String },
    AcquireLease { path: String, session_id: String, lease_ttl_seconds: i64, actor: String },
    ReleaseLease { session_id: String, actor: String },
    ReleaseSession { session_id: String, actor: String },
}

/// The view of a [`Command`].
#[verifier::ext_equal]
pub enum CommandView {
    Ping,
    Refresh,
    Create(CreateRequestView),
    Lock { path: Seq<char>, reason: Option<Seq<char>>, actor: Seq<char> },
    Unlock { path: Seq<char>, actor: Seq<char> },
    CleanupScan { base: Option<Seq<char>>, minimum_age: i64 },
    Remove { path: Seq<char>, delete_branch: bool, actor: Seq<char>, minimum_age: i64 },
    RegisterSession(RegisterSessionRequestView),
    HeartbeatSession { session_id: Seq<char>, lease_ttl_seconds: Option<i64>, actor: Seq<char> },
    AcquireLease {
        path: Seq<char>,
        session_id: Seq<char>,
        lease_ttl_seconds: i64,
        actor: Seq<char>,
    },
    ReleaseLease { session_id: Seq<char>, actor: Seq<char> },
    ReleaseSession { session_id: Seq<char>, actor: Seq<char> },
}

impl View for Command {
    type V = CommandView;

    open spec fn view(&self) -> CommandView {
        match self {
            Command::Ping => CommandView::Ping,
            Command::Refresh => CommandView::Refresh,
            Command::Create(inner) => CommandView::Create(inner@),
            Command::Lock { path, reason, actor } => CommandView::Lock {
                path: path@,
                reason: option_view(*reason),
                actor: actor@,
            },
            Command::Unlock { path, actor } => CommandView::Unlock { path: path@, actor: actor@ },
            Command::CleanupScan { base, minimum_age } => CommandView::CleanupScan {
                base: option_view(*base),
                minimum_age: *minimum_age,
            },
            Command::Remove { path, delete_branch, actor, minimum_age } => CommandView::Remove {
                path: path@,
                delete_branch: *delete_branch,
                actor: actor@,
                minimum_age: *minimum_age,
            },
            Command::RegisterSession(inner) => CommandView::RegisterSession(inner@),
            Command::HeartbeatSession { session_id, lease_ttl_seconds, actor } => CommandView::HeartbeatSession {
                session_id: session_id@,
                lease_ttl_seconds: *lease_ttl_seconds,
                actor: actor@,
            },
            Command::AcquireLease { path, session_id, lease_ttl_seconds, actor } => CommandView::AcquireLease {
                path: path@,
                session_id: session_id@,
                lease_ttl_seconds: *lease_ttl_seconds,
                actor: actor@,
            },
            Command::ReleaseLease { session_id, actor } => CommandView::ReleaseLease {
                session_id: session_id@,
                actor: actor@,
            },
            Command::ReleaseSession { session_id, actor } => CommandView::ReleaseSession {
                session_id: session_id@,
                actor: actor@,
            },
        }
    }
}

/// An integer in a field that may be absent or null.
pub open spec fn integer(params: Json, key: Seq<char>) -> Result<Option<i64>, Seq<char>> {
    match optional_integer(params, key) {
        Err(message) => Err(message),
        Ok(None) => Ok(None),
        Ok(Some(number)) => Ok(Some(number as i64)),
    }
}

/// The time that a lease must be asked for.
pub open spec fn lease_time(params: Json) -> Result<i64, Seq<char>> {
    match integer(params, "lease_ttl_seconds"@) {
        Err(message) => Err(message),
        Ok(None) => Err("lease_ttl_seconds is required"@),
        Ok(Some(seconds)) => Ok(seconds),
    }
}

/// A text, or another where there is none.
pub open spec fn text_or(text: Option<Seq<char>>, other: Seq<char>) -> Seq<char> {
    match text {
        Some(given) => given,
        None => other,
    }
}

/// A number, or another where there is none.
pub open spec fn number_or(number: Option<i64>, other: i64) -> i64 {
    match number {
        Some(given) => given,
        None => other,
    }
}

fn or_text(text: Option<String>, other: &str) -> (result: String)
    ensures
        result@ == text_or(option_view(text), other@),
{
    match text {
        Some(given) => given,
        None => other.to_owned(),
    }
}

fn or_number(number: Option<i64>, other: i64) -> (result: i64)
    ensures
        result == number_or(number, other),
{
    match number {
        Some(given) => given,
        None => other,
    }
}

fn required(params: &Value, key: &str) -> (result: Result<String, DaemonError>)
    ensures
        match (result, required_text(params@, key@)) {
            (Ok(text), Ok(expected)) => text@ == expected,
            (Err(error), Err(message)) => error@ == protocol(message),
            _ => false,
        },
{
    match params.required_string(key) {
        Ok(text) => Ok(text.to_owned()),
        Err(message) => Err(DaemonError::Protocol(message)),
    }
}

fn optional(params: &Value, key: &str) -> (result: Result<Option<String>, DaemonError>)
    ensures
        match (result, optional_text(params@, key@)) {
            (Ok(text), Ok(expected)) => option_view(text) == expected,
            (Err(error), Err(message)) => error@ == protocol(message),
            _ => false,
        },
{
    match params.optional_string(key) {
        Ok(Some(text)) => Ok(Some(text.to_owned())),
        Ok(None) => Ok(None),
        Err(message) => Err(DaemonError::Protocol(message)),
    }
}

fn read_integer(params: &Value, key: &str) -> (result: Result<Option<i64>, DaemonError>)
    ensures
        match (result, integer(params@, key@)) {
            (Ok(number), Ok(expected)) => number == expected,
            (Err(error), Err(message)) => error@ == protocol(message),
            _ => false,
        },
{
    match params.optional_i64(key) {
        Ok(number) => Ok(number),
        Err(message) => Err(DaemonError::Protocol(message)),
    }
}

fn read_truth(params: &Value, key: &str) -> (result: Result<Option<bool>, DaemonError>)
    ensures
        match (result, optional_truth(params@, key@)) {
            (Ok(truth), Ok(expected)) => truth == expected,
            (Err(error), Err(message)) => error@ == protocol(message),
            _ => false,
        },
{
    match params.optional_bool(key) {
        Ok(truth) => Ok(truth),
        Err(message) => Err(DaemonError::Protocol(message)),
    }
}

fn read_lease_time(params: &Value) -> (result: Result<i64, DaemonError>)
    ensures
        match (result, lease_time(params@)) {
            (Ok(seconds), Ok(expected)) => seconds == expected,
            (Err(error), Err(message)) => error@ == protocol(message),
            _ => false,
        },
{
    match read_integer(params, "lease_ttl_seconds") {
        Err(error) => Err(error),
        Ok(Some(seconds)) => Ok(seconds),
        Ok(None) => Err(protocol_error("lease_ttl_seconds is required")),
    }
}

/// The age below which worktrees are left alone, as a request asks for it.
pub fn requested_cleanup_age(params: &Value, default: i64) -> (result: Result<i64, DaemonError>)
    ensures
        match (result, integer(params@, "minimum_age_seconds"@)) {
            (Ok(age), Ok(expected)) => age == number_or(expected, default),
            (Err(error), Err(message)) => error@ == protocol(message),
            _ => false,
        },
{
    match read_integer(params, "minimum_age_seconds") {
        Ok(age) => Ok(or_number(age, default)),
        Err(error) => Err(error),
    }
}

/// A request to create a worktree.
pub open spec fn create_command(
    params: Json,
    request_id: Seq<char>,
) -> Result<CommandView, Seq<char>> {
    let branch = required_text(params, "branch"@);
    let base = optional_text(params, "base"@);
    let path = optional_text(params, "path"@);
    let idempotency_key = optional_text(params, "idempotency_key"@);
    let actor = optional_text(params, "actor"@);
    if branch is Err {
        Err(branch->Err_0)
    } else if base is Err {
        Err(base->Err_0)
    } else if path is Err {
        Err(path->Err_0)
    } else if idempotency_key is Err {
        Err(idempotency_key->Err_0)
    } else if actor is Err {
        Err(actor->Err_0)
    } else {
        Ok(
            CommandView::Create(
                CreateRequestView {
                    branch: branch->Ok_0,
                    base: base->Ok_0,
                    path: path->Ok_0,
                    idempotency_key: Some(text_or(idempotency_key->Ok_0, request_id)),
                    actor: text_or(actor->Ok_0, "ipc"@),
                },
            ),
        )
    }
}

fn read_create(params: &Value, request_id: &str) -> (result: Result<Command, DaemonError>)
    ensures
        match (result, create_command(params@, request_id@)) {
            (Ok(command), Ok(expected)) => command@ == expected,
            (Err(error), Err(message)) => error@ == protocol(message),
            _ => false,
        },
{
    let branch = match required(params, "branch") {
        Ok(found) => found,
        Err(error) => return Err(error),
    };
    let base = match optional(params, "base") {
        Ok(found) => found,
        Err(error) => return Err(error),
    };
    let path = match optional(params, "path") {
        Ok(found) => found,
        Err(error) => return Err(error),
    };
    let idempotency_key = match optional(params, "idempotency_key") {
        Ok(found) => found,
        Err(error) => return Err(error),
    };
    let actor = match optional(params, "actor") {
        Ok(found) => found,
        Err(error) => return Err(error),
    };
    Ok(
        Command::Create(
            CreateRequest {
                branch,
                base,
                path,
                idempotency_key: Some(or_text(idempotency_key, request_id)),
                actor: or_text(actor, "ipc"),
            },
        ),
    )
}

/// A request to lock a worktree.
pub open spec fn lock_command(params: Json) -> Result<CommandView, Seq<char>> {
    let path = required_text(params, "path"@);
    let reason = optional_text(params, "reason"@);
    let actor = optional_text(params, "actor"@);
    if path is Err {
        Err(path->Err_0)
    } else if reason is Err {
        Err(reason->Err_0)
    } else if actor is Err {
        Err(actor->Err_0)
    } else {
        Ok(
            CommandView::Lock {
                path: path->Ok_0,
                reason: reason->Ok_0,
                actor: text_or(actor->Ok_0, "ipc"@),
            },
        )
    }
}

fn read_lock(params: &Value) -> (result: Result<Command, DaemonError>)
    ensures
        match (result, lock_command(params@)) {
            (Ok(command), Ok(expected)) => command@ == expected,
            (Err(error), Err(message)) => error@ == protocol(message),
            _ => false,
        },
{
    let path = match required(params, "path") {
        Ok(found) => found,
        Err(error) => return Err(error),
    };
    let reason = match optional(params, "reason") {
        Ok(found) => found,
        Err(error) => return Err(error),
    };
    let actor = match optional(params, "actor") {
        Ok(found) => found,
        Err(error) => return Err(error),
    };
    Ok(
        Command::Lock { path, reason, actor: or_text(actor, "ipc") },
    )
}

/// A request to unlock a worktree.
pub open spec fn unlock_command(params: Json) -> Result<CommandView, Seq<char>> {
    let path = required_text(params, "path"@);
    let actor = optional_text(params, "actor"@);
    if path is Err {
        Err(path->Err_0)
    } else if actor is Err {
        Err(actor->Err_0)
    } else {
        Ok(
            CommandView::Unlock { path: path->Ok_0, actor: text_or(actor->Ok_0, "ipc"@) },
        )
    }
}

fn read_unlock(params: &Value) -> (result: Result<Command, DaemonError>)
    ensures
        match (result, unlock_command(params@)) {
            (Ok(command), Ok(expected)) => command@ == expected,
            (Err(error), Err(message)) => error@ == protocol(message),
            _ => false,
        },
{
    let path = match required(params, "path") {
        Ok(found) => found,
        Err(error) => return Err(error),
    };
    let actor = match optional(params, "actor") {
        Ok(found) => found,
        Err(error) => return Err(error),
    };
    Ok(
        Command::Unlock { path, actor: or_text(actor, "ipc") },
    )
}

/// A request to scan for cleanup.
pub open spec fn cleanup_scan_command(
    params: Json,
    default_age: i64,
) -> Result<CommandView, Seq<char>> {
    let base = optional_text(params, "base"@);
    let minimum_age_seconds = integer(params, "minimum_age_seconds"@);
    if base is Err {
        Err(base->Err_0)
    } else if minimum_age_seconds is Err {
        Err(minimum_age_seconds->Err_0)
    } else {
        Ok(
            CommandView::CleanupScan {
                base: base->Ok_0,
                minimum_age: number_or(minimum_age_seconds->Ok_0, default_age),
            },
        )
    }
}

fn read_cleanup_scan(params: &Value, default_age: i64) -> (result: Result<Command, DaemonError>)
    ensures
        match (result, cleanup_scan_command(params@, default_age)) {
            (Ok(command), Ok(expected)) => command@ == expected,
            (Err(error), Err(message)) => error@ == protocol(message),
            _ => false,
        },
{
    let base = match optional(params, "base") {
        Ok(found) => found,
        Err(error) => return Err(error),
    };
    match requested_cleanup_age(params, default_age) {
        Ok(minimum_age) => Ok(Command::CleanupScan { base, minimum_age }),
        Err(error) => Err(error),
    }
}

/// A request to remove a worktree.
pub open spec fn remove_command(params: Json, default_age: i64) -> Result<CommandView, Seq<char>> {
    let path = required_text(params, "path"@);
    let delete_branch = optional_truth(params, "delete_branch"@);
    let actor = optional_text(params, "actor"@);
    let minimum_age_seconds = integer(params, "minimum_age_seconds"@);
    if path is Err {
        Err(path->Err_0)
    } else if delete_branch is Err {
        Err(delete_branch->Err_0)
    } else if actor is Err {
        Err(actor->Err_0)
    } else if minimum_age_seconds is Err {
        Err(minimum_age_seconds->Err_0)
    } else {
        Ok(
            CommandView::Remove {
                path: path->Ok_0,
                delete_branch: delete_branch->Ok_0 == Some(true),
                actor: text_or(actor->Ok_0, "ipc"@),
                minimum_age: number_or(minimum_age_seconds->Ok_0, default_age),
            },
        )
    }
}

fn read_remove(params: &Value, default_age: i64) -> (result: Result<Command, DaemonError>)
    ensures
        match (result, remove_command(params@, default_age)) {
            (Ok(command), Ok(expected)) => command@ == expected,
            (Err(error), Err(message)) => error@ == protocol(message),
            _ => false,
        },
{
    let path = match required(params, "path") {
        Ok(found) => found,
        Err(error) => return Err(error),
    };
    let delete_branch = match read_truth(params, "delete_branch") {
        Ok(found) => found,
        Err(error) => return Err(error),
    };
    let actor = match optional(params, "actor") {
        Ok(found) => found,
        Err(error) => return Err(error),
    };
    let minimum_age = match requested_cleanup_age(params, default_age) {
        Ok(found) => found,
        Err(error) => return Err(error),
    };
    Ok(
        Command::Remove {
            path,
            delete_branch: match delete_branch {
                Some(truth) => truth,
                None => false,
            },
            actor: or_text(actor, "ipc"),
            minimum_age,
        },
    )
}

/// A request to register a session.
pub open spec fn register_session_command(
    params: Json,
    request_id: Seq<char>,
) -> Result<CommandView, Seq<char>> {
    let session_id = optional_text(params, "session_id"@);
    let path = required_text(params, "path"@);
    let provider = optional_text(params, "provider"@);
    let provider_session_id = optional_text(params, "provider_session_id"@);
    let pid = integer(params, "pid"@);
    let process_started_at = integer(params, "process_started_at"@);
    let terminal_metadata = optional_text(params, "terminal_metadata"@);
    let lease_ttl_seconds = integer(params, "lease_ttl_seconds"@);
    let actor = optional_text(params, "actor"@);
    if session_id is Err {
        Err(session_id->Err_0)
    } else if path is Err {
        Err(path->Err_0)
    } else if provider is Err {
        Err(provider->Err_0)
    } else if provider_session_id is Err {
        Err(provider_session_id->Err_0)
    } else if pid is Err {
        Err(pid->Err_0)
    } else if process_started_at is Err {
        Err(process_started_at->Err_0)
    } else if terminal_metadata is Err {
        Err(terminal_metadata->Err_0)
    } else if lease_ttl_seconds is Err {
        Err(lease_ttl_seconds->Err_0)
    } else if actor is Err {
        Err(actor->Err_0)
    } else {
        Ok(
            CommandView::RegisterSession(
                RegisterSessionRequestView {
                    session_id: text_or(session_id->Ok_0, request_id),
                    worktree: path->Ok_0,
                    provider: text_or(provider->Ok_0, "terminal"@),
                    provider_session_id: provider_session_id->Ok_0,
                    pid: pid->Ok_0,
                    process_started_at: process_started_at->Ok_0,
                    terminal_metadata: terminal_metadata->Ok_0,
                    lease_ttl_seconds: lease_ttl_seconds->Ok_0,
                    actor: text_or(actor->Ok_0, "ipc"@),
                },
            ),
        )
    }
}

fn read_register_session(params: &Value, request_id: &str) -> (result: Result<Command, DaemonError>)
    ensures
        match (result, register_session_command(params@, request_id@)) {
            (Ok(command), Ok(expected)) => command@ == expected,
            (Err(error), Err(message)) => error@ == protocol(message),
            _ => false,
        },
{
    let session_id = match optional(params, "session_id") {
        Ok(found) => found,
        Err(error) => return Err(error),
    };
    let path = match required(params, "path") {
        Ok(found) => found,
        Err(error) => return Err(error),
    };
    let provider = match optional(params, "provider") {
        Ok(found) => found,
        Err(error) => return Err(error),
    };
    let provider_session_id = match optional(params, "provider_session_id") {
        Ok(found) => found,
        Err(error) => return Err(error),
    };
    let pid = match read_integer(params, "pid") {
        Ok(found) => found,
        Err(error) => return Err(error),
    };
    let process_started_at = match read_integer(params, "process_started_at") {
        Ok(found) => found,
        Err(error) => return Err(error),
    };
    let terminal_metadata = match optional(params, "terminal_metadata") {
        Ok(found) => found,
        Err(error) => return Err(error),
    };
    let lease_ttl_seconds = match read_integer(params, "lease_ttl_seconds") {
        Ok(found) => found,
        Err(error) => return Err(error),
    };
    let actor = match optional(params, "actor") {
        Ok(found) => found,
        Err(error) => return Err(error),
    };
    Ok(
        Command::RegisterSession(
            RegisterSessionRequest {
                session_id: or_text(session_id, request_id),
                worktree: path,
                provider: or_text(provider, "terminal"),
                provider_session_id,
                pid,
                process_started_at,
                terminal_metadata,
                lease_ttl_seconds,
                actor: or_text(actor, "ipc"),
            },
        ),
    )
}

/// A request to note that a session was seen.
pub open spec fn heartbeat_session_command(params: Json) -> Result<CommandView, Seq<char>> {
    let session_id = required_text(params, "session_id"@);
    let lease_ttl_seconds = integer(params, "lease_ttl_seconds"@);
    let actor = optional_text(params, "actor"@);
    if session_id is Err {
        Err(session_id->Err_0)
    } else if lease_ttl_seconds is Err {
        Err(lease_ttl_seconds->Err_0)
    } else if actor is Err {
        Err(actor->Err_0)
    } else {
        Ok(
            CommandView::HeartbeatSession {
                session_id: session_id->Ok_0,
                lease_ttl_seconds: lease_ttl_seconds->Ok_0,
                actor: text_or(actor->Ok_0, "ipc"@),
            },
        )
    }
}

fn read_heartbeat_session(params: &Value) -> (result: Result<Command, DaemonError>)
    ensures
        match (result, heartbeat_session_command(params@)) {
            (Ok(command), Ok(expected)) => command@ == expected,
            (Err(error), Err(message)) => error@ == protocol(message),
            _ => false,
        },
{
    let session_id = match required(params, "session_id") {
        Ok(found) => found,
        Err(error) => return Err(error),
    };
    let lease_ttl_seconds = match read_integer(params, "lease_ttl_seconds") {
        Ok(found) => found,
        Err(error) => return Err(error),
    };
    let actor = match optional(params, "actor") {
        Ok(found) => found,
        Err(error) => return Err(error),
    };
    Ok(
        Command::HeartbeatSession { session_id, lease_ttl_seconds, actor: or_text(actor, "ipc") },
    )
}

/// A request to acquire a lease.
pub open spec fn acquire_lease_command(params: Json) -> Result<CommandView, Seq<char>> {
    let path = required_text(params, "path"@);
    let session_id = required_text(params, "session_id"@);
    let lease_ttl_seconds = lease_time(params);
    let actor = optional_text(params, "actor"@);
    if path is Err {
        Err(path->Err_0)
    } else if session_id is Err {
        Err(session_id->Err_0)
    } else if lease_ttl_seconds is Err {
        Err(lease_ttl_seconds->Err_0)
    } else if actor is Err {
        Err(actor->Err_0)
    } else {
        Ok(
            CommandView::AcquireLease {
                path: path->Ok_0,
                session_id: session_id->Ok_0,
                lease_ttl_seconds: lease_ttl_seconds->Ok_0,
                actor: text_or(actor->Ok_0, "ipc"@),
            },
        )
    }
}

fn read_acquire_lease(params: &Value) -> (result: Result<Command, DaemonError>)
    ensures
        match (result, acquire_lease_command(params@)) {
            (Ok(command), Ok(expected)) => command@ == expected,
            (Err(error), Err(message)) => error@ == protocol(message),
            _ => false,
        },
{
    let path = match required(params, "path") {
        Ok(found) => found,
        Err(error) => return Err(error),
    };
    let session_id = match required(params, "session_id") {
        Ok(found) => found,
        Err(error) => return Err(error),
    };
    let lease_ttl_seconds = match read_lease_time(params) {
        Ok(found) => found,
        Err(error) => return Err(error),
    };
    let actor = match optional(params, "actor") {
        Ok(found) => found,
        Err(error) => return Err(error),
    };
    Ok(
        Command::AcquireLease { path, session_id, lease_ttl_seconds, actor: or_text(actor, "ipc") },
    )
}

/// A request to release the leases of a session.
pub open spec fn release_lease_command(params: Json) -> Result<CommandView, Seq<char>> {
    let session_id = required_text(params, "session_id"@);
    let actor = optional_text(params, "actor"@);
    if session_id is Err {
        Err(session_id->Err_0)
    } else if actor is Err {
        Err(actor->Err_0)
    } else {
        Ok(
            CommandView::ReleaseLease {
                session_id: session_id->Ok_0,
                actor: text_or(actor->Ok_0, "ipc"@),
            },
        )
    }
}

fn read_release_lease(params: &Value) -> (result: Result<Command, DaemonError>)
    ensures
        match (result, release_lease_command(params@)) {
            (Ok(command), Ok(expected)) => command@ == expected,
            (Err(error), Err(message)) => error@ == protocol(message),
            _ => false,
        },
{
    let session_id = match required(params, "session_id") {
        Ok(found) => found,
        Err(error) => return Err(error),
    };
    let actor = match optional(params, "actor") {
        Ok(found) => found,
        Err(error) => return Err(error),
    };
    Ok(
        Command::ReleaseLease { session_id, actor: or_text(actor, "ipc") },
    )
}

/// A request to end a session.
pub open spec fn release_session_command(params: Json) -> Result<CommandView, Seq<char>> {
    let session_id = required_text(params, "session_id"@);
    let actor = optional_text(params, "actor"@);
    if session_id is Err {
        Err(session_id->Err_0)
    } else if actor is Err {
        Err(actor->Err_0)
    } else {
        Ok(
            CommandView::ReleaseSession {
                session_id: session_id->Ok_0,
                actor: text_or(actor->Ok_0, "ipc"@),
            },
        )
    }
}

fn read_release_session(params: &Value) -> (result: Result<Command, DaemonError>)
    ensures
        match (result, release_session_command(params@)) {
            (Ok(command), Ok(expected)) => command@ == expected,
            (Err(error), Err(message)) => error@ == protocol(message),
            _ => false,
        },
{
    let session_id = match required(params, "session_id") {
        Ok(found) => found,
        Err(error) => return Err(error),
    };
    let actor = match optional(params, "actor") {
        Ok(found) => found,
        Err(error) => return Err(error),
    };
    Ok(
        Command::ReleaseSession { session_id, actor: or_text(actor, "ipc") },
    )
}

/// The request that a method and its parameters make.
pub open spec fn command_of(
    request_id: Seq<char>,
    method: Seq<char>,
    params: Json,
    default_age: i64,
) -> Result<CommandView, Seq<char>> {
    if method == "ping"@ {
        Ok(CommandView::Ping)
    } else if method == "refresh"@ {
        Ok(CommandView::Refresh)
    } else if method == "create"@ {
        create_command(params, request_id)
    } else if method == "lock"@ {
        lock_command(params)
    } else if method == "unlock"@ {
        unlock_command(params)
    } else if method == "cleanup_scan"@ {
        cleanup_scan_command(params, default_age)
    } else if method == "remove"@ {
        remove_command(params, default_age)
    } else if method == "register_session"@ {
        register_session_command(params, request_id)
    } else if method == "heartbeat_session"@ {
        heartbeat_session_command(params)
    } else if method == "acquire_lease"@ {
        acquire_lease_command(params)
    } else if method == "release_lease"@ {
        release_lease_command(params)
    } else if method == "release_session"@ {
        release_session_command(params)
    } else {
        Err("unknown daemon method "@ + debug_text(method))
    }
}

/// Decodes a request.
pub fn decode(request_id: &str, method: &str, params: &Value, default_age: i64) -> (result: Result<
    Command,
    DaemonError,
>)
    ensures
        match (result, command_of(request_id@, method@, params@, default_age)) {
            (Ok(command), Ok(expected)) => command@ == expected,
            (Err(error), Err(message)) => error@ == protocol(message),
            _ => false,
        },
{
    if same_text(method, "ping") {
        Ok(Command::Ping)
    } else if same_text(method, "refresh") {
        Ok(Command::Refresh)
    } else if same_text(method, "create") {
        read_create(params, request_id)
    } else if same_text(method, "lock") {
        read_lock(params)
    } else if same_text(method, "unlock") {
        read_unlock(params)
    } else if same_text(method, "cleanup_scan") {
        read_cleanup_scan(params, default_age)
    } else if same_text(method, "remove") {
        read_remove(params, default_age)
    } else if same_text(method, "register_session") {
        read_register_session(params, request_id)
    } else if same_text(method, "heartbeat_session") {
        read_heartbeat_session(params)
    } else if same_text(method, "acquire_lease") {
        read_acquire_lease(params)
    } else if same_text(method, "release_lease") {
        read_release_lease(params)
    } else if same_text(method, "release_session") {
        read_release_session(params)
    } else {
        let name = debug_string(method);
        Err(DaemonError::Protocol(concat("unknown daemon method ", &name)))
    }
}

/// Whether a method may change the repository or the inventory, so that it has to
/// go through the journal.
pub open spec fn changes_something(method: Seq<char>) -> bool {
    ||| method == "refresh"@
    ||| method == "create"@
    ||| method == "lock"@
    ||| method == "unlock"@
    ||| method == "cleanup_scan"@
    ||| method == "remove"@
    ||| method == "register_session"@
    ||| method == "heartbeat_session"@
    ||| method == "acquire_lease"@
    ||| method == "release_lease"@
    ||| method == "release_session"@
}

/// Whether a method has to go through the journal.
pub fn is_mutating_method(method: &str) -> (result: bool)
    ensures
        result == changes_something(method@),
{
    same_text(method, "refresh")
        || same_text(method, "create")
        || same_text(method, "lock")
        || same_text(method, "unlock")
        || same_text(method, "cleanup_scan")
        || same_text(method, "remove")
        || same_text(method, "register_session")
        || same_text(method, "heartbeat_session")
        || same_text(method, "acquire_lease")
        || same_text(method, "release_lease")
        || same_text(method, "release_session")
}

/// Every method that the daemon understands, but for the ping, goes through the
/// journal.
pub proof fn only_the_ping_skips_the_journal(
    request_id: Seq<char>,
    method: Seq<char>,
    params: Json,
    default_age: i64,
)
    ensures
        command_of(request_id, method, params, default_age) matches Ok(command)
            ==> changes_something(method) || command == CommandView::Ping,
{
}

} // verus!

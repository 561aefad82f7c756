//! What the sentences about errors say.

use crate::cli::error::CliError;
use crate::daemon::error::DaemonError;
use crate::git::error::GitError;
use crate::inventory::records::InventoryError;
use crate::numeral::signed_decimal;
use crate::service::error::ServiceError;
use crate::service::error::ServiceErrorView;
use crate::text::debug_text;
use crate::text::join_text;
use crate::text::views;
use vstd::prelude::*;

verus! {

/// What went wrong with the inventory is told with the operation, the number and the
/// message of the fault.
pub proof fn inventory_errors_are_told(error: &InventoryError, text: String)
    requires
        call_ensures(InventoryError::to_text, (error,), text),
    ensures
        error matches InventoryError::Io { operation, source } ==> text@ == operation@ + ": "@
            + source@,
        error matches InventoryError::Sqlite { operation, code, message } ==> text@ == operation@
            + " (SQLite code "@ + signed_decimal(*code as int) + "): "@ + message@,
        error matches InventoryError::InvalidData(message) ==> text@
            == "invalid inventory data: "@ + message@,
        error matches InventoryError::Conflict(message) ==> text@ == "inventory conflict: "@
            + message@,
{
}

/// What the service refuses is told with the request, the path, or everything that stands
/// against a removal.
pub proof fn service_errors_are_told(error: &ServiceError, text: String)
    requires
        call_ensures(ServiceError::to_text, (error,), text),
    ensures
        error matches ServiceError::Io { operation, source } ==> text@ == operation@ + ": "@
            + source@,
        error matches ServiceError::InvalidRequest(message) ==> text@ == "invalid request: "@
            + message@,
        error matches ServiceError::NotFound(path) ==> text@ == "worktree not found: "@ + path@,
        error matches ServiceError::UnsafeRemoval { path, blockers } ==> text@
            == "refusing to remove "@ + path@ + ": "@ + join_text(views(blockers@), ", "@),
        error is LockPoisoned ==> text@ == "repository mutation lock is poisoned"@,
{
}

/// A branch that stayed when its worktree went is told with its name and what Git said.
pub proof fn branch_that_stayed_is_told(
    branch: String,
    source: GitError,
    error: &ServiceError,
    reason: String,
    text: String,
)
    requires
        error@ == (ServiceErrorView::BranchDeletionFailed {
            branch: branch@,
            source: source@,
        }),
        call_ensures(GitError::to_text, (&source,), reason),
        call_ensures(ServiceError::to_text, (error,), text),
    ensures
        text@ == "worktree was removed but branch "@ + debug_text(branch@)
            + " could not be deleted: "@ + reason@,
{
}

/// What went wrong between a client and the daemon is told as such, with the code and the
/// message that came back.
pub proof fn daemon_errors_are_told(error: &DaemonError, text: String)
    requires
        call_ensures(DaemonError::to_text, (error,), text),
    ensures
        error matches DaemonError::Io { operation, source } ==> text@ == operation@ + ": "@
            + source@,
        error matches DaemonError::Protocol(message) ==> text@ == "daemon protocol error: "@
            + message@,
        error matches DaemonError::Remote { code, message } ==> text@ == "daemon request failed ("@
            + code@ + "): "@ + message@,
        error is Unsupported ==> text@ == "daemon IPC is unsupported on this platform"@,
{
}

/// An error that is passed on keeps its sentence.
pub proof fn passed_errors_keep_their_sentence(
    git: GitError,
    inventory: InventoryError,
    service: ServiceError,
    daemon: DaemonError,
    git_text: String,
    inventory_text: String,
    service_text: String,
    daemon_text: String,
    texts: (String, String, String, String, String, String, String),
)
    requires
        call_ensures(GitError::to_text, (&git,), git_text),
        call_ensures(InventoryError::to_text, (&inventory,), inventory_text),
        call_ensures(ServiceError::to_text, (&service,), service_text),
        call_ensures(DaemonError::to_text, (&daemon,), daemon_text),
        call_ensures(ServiceError::to_text, (&ServiceError::Git(git),), texts.0),
        call_ensures(ServiceError::to_text, (&ServiceError::Inventory(inventory),), texts.1),
        call_ensures(DaemonError::to_text, (&DaemonError::Git(git),), texts.2),
        call_ensures(DaemonError::to_text, (&DaemonError::Service(service),), texts.3),
        call_ensures(CliError::to_text, (&CliError::Git(git),), texts.4),
        call_ensures(CliError::to_text, (&CliError::Daemon(daemon),), texts.5),
        call_ensures(CliError::to_text, (&CliError::Service(service),), texts.6),
    ensures
        texts.0@ == git_text@,
        texts.1@ == inventory_text@,
        texts.2@ == git_text@,
        texts.3@ == service_text@,
        texts.4@ == git_text@,
        texts.5@ == daemon_text@,
        texts.6@ == service_text@,
{
}

/// What is wrong with a call is told in its own words.
pub proof fn usage_errors_are_told(error: &CliError, text: String)
    requires
        call_ensures(CliError::to_text, (error,), text),
    ensures
        error matches CliError::Usage(message) ==> text@ == message@,
        error matches CliError::Io(message) ==> text@ == message@,
{
}

} // verus!

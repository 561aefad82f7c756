//! What the daemon decides about sockets, lock files and connections.

use crate::daemon::error::DaemonError;
use crate::daemon::error::DaemonErrorView;
use crate::daemon::error::protocol;
use crate::daemon::fingerprint::stable_string_hash;
use crate::daemon::fingerprint::text_hash;
use crate::numeral::decimal;
use crate::numeral::hex_digits;
use crate::numeral::print_hex_digits;
use crate::numeral::print_u64;
use crate::paths::join_path;
use crate::paths::joined;
use crate::text::byte_length;
use crate::text::concat3;
use crate::text::concat;
use vstd::prelude::*;

verus! {

/// How many clients the daemon serves at a time.
pub const MAX_CONNECTIONS: usize = 64;

/// From how many bytes on the path of a socket is too long.
pub const MAX_UNIX_SOCKET_PATH_BYTES: usize = 100;

/// The number of clients with one more, unless there are as many as can be served.
pub fn connection_count(active: usize) -> (counted: Option<usize>)
    ensures
        counted == (if active < MAX_CONNECTIONS {
            Some((active + 1) as usize)
        } else {
            None
        }),
{
    if active < MAX_CONNECTIONS {
        Some(active + 1)
    } else {
        None
    }
}

/// What was found where a socket may be.
#[derive(Debug, PartialEq, Eq)]
pub enum SocketProbe {
    /// Nothing is there.
    Missing,
    /// It cannot be told what is there.
    Unreadable(String),
    /// Something else than a socket is there.
    NotSocket,
    /// A socket is there, and it accepted a connection.
    Connected,
    /// A socket is there, and it refused a connection.
    Refused,
    /// A socket was there, and was gone when a connection was tried.
    Gone,
    /// A socket is there, and a connection failed otherwise.
    Failed(String),
}

/// A failure with an operation on a path.
pub open spec fn io_fault(
    operation: Seq<char>,
    path: Seq<char>,
    source: Seq<char>,
) -> DaemonErrorView {
    DaemonErrorView::Io { operation: operation + path, source }
}

fn io_error(operation: &str, path: &str, source: &str) -> (error: DaemonError)
    ensures
        error@ == io_fault(operation@, path@, source@),
{
    DaemonError::Io { operation: concat(operation, path), source: source.to_owned() }
}

/// Whether a socket file is stale and has to be removed, or why it is left alone.
pub open spec fn cleaning(path: Seq<char>, found: SocketProbe) -> Result<bool, DaemonErrorView> {
    match found {
        SocketProbe::Missing => Ok(false),
        SocketProbe::Unreadable(source) => Err(
            io_fault("inspect daemon socket "@, path, source@),
        ),
        SocketProbe::NotSocket => Err(
            io_fault("clean daemon socket "@, path, "path exists but is not a Unix socket"@),
        ),
        SocketProbe::Connected => Err(
            io_fault(
                "clean daemon socket "@,
                path,
                "daemon is running; refusing to remove its socket"@,
            ),
        ),
        SocketProbe::Refused => Ok(true),
        SocketProbe::Gone => Ok(true),
        SocketProbe::Failed(source) => Err(io_fault("inspect daemon socket "@, path, source@)),
    }
}

/// Decides whether a socket file is stale and has to be removed.
pub fn clean_stale_socket(path: &str, found: &SocketProbe) -> (result: Result<bool, DaemonError>)
    ensures
        match (result, cleaning(path@, *found)) {
            (Ok(remove), Ok(expected)) => remove == expected,
            (Err(error), Err(expected)) => error@ == expected,
            _ => false,
        },
{
    match found {
        SocketProbe::Missing => Ok(false),
        SocketProbe::Unreadable(source) => Err(io_error("inspect daemon socket ", path, source)),
        SocketProbe::NotSocket => Err(
            io_error("clean daemon socket ", path, "path exists but is not a Unix socket"),
        ),
        SocketProbe::Connected => Err(
            io_error(
                "clean daemon socket ",
                path,
                "daemon is running; refusing to remove its socket",
            ),
        ),
        SocketProbe::Refused => Ok(true),
        SocketProbe::Gone => Ok(true),
        SocketProbe::Failed(source) => Err(io_error("inspect daemon socket ", path, source)),
    }
}

/// Whether something stands in the way of a socket and has to be removed, or why
/// no socket can be bound.
pub open spec fn preparation(path: Seq<char>, found: SocketProbe) -> Result<bool, DaemonErrorView> {
    match found {
        SocketProbe::Missing => Ok(false),
        SocketProbe::Unreadable(_) => Ok(false),
        SocketProbe::NotSocket => Err(
            io_fault(
                "bind daemon socket "@,
                path,
                "daemon socket path is not a Unix socket"@,
            ),
        ),
        SocketProbe::Connected => Err(
            io_fault("bind daemon socket "@, path, "daemon is already running"@),
        ),
        SocketProbe::Refused => Ok(true),
        SocketProbe::Gone => Ok(true),
        SocketProbe::Failed(_) => Err(
            io_fault("inspect daemon socket "@, path, "daemon socket is unavailable"@),
        ),
    }
}

/// Decides whether something stands in the way of a socket and has to be removed.
pub fn prepare_socket_path(path: &str, found: &SocketProbe) -> (result: Result<bool, DaemonError>)
    ensures
        match (result, preparation(path@, *found)) {
            (Ok(remove), Ok(expected)) => remove == expected,
            (Err(error), Err(expected)) => error@ == expected,
            _ => false,
        },
{
    match found {
        SocketProbe::Missing => Ok(false),
        SocketProbe::Unreadable(_) => Ok(false),
        SocketProbe::NotSocket => Err(
            io_error("bind daemon socket ", path, "daemon socket path is not a Unix socket"),
        ),
        SocketProbe::Connected => Err(
            io_error("bind daemon socket ", path, "daemon is already running"),
        ),
        SocketProbe::Refused => Ok(true),
        SocketProbe::Gone => Ok(true),
        SocketProbe::Failed(_) => Err(
            io_error("inspect daemon socket ", path, "daemon socket is unavailable"),
        ),
    }
}

/// Refuses the path of a socket that is too long.
pub fn check_socket_path(path: &str) -> (result: Result<(), DaemonError>)
    ensures
        match result {
            Ok(()) => byte_length(path@) < MAX_UNIX_SOCKET_PATH_BYTES,
            Err(error) => byte_length(path@) >= MAX_UNIX_SOCKET_PATH_BYTES && error@ == protocol(
                "daemon socket path exceeds the safe Unix limit of 100 bytes: "@ + path@,
            ),
        },
{
    if path.as_bytes().len() >= MAX_UNIX_SOCKET_PATH_BYTES {
        return Err(
            DaemonError::Protocol(
                concat("daemon socket path exceeds the safe Unix limit of 100 bytes: ", path),
            ),
        );
    }
    Ok(())
}

/// A socket that accepts connections is never removed.
pub proof fn live_socket_is_never_removed(path: Seq<char>)
    ensures
        cleaning(path, SocketProbe::Connected) is Err,
        preparation(path, SocketProbe::Connected) is Err,
{
}

// ---------------------------------------------------------------------------
// Lock files
// ---------------------------------------------------------------------------

/// What a file system says of a file or a directory.
#[derive(Debug, Clone, Copy, PartialEq, Eq)]
pub struct FileFacts {
    pub is_link: bool,
    pub is_directory: bool,
    pub is_file: bool,
    pub owner: u32,
    pub mode: u32,
}

/// Whether others than the owner have access.
pub open spec fn is_shared(mode: u32) -> bool {
    mode & 0o077u32 != 0
}

fn shared(mode: u32) -> (result: bool)
    ensures
        result == is_shared(mode),
{
    mode & 0o077u32 != 0
}

/// Why a directory cannot hold lock files, if it cannot.
pub open spec fn directory_fault(directory: Seq<char>, facts: FileFacts, user: u32) -> Option<
    DaemonErrorView,
> {
    if facts.is_link || !facts.is_directory {
        Some(
            io_fault(
                "inspect request lock directory "@,
                directory,
                "request lock directory must be a real directory"@,
            ),
        )
    } else if facts.owner != user {
        Some(
            io_fault(
                "inspect request lock directory "@,
                directory,
                "request lock directory is owned by another user"@,
            ),
        )
    } else if is_shared(facts.mode) {
        Some(
            io_fault(
                "restrict request lock directory "@,
                directory,
                "request lock directory is accessible by another user"@,
            ),
        )
    } else {
        None
    }
}

/// Refuses a directory that cannot hold lock files.
pub fn validate_request_lock_directory(directory: &str, facts: FileFacts, user: u32) -> (result:
    Result<(), DaemonError>)
    ensures
        match result {
            Ok(()) => directory_fault(directory@, facts, user) is None,
            Err(error) => directory_fault(directory@, facts, user) == Some(error@),
        },
{
    if facts.is_link || !facts.is_directory {
        return Err(
            io_error(
                "inspect request lock directory ",
                directory,
                "request lock directory must be a real directory",
            ),
        );
    }
    if facts.owner != user {
        return Err(
            io_error(
                "inspect request lock directory ",
                directory,
                "request lock directory is owned by another user",
            ),
        );
    }
    if shared(facts.mode) {
        return Err(
            io_error(
                "restrict request lock directory ",
                directory,
                "request lock directory is accessible by another user",
            ),
        );
    }
    Ok(())
}

/// Why a file that is there cannot serve as a lock, if it cannot.
pub open spec fn lock_fault(path: Seq<char>, facts: FileFacts, user: u32) -> Option<
    DaemonErrorView,
> {
    if facts.is_link || !facts.is_file {
        Some(
            io_fault(
                "open request journal lock "@,
                path,
                "request journal lock must be a regular file"@,
            ),
        )
    } else if facts.owner != user || is_shared(facts.mode) {
        Some(
            io_fault(
                "open request journal lock "@,
                path,
                "request journal lock has unsafe ownership or permissions"@,
            ),
        )
    } else {
        None
    }
}

/// Refuses a file that cannot serve as a lock.
pub fn validate_request_lock(path: &str, facts: FileFacts, user: u32) -> (result: Result<
    (),
    DaemonError,
>)
    ensures
        match result {
            Ok(()) => lock_fault(path@, facts, user) is None,
            Err(error) => lock_fault(path@, facts, user) == Some(error@),
        },
{
    if facts.is_link || !facts.is_file {
        return Err(
            io_error(
                "open request journal lock ",
                path,
                "request journal lock must be a regular file",
            ),
        );
    }
    if facts.owner != user || shared(facts.mode) {
        return Err(
            io_error(
                "open request journal lock ",
                path,
                "request journal lock has unsafe ownership or permissions",
            ),
        );
    }
    Ok(())
}

/// The directory of lock files of a user, in the directory for temporary files.
pub open spec fn lock_directory_text(temporary: Seq<char>, user: u32) -> Seq<char> {
    joined(temporary, "worktree-manager-locks-"@ + decimal(user as nat))
}

/// The directory of lock files of a user.
pub fn request_lock_directory(temporary: &str, user: u32) -> (path: String)
    ensures
        path@ == lock_directory_text(temporary@, user),
{
    let digits = print_u64(user as u64);
    let name = concat("worktree-manager-locks-", &digits);
    join_path(temporary, &name)
}

/// The lock file for everyone who opens the inventory at an absolute path.
pub open spec fn path_lock_text(directory: Seq<char>, inventory_path: Seq<char>) -> Seq<char> {
    joined(
        directory,
        "path-"@ + hex_digits(text_hash(inventory_path) as nat, 16) + ".request.lock"@,
    )
}

/// The lock file for everyone who opens the inventory at a path.
pub fn request_path_lock_path(directory: &str, inventory_path: &str) -> (path: String)
    ensures
        path@ == path_lock_text(directory@, inventory_path@),
{
    let digits = print_hex_digits(stable_string_hash(inventory_path), 16);
    let name = concat3("path-", &digits, ".request.lock");
    join_path(directory, &name)
}

/// The lock file for everyone who uses the same inventory, wherever it stands.
pub open spec fn identity_lock_text(directory: Seq<char>, identity: Seq<char>) -> Seq<char> {
    joined(
        directory,
        "identity-"@ + hex_digits(text_hash(identity) as nat, 16) + ".request.lock"@,
    )
}

/// The lock file for everyone who uses the same inventory.
pub fn request_identity_lock_path(directory: &str, identity: &str) -> (path: String)
    ensures
        path@ == identity_lock_text(directory@, identity@),
{
    let digits = print_hex_digits(stable_string_hash(identity), 16);
    let name = concat3("identity-", &digits, ".request.lock");
    join_path(directory, &name)
}

} // verus!

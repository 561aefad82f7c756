//! Which requests are acceptable, and where worktrees may stand.

use crate::inventory::table::find_row;
use crate::inventory::table::first_match;
use crate::inventory::worktrees::ListedWorktree;
use crate::inventory::worktrees::ListedWorktreeView;
use crate::paths::components;
use crate::paths::file_name;
use crate::paths::join_path;
use crate::paths::joined;
use crate::paths::last_name;
use crate::paths::parent;
use crate::paths::parent_text;
use crate::paths::same_path;
use crate::paths::same_steps;
use crate::service::error::invalid;
use crate::service::error::invalid_request;
use crate::service::error::ServiceError;
use crate::service::error::ServiceErrorView;
use crate::service::types::CreateRequest;
use crate::service::types::CreateRequestView;
use crate::service::types::RegisterSessionRequest;
use crate::service::types::RegisterSessionRequestView;
use crate::text::concat;
use crate::text::concat3;
use crate::text::contains_char;
use crate::text::is_blank;
use crate::text::to_chars;
use crate::text::trim_text;
use crate::text::trims_to_nothing;
use crate::text::views;
use vstd::prelude::*;

verus! {

/// The age below which a worktree is not cleaned up, unless told otherwise.
pub const DEFAULT_CLEANUP_MINIMUM_AGE_SECONDS: i64 = 86400;

/// Whether a text begins with a dash or holds a zero character, and so could be
/// taken for an option or cut short.
pub open spec fn is_hazardous(text: Seq<char>) -> bool {
    (text.len() > 0 && text[0] == '-') || text.contains(0u32 as char)
}

fn hazardous(text: &str) -> (result: bool)
    ensures
        result == is_hazardous(text@),
{
    let chars = to_chars(text);
    let zero = 0u8 as char;
    (chars.len() > 0 && chars[0] == '-') || contains_char(text, zero)
}

fn holds_zero(text: &str) -> (result: bool)
    ensures
        result == text@.contains(0u32 as char),
{
    let zero = 0u8 as char;
    contains_char(text, zero)
}

/// Why a request to create a worktree is refused.
pub open spec fn create_fault(request: CreateRequestView) -> Option<ServiceErrorView> {
    if trim_text(request.branch).len() == 0 {
        Some(invalid("branch name cannot be empty"@))
    } else if is_hazardous(request.branch) {
        Some(invalid("branch name cannot begin with '-' or contain NUL"@))
    } else if request.base is Some && is_hazardous(request.base->0) {
        Some(invalid("base ref cannot begin with '-' or contain NUL"@))
    } else if request.idempotency_key is Some && (request.idempotency_key->0.len() == 0
        || request.idempotency_key->0.contains(0u32 as char)) {
        Some(invalid("idempotency key cannot be empty or contain NUL"@))
    } else {
        None
    }
}

/// Tests a request to create a worktree.
pub fn validate_create_request(request: &CreateRequest) -> (result: Result<(), ServiceError>)
    ensures
        match result {
            Ok(()) => create_fault(request@) is None,
            Err(error) => create_fault(request@) == Some(error@),
        },
{
    if trims_to_nothing(&request.branch) {
        return Err(invalid_request("branch name cannot be empty"));
    }
    if hazardous(&request.branch) {
        return Err(invalid_request("branch name cannot begin with '-' or contain NUL"));
    }
    if let Some(base) = &request.base {
        if hazardous(base) {
            return Err(invalid_request("base ref cannot begin with '-' or contain NUL"));
        }
    }
    if let Some(key) = &request.idempotency_key {
        if is_blank(key) || holds_zero(key) {
            return Err(invalid_request("idempotency key cannot be empty or contain NUL"));
        }
    }
    Ok(())
}

/// Whether a text is there and holds a zero character.
pub open spec fn option_holds_zero(text: Option<Seq<char>>) -> bool {
    text is Some && text->0.contains(0u32 as char)
}

/// Why a request to register a session is refused.
pub open spec fn session_fault(request: RegisterSessionRequestView) -> Option<ServiceErrorView> {
    if trim_text(request.session_id).len() == 0 || request.session_id.contains(0u32 as char) {
        Some(invalid("session id cannot be empty or contain NUL"@))
    } else if trim_text(request.provider).len() == 0 || request.provider.contains(0u32 as char) {
        Some(invalid("session provider cannot be empty or contain NUL"@))
    } else if option_holds_zero(request.provider_session_id) || option_holds_zero(
        request.terminal_metadata,
    ) {
        Some(invalid("session metadata cannot contain NUL"@))
    } else if request.lease_ttl_seconds is Some && request.lease_ttl_seconds->0 <= 0 {
        Some(invalid("lease TTL must be positive"@))
    } else if request.pid is Some && request.pid->0 <= 0 {
        Some(invalid("session process id must be positive"@))
    } else {
        None
    }
}

/// Tests a request to register a session.
pub fn validate_session_request(request: &RegisterSessionRequest) -> (result: Result<
    (),
    ServiceError,
>)
    ensures
        match result {
            Ok(()) => session_fault(request@) is None,
            Err(error) => session_fault(request@) == Some(error@),
        },
{
    if trims_to_nothing(&request.session_id) || holds_zero(&request.session_id) {
        return Err(invalid_request("session id cannot be empty or contain NUL"));
    }
    if trims_to_nothing(&request.provider) || holds_zero(&request.provider) {
        return Err(invalid_request("session provider cannot be empty or contain NUL"));
    }
    if let Some(value) = &request.provider_session_id {
        if holds_zero(value) {
            return Err(invalid_request("session metadata cannot contain NUL"));
        }
    }
    if let Some(value) = &request.terminal_metadata {
        if holds_zero(value) {
            return Err(invalid_request("session metadata cannot contain NUL"));
        }
    }
    if let Some(ttl) = request.lease_ttl_seconds {
        if ttl <= 0 {
            return Err(invalid_request("lease TTL must be positive"));
        }
    }
    if let Some(pid) = request.pid {
        if pid <= 0 {
            return Err(invalid_request("session process id must be positive"));
        }
    }
    Ok(())
}

/// Why a minimum age is refused.
pub open spec fn age_fault(minimum_cleanup_age_seconds: i64) -> Option<ServiceErrorView> {
    if minimum_cleanup_age_seconds < 0 {
        Some(invalid("minimum cleanup age cannot be negative"@))
    } else {
        None
    }
}

/// Tests a minimum age.
pub fn validate_cleanup_age(minimum_cleanup_age_seconds: i64) -> (result: Result<(), ServiceError>)
    ensures
        match result {
            Ok(()) => age_fault(minimum_cleanup_age_seconds) is None,
            Err(error) => age_fault(minimum_cleanup_age_seconds) == Some(error@),
        },
{
    if minimum_cleanup_age_seconds < 0 {
        return Err(invalid_request("minimum cleanup age cannot be negative"));
    }
    Ok(())
}

// ---------------------------------------------------------------------------
// Places
// ---------------------------------------------------------------------------

/// Whether a character may stand in the name of a directory as it is.
pub open spec fn is_plain(c: char) -> bool {
    ||| 48 <= c as u32 <= 57
    ||| 65 <= c as u32 <= 90
    ||| 97 <= c as u32 <= 122
    ||| c == '-'
    ||| c == '_'
    ||| c == '.'
}

/// A branch as the name of a directory.
pub open spec fn plain_name(branch: Seq<char>) -> Seq<char> {
    branch.map_values(
        |c: char|
            if is_plain(c) {
                c
            } else {
                '-'
            },
    )
}

fn branch_directory(branch: &str) -> (name: String)
    ensures
        name@ == plain_name(branch@),
{
    let chars = to_chars(branch);
    let mut name = String::new();
    let mut i: usize = 0;
    assert(name@ =~= plain_name(chars@.take(0)));
    while i < chars.len()
        invariant
            i <= chars.len(),
            name@ == plain_name(chars@.take(i as int)),
        decreases chars.len() - i,
    {
        let c = chars[i];
        let code: u32 = c as u32;
        let plain = (48 <= code && code <= 57) || (65 <= code && code <= 90) || (97 <= code && code
            <= 122) || c == '-' || c == '_' || c == '.';
        let ghost before = name@;
        if plain {
            name.push(c);
        } else {
            name.push('-');
        }
        assert(name@ =~= plain_name(chars@.take(i + 1)));
        i += 1;
    }
    assert(chars@.take(i as int) =~= chars@);
    name
}

/// Where the worktree of a branch stands unless told otherwise: next to the
/// repository, under the names of both.
pub open spec fn default_path(repository_root: Seq<char>, branch: Seq<char>) -> Seq<char> {
    let name = match last_name(components(repository_root)) {
        Some(name) => name,
        None => "repository"@,
    };
    let directory = match parent_text(repository_root) {
        Some(parent) => parent,
        None => "."@,
    };
    joined(directory, name + "-"@ + plain_name(branch))
}

/// Where the worktree of a branch stands unless told otherwise.
pub fn default_worktree_path(repository_root: &str, branch: &str) -> (path: String)
    ensures
        path@ == default_path(repository_root@, branch@),
{
    let name = match file_name(repository_root) {
        Some(name) => name,
        None => "repository".to_owned(),
    };
    let directory = match parent(repository_root) {
        Some(parent) => parent,
        None => ".".to_owned(),
    };
    let branch_name = branch_directory(branch);
    let full = concat3(&name, "-", &branch_name);
    join_path(&directory, &full)
}

/// The path that a request names or leaves to the default.
pub open spec fn candidate_text(repository_root: Seq<char>, request: CreateRequestView) -> Seq<char> {
    joined(
        repository_root,
        match request.path {
            Some(path) => path,
            None => default_path(repository_root, request.branch),
        },
    )
}

/// The path that a request names or leaves to the default.
pub fn candidate_path(repository_root: &str, request: &CreateRequest) -> (path: String)
    ensures
        path@ == candidate_text(repository_root@, request@),
{
    let candidate = match &request.path {
        Some(path) => path.clone(),
        None => default_worktree_path(repository_root, &request.branch),
    };
    join_path(repository_root, &candidate)
}

/// The directory in which a candidate would stand.
pub fn candidate_parent(candidate: &str) -> (result: Result<String, ServiceError>)
    ensures
        match (result, parent_text(candidate@)) {
            (Ok(text), Some(expected)) => text@ == expected,
            (Err(error), None) => error@ == invalid("worktree path has no parent directory"@),
            _ => false,
        },
{
    match parent(candidate) {
        Some(text) => Ok(text),
        None => Err(invalid_request("worktree path has no parent directory")),
    }
}

/// The directory in which worktrees may stand.
pub fn worktree_directory(repository_root: &str) -> (result: Result<String, ServiceError>)
    ensures
        match (result, parent_text(repository_root@)) {
            (Ok(text), Some(expected)) => text@ == expected,
            (Err(error), None) => error@ == invalid(
                "repository root has no sibling directory for worktrees"@,
            ),
            _ => false,
        },
{
    match parent(repository_root) {
        Some(text) => Ok(text),
        None => Err(invalid_request("repository root has no sibling directory for worktrees")),
    }
}

/// Where a worktree is to be created, given where the directory of the candidate
/// and the directory of worktrees lead: they must be the same, and the place must
/// be neither the repository nor its shared Git directory.
pub open spec fn accepted_path(
    repository_root: Seq<char>,
    common_git_dir: Seq<char>,
    candidate: Seq<char>,
    directory: Seq<char>,
    allowed: Seq<char>,
) -> Result<Seq<char>, ServiceErrorView> {
    if !same_steps(directory, allowed) {
        Err(invalid("worktree paths must be direct siblings of "@ + repository_root))
    } else {
        match last_name(components(candidate)) {
            None => Err(invalid("worktree path has no final component"@)),
            Some(name) => {
                let path = joined(directory, name);
                if same_steps(path, repository_root) || same_steps(path, common_git_dir) {
                    Err(
                        invalid(
                            "a repository root or common Git directory cannot be a linked worktree path"@,
                        ),
                    )
                } else {
                    Ok(path)
                }
            },
        }
    }
}

/// Decides where a worktree is to be created.
pub fn requested_path(
    repository_root: &str,
    common_git_dir: &str,
    candidate: &str,
    directory: &str,
    allowed: &str,
) -> (result: Result<String, ServiceError>)
    ensures
        match (
            result,
            accepted_path(repository_root@, common_git_dir@, candidate@, directory@, allowed@),
        ) {
            (Ok(path), Ok(expected)) => path@ == expected,
            (Err(error), Err(expected)) => error@ == expected,
            _ => false,
        },
{
    if !same_path(directory, allowed) {
        let message = concat(
            "worktree paths must be direct siblings of ",
            repository_root,
        );
        return Err(ServiceError::InvalidRequest(message));
    }
    let name = match file_name(candidate) {
        Some(name) => name,
        None => return Err(invalid_request("worktree path has no final component")),
    };
    let path = join_path(directory, &name);
    if same_path(&path, repository_root) || same_path(&path, common_git_dir) {
        return Err(
            invalid_request(
                "a repository root or common Git directory cannot be a linked worktree path",
            ),
        );
    }
    Ok(path)
}

/// The first listed worktree that stands where a path leads.
pub open spec fn worktree_there(
    worktrees: Seq<ListedWorktreeView>,
    resolved_path: Seq<char>,
) -> Option<ListedWorktreeView> {
    first_match(
        worktrees,
        |item: ListedWorktreeView| same_steps(item.resolved_path, resolved_path),
    )
}

/// Finds the listed worktree that stands where a path leads.
pub fn find_worktree(worktrees: &Vec<ListedWorktree>, resolved_path: &str) -> (found: Option<usize>)
    ensures
        match found {
            Some(i) => i < worktrees@.len() && worktree_there(views(worktrees@), resolved_path@)
                == Some(worktrees@[i as int]@),
            None => worktree_there(views(worktrees@), resolved_path@) is None,
        },
{
    let test = |item: &ListedWorktree| -> (answer: bool)
        ensures
            answer == same_steps(item@.resolved_path, resolved_path@),
        {
            same_path(&item.resolved_path, resolved_path)
        };
    find_row(
        worktrees,
        test,
        Ghost(|item: ListedWorktreeView| same_steps(item.resolved_path, resolved_path@)),
    )
}

} // verus!

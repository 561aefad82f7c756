//! Which requests are refused, and where worktrees may stand.

use crate::git::worktree::GitWorktree;
use crate::git::worktree::GitWorktreeView;
use crate::inventory::table::first_match;
use crate::inventory::table::lemma_first_match;
use crate::paths::components;
use crate::paths::joined;
use crate::paths::last_name;
use crate::paths::same_steps;
use crate::places::is_name;
use crate::places::is_tidy;
use crate::places::lemma_parts_of_joined;
use crate::service::error::ServiceError;
use crate::service::rules::candidate_path;
use crate::service::rules::default_worktree_path;
use crate::service::rules::plain_name;
use crate::service::rules::requested_path;
use crate::service::rules::validate_cleanup_age;
use crate::service::rules::validate_create_request;
use crate::service::rules::validate_session_request;
use crate::service::state::primary_root;
use crate::service::types::CreateRequest;
use crate::service::types::RegisterSessionRequest;
use crate::text::views;
use crate::wording::all_space;
use crate::wording::lemma_all_space;
use vstd::prelude::*;

verus! {

/// Whether Git could take a text for an option, or would cut it short.
pub open spec fn is_unsafe_word(word: Seq<char>) -> bool {
    (word.len() > 0 && word[0] == '-') || word.contains('\0')
}

/// A request to create a worktree is refused exactly if its branch is blank, if its branch
/// or its base begins with a dash or holds a NUL, or if its key is empty or holds a NUL.
pub proof fn creation_is_refused_exactly(request: &CreateRequest, result: Result<(), ServiceError>)
    requires
        call_ensures(validate_create_request, (request,), result),
    ensures
        result is Err <==> all_space(request.branch@) || is_unsafe_word(request.branch@) || (
        request.base is Some && is_unsafe_word(request.base->0@)) || (request.idempotency_key
            is Some && (request.idempotency_key->0@.len() == 0
            || request.idempotency_key->0@.contains('\0'))),
{
    lemma_all_space(request.branch@);
}

/// A session is refused exactly if its name or its provider is blank or holds a NUL, if
/// what else is told of it holds a NUL, or if a time for a lease or a process is given
/// that is not positive.
pub proof fn session_is_refused_exactly(
    request: &RegisterSessionRequest,
    result: Result<(), ServiceError>,
)
    requires
        call_ensures(validate_session_request, (request,), result),
    ensures
        result is Err <==> all_space(request.session_id@) || request.session_id@.contains('\0')
            || all_space(request.provider@) || request.provider@.contains('\0') || (
        request.provider_session_id is Some && request.provider_session_id->0@.contains('\0')) || (
        request.terminal_metadata is Some && request.terminal_metadata->0@.contains('\0')) || (
        request.lease_ttl_seconds is Some && request.lease_ttl_seconds->0 <= 0) || (request.pid
            is Some && request.pid->0 <= 0),
{
    lemma_all_space(request.session_id@);
    lemma_all_space(request.provider@);
}

/// A minimum age is refused exactly if it is negative.
pub proof fn age_is_refused_exactly(age: i64, result: Result<(), ServiceError>)
    requires
        call_ensures(validate_cleanup_age, (age,), result),
    ensures
        result is Err <==> age < 0,
{
}

/// A worktree may be created only directly beside the repository, under the name that was
/// asked for, and never in place of the repository or of its Git directory.
pub proof fn worktrees_stand_beside_the_repository(
    repository_root: &str,
    common_git_dir: &str,
    candidate: &str,
    directory: &str,
    allowed: &str,
    result: Result<String, ServiceError>,
)
    requires
        call_ensures(
            requested_path,
            (repository_root, common_git_dir, candidate, directory, allowed),
            result,
        ),
    ensures
        !same_steps(directory@, allowed@) ==> result is Err,
        last_name(components(candidate@)) is None ==> result is Err,
        result matches Ok(path) ==> {
            &&& same_steps(directory@, allowed@)
            &&& !same_steps(path@, repository_root@)
            &&& !same_steps(path@, common_git_dir@)
            &&& last_name(components(candidate@)) matches Some(name) && path@
                == joined(directory@, name)
        },
        result is Err ==> !same_steps(directory@, allowed@) || last_name(components(candidate@))
            is None || same_steps(
            joined(directory@, last_name(components(candidate@))->0),
            repository_root@,
        ) || same_steps(
            joined(directory@, last_name(components(candidate@))->0),
            common_git_dir@,
        ),
{
}

/// A path that is asked for is used as it is where it begins at the root. Where none is
/// asked for, the worktree stands in the directory of the repository, and its name is that
/// of the repository, a dash, and the branch with every character that is neither a letter,
/// a digit nor one of three marks replaced by a dash.
pub proof fn path_is_the_one_asked_for(
    repository_root: &str,
    parent_path: Seq<char>,
    name: Seq<char>,
    branch: &str,
    request: &CreateRequest,
    fallback: String,
    path: String,
)
    requires
        is_name(name),
        is_tidy(parent_path),
        repository_root@ == parent_path.push('/') + name,
        branch@ == request.branch@,
        call_ensures(default_worktree_path, (repository_root, branch), fallback),
        call_ensures(candidate_path, (repository_root, request), path),
    ensures
        request.path matches Some(wanted) ==> wanted@.len() > 0 && wanted@[0] == '/' ==> path@
            == wanted@,
        request.path matches Some(wanted) ==> !(wanted@.len() > 0 && wanted@[0] == '/') ==> path@
            == repository_root@ + "/"@ + wanted@,
        fallback@.len() == repository_root@.len() + 1 + branch@.len(),
        fallback@.take(repository_root@.len() as int) == repository_root@,
        fallback@[repository_root@.len() as int] == '-',
        forall|i: int|
            0 <= i < branch@.len() ==> {
                let given = #[trigger] branch@[i];
                let kept = fallback@[repository_root@.len() + 1 + i];
                let plain = ('0' as u32) <= (given as u32) <= ('9' as u32) || ('A' as u32) <= (
                given as u32) <= ('Z' as u32) || ('a' as u32) <= (given as u32) <= ('z' as u32)
                    || given == '-' || given == '_' || given == '.';
                &&& plain ==> kept == given
                &&& !plain ==> kept == '-'
            },
        request.path is None && parent_path[0] == '/' ==> path@ == fallback@,
{
    reveal_strlit("-");
    reveal_strlit("/");
    assert("-"@ =~= seq!['-']);
    assert("/"@ =~= seq!['/']);
    lemma_parts_of_joined(parent_path, name);
    let tail = name + "-"@ + plain_name(branch@);
    assert(tail[0] == name[0]);
    assert(name[0] != '/');
    assert(parent_path + "/"@ =~= parent_path.push('/'));
    assert(fallback@ =~= repository_root@ + "-"@ + plain_name(branch@));
    assert(fallback@.take(repository_root@.len() as int) =~= repository_root@);
    assert(repository_root@.last() == name[name.len() - 1]);
    assert(fallback@[0] == parent_path[0]);
}

/// The repository itself is the first worktree that has files and is there; where there is
/// none, it is the root that was found.
pub proof fn repository_is_the_first_worktree(
    root: &str,
    worktrees: &Vec<GitWorktree>,
    path: String,
)
    requires
        call_ensures(primary_root, (root, worktrees), path),
    ensures
        worktrees@.len() > 0 && !worktrees@[0].bare && !worktrees@[0].prunable ==> path@
            == worktrees@[0].path@,
        (forall|i: int|
            0 <= i < worktrees@.len() ==> (#[trigger] worktrees@[i]).bare || worktrees@[i].prunable)
            ==> path@ == root@,
        path@ == root@ || exists|i: int|
            0 <= i < worktrees@.len() && (#[trigger] worktrees@[i]).path@ == path@
                && !worktrees@[i].bare && !worktrees@[i].prunable,
{
    let rows = views(worktrees@);
    let fit = |item: GitWorktreeView| !item.bare && !item.prunable;
    lemma_first_match(rows, fit);
    if let Some(found) = first_match(rows, fit) {
        let i = choose|i: int|
            0 <= i < rows.len() && rows[i] == found && forall|j: int|
                0 <= j < i ==> !fit(#[trigger] rows[j]);
        assert(worktrees@[i].path@ == found.path);
        assert(!worktrees@[i].bare && !worktrees@[i].prunable);
        if worktrees@.len() > 0 && !worktrees@[0].bare && !worktrees@[0].prunable {
            assert(fit(rows[0]));
            assert(i == 0);
        }
    } else if worktrees@.len() > 0 {
        assert(!fit(rows[0]));
    }
}

} // verus!

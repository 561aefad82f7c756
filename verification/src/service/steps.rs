//! What the steps of an operation hand on, told in what was asked for.

use crate::git::error::GitError;
use crate::git::error::GitErrorView;
use crate::git::meaning::is_ascii;
use crate::git::meaning::lemma_ascii;
use crate::git::reads::CommandOutput;
use crate::git::reads::CommandOutputView;
use crate::inventory::records::LeaseRecordView;
use crate::inventory::records::text_fault;
use crate::inventory::records::WorktreeRecordView;
use crate::inventory::table::lemma_first_match;
use crate::inventory::worktrees::ListedWorktreeView;
use crate::paths::same_steps;
use crate::service::cleanup::ObservationView;
use crate::service::commands::add_args;
use crate::service::commands::branch_ref_args;
use crate::service::commands::delete_branch_args;
use crate::service::commands::local_branch_exists;
use crate::service::commands::lock_args;
use crate::service::commands::remove_args;
use crate::service::commands::run_git;
use crate::service::create::CreateStepView;
use crate::service::create::PendingCreateView;
use crate::service::create::worktree_on;
use crate::service::error::ServiceErrorView;
use crate::service::judgement::lemma_eligible;
use crate::service::judgement::saturated;
use crate::service::lock::LockStepView;
use crate::service::lock::PendingLockView;
use crate::service::remove::BranchDeletionView;
use crate::service::remove::BranchRetryView;
use crate::service::remove::BranchStepView;
use crate::service::remove::RemovalView;
use crate::service::remove::RemoveStepView;
use crate::service::rules::worktree_there;
use crate::service::state::record_at;
use crate::service::state::ServiceView;
use crate::service::types::CreateRequestView;
use crate::service::types::PlaceView;
use crate::text::views;
use vstd::prelude::*;

verus! {

// ---------------------------------------------------------------------------
// The words of the commands
// ---------------------------------------------------------------------------

proof fn lemma_lock_words()
    ensures
        "lock"@ != "unlock"@,
        "--reason"@ != "--"@,
        "--reason"@ != "lock"@,
        "--reason"@ != "unlock"@,
        "--reason"@ != "worktree"@,
{
    reveal_strlit("lock");
    reveal_strlit("unlock");
    reveal_strlit("--reason");
    reveal_strlit("--");
    reveal_strlit("worktree");
    assert("lock"@.len() == 4);
    assert("unlock"@.len() == 6);
    assert("--"@.len() == 2);
    assert("--reason"@.len() == 8);
    assert("--reason"@[0] == '-');
    assert("worktree"@[0] == 'w');
}

/// Git is told to add a worktree with a new branch of the given name at the given path.
/// Where a base is given, the last word of the command is exactly that base; where none
/// is, the command ends with the path.
pub proof fn new_worktree_starts_at_its_base(
    branch: &str,
    path: &str,
    base: Option<&str>,
    args: Vec<String>,
)
    requires
        call_ensures(add_args, (branch, path, base), args),
    ensures
        base is Some ==> args@.last()@ == base->0@ && args@.len() == 7,
        base is None ==> args@.last()@ == path@ && args@.len() == 6,
        args@[0]@ == "worktree"@,
        args@[1]@ == "add"@,
        args@[2]@ == "-b"@,
        args@[3]@ == branch@,
        args@[4]@ == "--"@,
        args@[5]@ == path@,
{
    let words = views(args@);
    assert(words.len() == args@.len());
    assert forall|i: int| 0 <= i < words.len() implies (#[trigger] args@[i])@ == words[i] by {}
}

/// The Git command of a pending creation makes the branch that was asked for at the path
/// that was asked for. Its last word is the base, where one is given, and else the path.
pub proof fn pending_creation_starts_at_its_base(
    service: ServiceView,
    request: CreateRequestView,
    target: PlaceView,
    worktrees: Seq<ListedWorktreeView>,
    target_exists: bool,
    now: i64,
)
    ensures
        service.create(request, target, worktrees, target_exists, now).1 matches Ok(
            CreateStepView::RunGit(pending),
        ) ==> {
            &&& request.base is Some ==> pending.args.last() == request.base->0
                && pending.args.len() == 7
            &&& request.base is None ==> pending.args.last() == target.path && pending.args.len()
                == 6
            &&& pending.args[0] == "worktree"@
            &&& pending.args[1] == "add"@
            &&& pending.args[2] == "-b"@
            &&& pending.args[3] == request.branch
            &&& pending.args[4] == "--"@
            &&& pending.args[5] == target.path
            &&& pending.branch == request.branch
            &&& pending.actor == request.actor
            &&& pending.target == target
        },
{
}

/// Git is told to lock a worktree whenever that was asked for, with or without a reason,
/// and to unlock it exactly if that was asked for. A reason stands behind its option
/// exactly if one was given for a lock. The last word is the path of the worktree.
pub proof fn lock_command_does_what_was_asked(
    lock: bool,
    reason: Option<&str>,
    path: &str,
    args: Vec<String>,
)
    requires
        call_ensures(lock_args, (lock, reason, path), args),
    ensures
        args@.len() >= 4,
        args@[0]@ == "worktree"@,
        args@[1]@ == "lock"@ <==> lock,
        args@[1]@ == "unlock"@ <==> !lock,
        args@[2]@ == "--reason"@ <==> lock && reason is Some,
        lock && reason is Some ==> args@.len() == 6 && args@[3]@ == reason->0@,
        !(lock && reason is Some) ==> args@.len() == 4,
        args@[args@.len() - 2]@ == "--"@,
        args@.last()@ == path@,
{
    lemma_lock_words();
    let words = views(args@);
    assert(words.len() == args@.len());
    assert forall|i: int| 0 <= i < words.len() implies (#[trigger] args@[i])@ == words[i] by {}
}

/// The Git command of a pending lock locks the worktree if that was asked for and unlocks
/// it if that was. The reason that was given stands behind its option.
pub proof fn pending_lock_does_what_was_asked(
    service: ServiceView,
    requested: PlaceView,
    reason: Option<Seq<char>>,
    lock: bool,
    actor: Seq<char>,
    worktrees: Seq<ListedWorktreeView>,
    now: i64,
)
    ensures
        service.set_lock(requested, reason, lock, actor, worktrees, now).1 matches Ok(
            LockStepView::RunGit(pending),
        ) ==> {
            &&& pending.args.len() >= 4
            &&& pending.args[0] == "worktree"@
            &&& pending.args[1] == "lock"@ <==> lock
            &&& pending.args[1] == "unlock"@ <==> !lock
            &&& pending.args[2] == "--reason"@ <==> lock && reason is Some
            &&& lock && reason is Some ==> pending.args.len() == 6 && pending.args[3] == reason->0
            &&& !(lock && reason is Some) ==> pending.args.len() == 4
            &&& pending.args[pending.args.len() - 2] == "--"@
            &&& pending.args.last() == pending.path
            &&& pending.lock == lock
            &&& pending.reason == reason
            &&& pending.actor == actor
            &&& pending.requested == requested
        },
{
    lemma_lock_words();
}

/// Removing a worktree names its path and nothing else behind the options; deleting a
/// branch and asking for one name the branch.
pub proof fn removal_commands_name_their_object(
    path: &str,
    branch: &str,
    removal: Vec<String>,
    deletion: Vec<String>,
    question: Vec<String>,
)
    requires
        call_ensures(remove_args, (path,), removal),
        call_ensures(delete_branch_args, (branch,), deletion),
        call_ensures(branch_ref_args, (branch,), question),
    ensures
        views(removal@) == seq!["worktree"@, "remove"@, "--"@, path@],
        views(deletion@) == seq!["branch"@, "-d"@, "--"@, branch@],
        question@.len() == 5,
        question@[0]@ == "show-ref"@,
        question@[1]@ == "--verify"@,
        question@.last()@ == "refs/heads/"@ + branch@,
{
    let words = views(question@);
    assert(words.len() == question@.len());
    assert forall|i: int| 0 <= i < words.len() implies (#[trigger] question@[i])@ == words[i] by {}
}

/// An attempt to change the repository succeeds exactly if Git ran and ended with zero.
pub proof fn attempt_succeeds_with_zero(
    args: &Vec<String>,
    attempt: Result<CommandOutput, GitError>,
    result: Result<(), GitError>,
)
    requires
        call_ensures(run_git, (args, attempt), result),
    ensures
        result is Ok <==> attempt is Ok && attempt->Ok_0.code == Some(0i32),
        attempt is Err ==> result is Err && result->Err_0@ == attempt->Err_0@,
{
}

/// A branch exists exactly if Git ended with zero, and does not exist exactly if Git ended
/// with one. Any other end is an error.
pub proof fn branch_exists_with_zero(
    branch: &str,
    attempt: Result<CommandOutput, GitError>,
    result: Result<bool, GitError>,
)
    requires
        call_ensures(local_branch_exists, (branch, attempt), result),
    ensures
        result is Ok && result->Ok_0 <==> attempt is Ok && attempt->Ok_0.code == Some(0i32),
        result is Ok && !result->Ok_0 <==> attempt is Ok && attempt->Ok_0.code == Some(1i32),
        attempt is Err ==> result is Err && result->Err_0@ == attempt->Err_0@,
{
}

// ---------------------------------------------------------------------------
// Removing
// ---------------------------------------------------------------------------

proof fn lemma_removal_facts(
    service: ServiceView,
    removal: RemovalView,
    seen: ObservationView,
    now: i64,
)
    requires
        service.removal_assessment(removal, seen, now).classification == "eligible"@,
    ensures
        !same_steps(seen.listed.worktree.path, service.primary_root),
        !seen.listed.worktree.prunable,
        seen.listed.is_directory,
        !seen.listed.worktree.locked,
        seen.processes is Ok,
        seen.processes->Ok_0.len() == 0,
        forall|k: int|
            0 <= k < service.inventory.leases.len() ==> !((
            #[trigger] service.inventory.leases[k]).worktree_id == removal.record.id
                && service.inventory.leases[k].state == "active"@
                && service.inventory.leases[k].expires_at > now),
        removal.record.created_at is Some ==> saturated(now - removal.record.created_at->0)
            >= removal.minimum_age,
        removal.record.created_at is None ==> saturated(now - removal.record.first_seen_at)
            >= removal.minimum_age,
        seen.status.observation_error is None,
        seen.status.data.changes.staged == 0,
        seen.status.data.changes.unstaged == 0,
        seen.status.data.changes.untracked == 0,
        seen.status.data.changes.conflicted == 0,
        seen.status.data.merge.unique_commits == Some(0u32),
        seen.status.data.merge.merged_locally == Some(true),
        seen.status.data.merge.remote_integration_branch is Some
            ==> seen.status.data.merge.merged_remotely == Some(true),
{
    let all = service.circumstances(seen, Some(removal.record), now, removal.minimum_age);
    lemma_eligible(all);
    lemma_first_match(
        service.inventory.leases,
        |row: LeaseRecordView|
            row.worktree_id == removal.record.id && row.state == "active"@ && row.expires_at > now,
    );
}

/// A removal starts only on a worktree that is not the repository itself, is there, is not
/// locked, in which no process works, on which no session holds a lease that has not run
/// out, and that is known for at least the minimum age: since its creation or, where that
/// is not known, since it was first seen. Nothing in it is staged, unstaged, untracked or
/// conflicted, it has no commits of its own, and it is merged wherever it can be.
pub proof fn removal_starts_only_where_nothing_is_lost(
    service: ServiceView,
    removal: RemovalView,
    seen: ObservationView,
    now: i64,
)
    ensures
        service.remove_start(removal, seen, now).1 is Ok ==> {
            &&& !same_steps(seen.listed.worktree.path, service.primary_root)
            &&& !seen.listed.worktree.prunable
            &&& seen.listed.is_directory
            &&& !seen.listed.worktree.locked
            &&& seen.processes is Ok
            &&& seen.processes->Ok_0.len() == 0
            &&& (
                forall|k: int| 0 <= k < service.inventory.leases.len() ==> !(
                    (#[trigger] service.inventory.leases[k]).worktree_id == removal.record.id
                        && service.inventory.leases[k].state == "active"@
                        && service.inventory.leases[k].expires_at > now
                )
            )
            &&& removal.record.created_at is Some
                ==> saturated(now - removal.record.created_at->0) >= removal.minimum_age
            &&& removal.record.created_at is None
                ==> saturated(now - removal.record.first_seen_at) >= removal.minimum_age
            &&& seen.status.observation_error is None
            &&& seen.status.data.changes.staged == 0
            &&& seen.status.data.changes.unstaged == 0
            &&& seen.status.data.changes.untracked == 0
            &&& seen.status.data.changes.conflicted == 0
            &&& seen.status.data.merge.unique_commits == Some(0u32)
            &&& seen.status.data.merge.merged_locally == Some(true)
            &&& seen.status.data.merge.remote_integration_branch is Some
                ==> seen.status.data.merge.merged_remotely == Some(true)
        },
{
    if service.remove_start(removal, seen, now).1 is Ok {
        lemma_removal_facts(service, removal, seen, now);
    }
}

/// Git is told to remove a worktree only if all that has to hold when a removal starts
/// still holds, and the command names that worktree.
pub proof fn removal_goes_on_only_where_nothing_is_lost(
    service: ServiceView,
    removal: RemovalView,
    seen: ObservationView,
    now: i64,
)
    ensures
        service.remove_confirm(removal, seen, now).1 matches Ok(args) ==> {
            &&& args == seq!["worktree"@, "remove"@, "--"@, removal.listed.worktree.path]
            &&& !same_steps(seen.listed.worktree.path, service.primary_root)
            &&& !seen.listed.worktree.prunable
            &&& seen.listed.is_directory
            &&& !seen.listed.worktree.locked
            &&& seen.processes is Ok
            &&& seen.processes->Ok_0.len() == 0
            &&& (
                forall|k: int| 0 <= k < service.inventory.leases.len() ==> !(
                    (#[trigger] service.inventory.leases[k]).worktree_id == removal.record.id
                        && service.inventory.leases[k].state == "active"@
                        && service.inventory.leases[k].expires_at > now
                )
            )
            &&& removal.record.created_at is Some
                ==> saturated(now - removal.record.created_at->0) >= removal.minimum_age
            &&& removal.record.created_at is None
                ==> saturated(now - removal.record.first_seen_at) >= removal.minimum_age
            &&& seen.status.observation_error is None
            &&& seen.status.data.changes.staged == 0
            &&& seen.status.data.changes.unstaged == 0
            &&& seen.status.data.changes.untracked == 0
            &&& seen.status.data.changes.conflicted == 0
            &&& seen.status.data.merge.unique_commits == Some(0u32)
            &&& seen.status.data.merge.merged_locally == Some(true)
            &&& seen.status.data.merge.remote_integration_branch is Some
                ==> seen.status.data.merge.merged_remotely == Some(true)
        },
        service.remove_confirm(removal, seen, now).1 is Ok ==> service.remove_confirm(
            removal,
            seen,
            now,
        ).0 == service.inventory,
{
    if service.remove_confirm(removal, seen, now).1 is Ok {
        lemma_removal_facts(service, removal, seen, now);
    }
}

// ---------------------------------------------------------------------------
// What the steps come to
// ---------------------------------------------------------------------------

pub proof fn lemma_there(worktrees: Seq<ListedWorktreeView>, path: Seq<char>)
    ensures
        match worktree_there(worktrees, path) {
            Some(item) => worktrees.contains(item) && same_steps(item.resolved_path, path),
            None => forall|i: int|
                0 <= i < worktrees.len() ==> !same_steps(
                    (#[trigger] worktrees[i]).resolved_path,
                    path,
                ),
        },
{
    lemma_first_match(
        worktrees,
        |item: ListedWorktreeView| same_steps(item.resolved_path, path),
    );
}

proof fn lemma_on(worktrees: Seq<ListedWorktreeView>, branch: Seq<char>)
    ensures
        match worktree_on(worktrees, branch) {
            Some(item) => worktrees.contains(item) && item.worktree.branch == Some(branch),
            None => forall|i: int|
                0 <= i < worktrees.len() ==> (#[trigger] worktrees[i]).worktree.branch != Some(
                    branch,
                ),
        },
{
    lemma_first_match(
        worktrees,
        |item: ListedWorktreeView| item.worktree.branch == Some(branch),
    );
}

pub proof fn lemma_record(records: Seq<WorktreeRecordView>, path: Seq<char>)
    ensures
        match record_at(records, path) {
            Some(row) => records.contains(row) && row.path == path,
            None => forall|i: int| 0 <= i < records.len() ==> (#[trigger] records[i]).path != path,
        },
{
    lemma_first_match(records, |row: WorktreeRecordView| row.path == path);
}

/// A creation runs Git only where no listed worktree stands at the path or has the branch
/// checked out, and nothing else stands at the path. A creation that is done without Git
/// comes to a worktree that Git lists at that path, and says that it was there before.
pub proof fn creation_looks_at_what_is_listed(
    service: ServiceView,
    request: CreateRequestView,
    target: PlaceView,
    worktrees: Seq<ListedWorktreeView>,
    target_exists: bool,
    now: i64,
)
    ensures
        match service.create(request, target, worktrees, target_exists, now).1 {
            Ok(CreateStepView::RunGit(pending)) => {
                &&& !target_exists
                &&& forall|i: int|
                    0 <= i < worktrees.len() ==> !same_steps(
                        (#[trigger] worktrees[i]).resolved_path,
                        target.resolved_path,
                    ) && worktrees[i].worktree.branch != Some(request.branch)
            },
            Ok(CreateStepView::Done(result)) => {
                &&& result.already_existed
                &&& result.record.path == target.path
                &&& exists|i: int|
                    0 <= i < worktrees.len() && (#[trigger] worktrees[i]).worktree
                        == result.worktree && same_steps(
                        worktrees[i].resolved_path,
                        target.resolved_path,
                    )
            },
            Err(_) => true,
        },
{
    lemma_there(worktrees, target.resolved_path);
    lemma_on(worktrees, request.branch);
    if let (current, Ok((repository, _))) = service.refresh(worktrees, now) {
        if let Ok((reserved, reservation)) = current.reserve_creation(
            repository.id,
            target.path,
            request.branch,
            request.idempotency_key,
            now,
        ) {
            let held = service.with_inventory(reserved);
            if let (_, Ok((_, records))) = held.refresh(worktrees, now) {
                lemma_record(records, target.path);
            }
            if let Some(listed) = worktree_there(worktrees, target.resolved_path) {
                let i = choose|i: int| 0 <= i < worktrees.len() && worktrees[i] == listed;
                assert(worktrees[i].worktree == listed.worktree);
            }
        }
    }
}

/// A request that does not say what it must is refused before anything is changed.
pub proof fn faulty_creation_changes_nothing(
    service: ServiceView,
    request: CreateRequestView,
    target: PlaceView,
    worktrees: Seq<ListedWorktreeView>,
    target_exists: bool,
    now: i64,
)
    requires
        request.branch.len() == 0,
    ensures
        service.create(request, target, worktrees, target_exists, now).1 is Err,
        service.create(request, target, worktrees, target_exists, now).0 == service.inventory,
{
}

/// Git ended a creation with zero, or it failed. A creation that failed says why, and its
/// path and branch are no longer set aside for it.
pub proof fn failed_creation_gives_up_its_place(
    service: ServiceView,
    pending: PendingCreateView,
    attempt: Result<CommandOutputView, GitErrorView>,
    now: i64,
)
    ensures
        service.create_after_git(pending, attempt, now).1 is Ok <==> attempt is Ok
            && attempt->Ok_0.code == Some(0i32),
        service.create_after_git(pending, attempt, now).1 is Ok ==> service.create_after_git(
            pending,
            attempt,
            now,
        ).0 == service.inventory,
        attempt matches Err(error) ==> service.create_after_git(pending, attempt, now).1 == Err::<
            (),
            ServiceErrorView,
        >(ServiceErrorView::Git(error)),
        service.create_after_git(pending, attempt, now).1 is Err ==> {
            let after = service.create_after_git(pending, attempt, now).0;
            forall|i: int|
                0 <= i < after.reservations.len() && (#[trigger] after.reservations[i]).id
                    == pending.reservation_id ==> after.reservations[i].state == "failed"@
                    && after.reservations[i].completed_at == Some(now)
        },
{
    lemma_state_words();
}

proof fn lemma_state_words()
    ensures
        "failed"@ != "pending"@,
        "failed"@ != "succeeded"@,
        "released"@ != "pending"@,
        "released"@ != "succeeded"@,
        "pending"@ != "succeeded"@,
        text_fault("failed"@) is None,
{
    reveal_strlit("failed");
    reveal_strlit("pending");
    reveal_strlit("succeeded");
    reveal_strlit("released");
    assert("failed"@.len() == 6);
    assert("pending"@.len() == 7);
    assert("succeeded"@.len() == 9);
    assert("released"@.len() == 8);
    let word = "failed"@;
    assert(word[0] == 'f' && word[1] == 'a' && word[2] == 'i' && word[3] == 'l' && word[4] == 'e'
        && word[5] == 'd');
    assert(is_ascii(word));
    lemma_ascii(word);
    assert(!word.contains(0u32 as char));
}

/// A creation is complete only if Git lists a worktree at its path with its branch checked
/// out. Its result is that worktree, said to be new; its reservation is fulfilled with the
/// row of the worktree, and that row says that it was created now.
pub proof fn created_worktree_is_the_listed_one(
    service: ServiceView,
    pending: PendingCreateView,
    worktrees: Seq<ListedWorktreeView>,
    now: i64,
)
    ensures
        service.create_finish(pending, worktrees, now) matches (after, Ok(result)) ==> {
            &&& !result.already_existed
            &&& result.worktree.branch == Some(pending.branch)
            &&& result.record.path == pending.target.path
            &&& exists|i: int|
                0 <= i < worktrees.len() && (#[trigger] worktrees[i]).worktree == result.worktree
                    && same_steps(worktrees[i].resolved_path, pending.target.resolved_path)
            &&& forall|i: int|
                0 <= i < after.reservations.len() && (#[trigger] after.reservations[i]).id
                    == pending.reservation_id ==> after.reservations[i].state == "succeeded"@
                    && after.reservations[i].worktree_id == Some(result.record.id)
                    && after.reservations[i].completed_at == Some(now)
            &&& forall|i: int|
                0 <= i < after.worktrees.len() && (#[trigger] after.worktrees[i]).id
                    == result.record.id ==> after.worktrees[i].created_at == Some(now)
                    && after.worktrees[i].lifecycle_state == "active"@
            &&& after.events.last().worktree_id == Some(result.record.id)
            &&& after.events.last().occurred_at == now
        },
{
    lemma_there(worktrees, pending.target.resolved_path);
    if let Some(listed) = worktree_there(worktrees, pending.target.resolved_path) {
        let i = choose|i: int| 0 <= i < worktrees.len() && worktrees[i] == listed;
        assert(worktrees[i].worktree == listed.worktree);
    }
    if let (current, Ok((_, records))) = service.refresh(worktrees, now) {
        lemma_record(records, pending.target.path);
    }
}

/// A lock or its end is done without Git exactly if the worktree that Git lists there is
/// in the requested state already; otherwise Git is told to bring it into that state. A
/// worktree that Git does not list is not found. What is done without Git changes nothing.
pub proof fn lock_runs_only_where_needed(
    service: ServiceView,
    requested: PlaceView,
    reason: Option<Seq<char>>,
    lock: bool,
    actor: Seq<char>,
    worktrees: Seq<ListedWorktreeView>,
    now: i64,
)
    ensures
        match service.set_lock(requested, reason, lock, actor, worktrees, now) {
            (after, Ok(LockStepView::Done(result))) => {
                &&& after == service.inventory
                &&& result.already_in_requested_state
                &&& result.worktree.locked == lock
                &&& exists|i: int|
                    0 <= i < worktrees.len() && (#[trigger] worktrees[i]).worktree
                        == result.worktree && same_steps(
                        worktrees[i].resolved_path,
                        requested.resolved_path,
                    )
            },
            (after, Ok(LockStepView::RunGit(pending))) => {
                &&& exists|i: int|
                    0 <= i < worktrees.len() && (#[trigger] worktrees[i]).worktree.path
                        == pending.path && worktrees[i].worktree.locked != lock && same_steps(
                        worktrees[i].resolved_path,
                        requested.resolved_path,
                    )
                &&& after.events.len() > 0
                &&& after.events.last().action == (if lock {
                    "lock_worktree"@
                } else {
                    "unlock_worktree"@
                })
            },
            (after, Err(_)) => true,
        },
        (forall|i: int|
            0 <= i < worktrees.len() ==> !same_steps(
                (#[trigger] worktrees[i]).resolved_path,
                requested.resolved_path,
            )) ==> service.set_lock(requested, reason, lock, actor, worktrees, now) == (
            service.inventory,
            Err::<LockStepView, ServiceErrorView>(ServiceErrorView::NotFound(requested.path)),
        ),
{
    lemma_there(worktrees, requested.resolved_path);
    if let Some(listed) = worktree_there(worktrees, requested.resolved_path) {
        let i = choose|i: int| 0 <= i < worktrees.len() && worktrees[i] == listed;
        assert(worktrees[i].worktree == listed.worktree);
        assert(same_steps(worktrees[i].resolved_path, requested.resolved_path));
    }
}

/// A lock or its end that Git carried out comes to the worktree as Git lists it then, and
/// an attempt that failed is an error.
pub proof fn lock_ends_with_what_is_listed(
    service: ServiceView,
    pending: PendingLockView,
    attempt: Result<CommandOutputView, GitErrorView>,
    worktrees: Seq<ListedWorktreeView>,
    now: i64,
)
    ensures
        service.lock_after_git(pending, attempt, now).1 is Ok <==> attempt is Ok
            && attempt->Ok_0.code == Some(0i32),
        service.lock_after_git(pending, attempt, now).1 is Ok ==> service.lock_after_git(
            pending,
            attempt,
            now,
        ).0 == service.inventory,
        service.lock_finish(pending, worktrees, now).1 matches Ok(result) ==> {
            &&& !result.already_in_requested_state
            &&& exists|i: int|
                0 <= i < worktrees.len() && (#[trigger] worktrees[i]).worktree == result.worktree
                    && same_steps(worktrees[i].resolved_path, pending.requested.resolved_path)
        },
{
    lemma_there(worktrees, pending.requested.resolved_path);
    if let Some(listed) = worktree_there(worktrees, pending.requested.resolved_path) {
        let i = choose|i: int| 0 <= i < worktrees.len() && worktrees[i] == listed;
        assert(worktrees[i].worktree == listed.worktree);
    }
}

/// A removal looks at the worktree that Git lists at the requested path, with its row, and
/// hands on what was asked for. A negative age is refused before anything is changed.
pub proof fn removal_hands_on_what_was_asked(
    service: ServiceView,
    requested: PlaceView,
    delete_branch: bool,
    actor: Seq<char>,
    minimum_age: i64,
    worktrees: Seq<ListedWorktreeView>,
    now: i64,
)
    ensures
        service.remove(requested, delete_branch, actor, minimum_age, worktrees, now).1 matches Ok(
            RemoveStepView::Inspect(removal),
        ) ==> {
            &&& worktrees.contains(removal.listed)
            &&& same_steps(removal.listed.resolved_path, requested.resolved_path)
            &&& removal.record.path == removal.listed.worktree.path
            &&& removal.requested == requested
            &&& removal.delete_branch == delete_branch
            &&& removal.actor == actor
            &&& removal.minimum_age == minimum_age
            &&& minimum_age >= 0
        },
        service.remove(requested, delete_branch, actor, minimum_age, worktrees, now).1 matches Ok(
            RemoveStepView::CheckBranch(retry),
        ) ==> {
            &&& delete_branch
            &&& retry.path == requested.path
            &&& retry.actor == actor
            &&& retry.args == seq![
                "show-ref"@,
                "--verify"@,
                "--quiet"@,
                "--"@,
                "refs/heads/"@ + retry.branch,
            ]
        },
        minimum_age < 0 ==> service.remove(
            requested,
            delete_branch,
            actor,
            minimum_age,
            worktrees,
            now,
        ).1 is Err && service.remove(
            requested,
            delete_branch,
            actor,
            minimum_age,
            worktrees,
            now,
        ).0 == service.inventory,
{
    lemma_there(worktrees, requested.resolved_path);
    if let (current, Ok((_, records))) = service.refresh(worktrees, now) {
        if let Some(listed) = worktree_there(worktrees, requested.resolved_path) {
            lemma_record(records, listed.worktree.path);
        }
    }
}

/// A removal goes on only with the worktree that it started with: the same path, the same
/// branch and the same commit.
pub proof fn changed_worktree_is_not_removed(
    service: ServiceView,
    removal: RemovalView,
    worktrees: Seq<ListedWorktreeView>,
    now: i64,
)
    ensures
        service.remove_recheck(removal, worktrees, now).1 matches Ok(listed) ==> {
            &&& worktrees.contains(listed)
            &&& same_steps(listed.resolved_path, removal.requested.resolved_path)
            &&& listed.worktree.branch == removal.listed.worktree.branch
            &&& listed.worktree.head == removal.listed.worktree.head
        },
{
    lemma_there(worktrees, removal.requested.resolved_path);
}

/// Once Git has removed a worktree, its row says so, its reservation is given up, and the
/// result names it. Its branch is deleted by a command that names it, and reported as
/// deleted only if Git ended that with zero.
pub proof fn removed_worktree_is_gone(
    service: ServiceView,
    removal: RemovalView,
    attempt: Result<CommandOutputView, GitErrorView>,
    deletion: BranchDeletionView,
    now: i64,
)
    ensures
        service.remove_after_git(removal, attempt, now) matches (after, Ok(step)) ==> {
            &&& attempt is Ok && attempt->Ok_0.code == Some(0i32)
            &&& forall|i: int|
                0 <= i < after.worktrees.len() && (#[trigger] after.worktrees[i]).repository_id
                    == removal.repository_id && after.worktrees[i].path
                    == removal.listed.worktree.path ==> after.worktrees[i].lifecycle_state
                    == "removed"@ && after.worktrees[i].removed_at == Some(now)
            &&& step matches BranchStepView::Done(result) ==> result.path
                == removal.listed.worktree.path && result.branch == removal.listed.worktree.branch
                && !result.branch_deleted
            &&& step matches BranchStepView::DeleteBranch(next) ==> removal.delete_branch
                && removal.listed.worktree.branch == Some(next.branch) && next.args == seq![
                "branch"@,
                "-d"@,
                "--"@,
                next.branch,
            ]
        },
        service.remove_after_git(removal, attempt, now).1 is Err || (attempt is Ok
            && attempt->Ok_0.code == Some(0i32)),
        service.remove_finish(removal, deletion, attempt, now).1 matches Ok(result) ==> {
            &&& attempt is Ok && attempt->Ok_0.code == Some(0i32)
            &&& result.path == removal.listed.worktree.path
            &&& result.branch == removal.listed.worktree.branch
            &&& result.branch_deleted
        },
        !(attempt is Ok && attempt->Ok_0.code == Some(0i32)) ==> service.remove_finish(
            removal,
            deletion,
            attempt,
            now,
        ).1 is Err,
{
}

/// The branch of a removal that was interrupted is deleted if Git says that it exists, and
/// reported as deleted if Git says that it does not.
pub proof fn interrupted_branch_is_deleted(
    service: ServiceView,
    retry: BranchRetryView,
    attempt: Result<CommandOutputView, GitErrorView>,
    now: i64,
)
    ensures
        match service.retry_branch(retry, attempt, now).1 {
            Ok(BranchStepView::DeleteBranch(next)) => attempt is Ok && attempt->Ok_0.code == Some(
                0i32,
            ) && next.branch == retry.branch && next.args == seq![
                "branch"@,
                "-d"@,
                "--"@,
                retry.branch,
            ],
            Ok(BranchStepView::Done(result)) => attempt is Ok && attempt->Ok_0.code == Some(1i32)
                && result.path == retry.path && result.branch == Some(retry.branch)
                && result.branch_deleted,
            Err(_) => true,
        },
        service.retry_finish(retry, attempt, now).1 matches Ok(result) ==> attempt is Ok
            && attempt->Ok_0.code == Some(0i32) && result.path == retry.path && result.branch
            == Some(retry.branch) && result.branch_deleted,
{
}

} // verus!

//! What is asked of Git about a worktree, and what the answers come to.

use crate::git::error::GitError;
use crate::git::reads::add_size;
use crate::git::reads::ancestor_args;
use crate::git::reads::can_compare_merge;
use crate::git::reads::CommandOutput;
use crate::git::reads::integration_candidates;
use crate::git::reads::is_ancestor;
use crate::git::reads::last_commit_args;
use crate::git::reads::merge_status_unavailable;
use crate::git::reads::read_merge_status;
use crate::git::reads::rev_list_args;
use crate::git::reads::show_ref_args;
use crate::git::reads::status_args;
use crate::git::reads::system_time_to_unix_seconds;
use crate::git::reads::unique_range;
use crate::git::reads::upstream_count_args;
use crate::git::repository::failure_notes;
use crate::git::repository::GitRepository;
use crate::git::repository::PathFacts;
use crate::git::repository::WorktreeReads;
use crate::git::worktree::GitWorktree;
use crate::git::worktree::GitWorktreeStatus;
use crate::model::DiskUsage;
use crate::model::MergeStatus;
use crate::text::begins_with;
use crate::text::join_text;
use crate::text::option_view;
use crate::text::views;
use vstd::prelude::*;

verus! {

proof fn lemma_words_of(args: Vec<String>)
    ensures
        views(args@).len() == args@.len(),
        forall|i: int| 0 <= i < args@.len() ==> (#[trigger] args@[i])@ == views(args@)[i],
{
}

// ---------------------------------------------------------------------------
// Questions
// ---------------------------------------------------------------------------

/// To tell whether one commit is merged into another, Git is asked whether the first is
/// an ancestor of the second, in this order; the commits of its own are those from the
/// base up to the head of the worktree; and a reference is asked for by its full name.
pub proof fn questions_name_their_objects(
    ancestor: &str,
    descendant: &str,
    base: &str,
    reference: &str,
    ancestry: Vec<String>,
    range: String,
    span: &str,
    count: Vec<String>,
    existence: Vec<String>,
)
    requires
        call_ensures(ancestor_args, (ancestor, descendant), ancestry),
        call_ensures(unique_range, (base,), range),
        span@ == range@,
        call_ensures(rev_list_args, (span,), count),
        call_ensures(show_ref_args, (reference,), existence),
    ensures
        ancestry@.len() == 4,
        ancestry@[0]@ == "merge-base"@,
        ancestry@[1]@ == "--is-ancestor"@,
        ancestry@[2]@ == ancestor@,
        ancestry@[3]@ == descendant@,
        range@ == base@ + "..HEAD"@,
        count@.len() == 3,
        count@[0]@ == "rev-list"@,
        count@[1]@ == "--count"@,
        count@[2]@ == base@ + "..HEAD"@,
        existence@.len() == 4,
        existence@[0]@ == "show-ref"@,
        existence@[1]@ == "--verify"@,
        existence@.last()@ == reference@,
{
    lemma_words_of(ancestry);
    lemma_words_of(count);
    lemma_words_of(existence);
}

/// The changes are asked for in the form that is read: with every field closed by NUL,
/// all untracked files and the ignored ones. The commits that a branch and its upstream
/// do not share are counted apart, those of the branch on the left. The last commit is
/// asked for as name, author, date and subject.
pub proof fn questions_ask_for_what_is_read(
    status: Vec<String>,
    counts: Vec<String>,
    commit: Vec<String>,
)
    requires
        call_ensures(status_args, (), status),
        call_ensures(upstream_count_args, (), counts),
        call_ensures(last_commit_args, (), commit),
    ensures
        views(status@).contains("--porcelain=v1"@),
        views(status@).contains("-z"@),
        views(status@).contains("--untracked-files=all"@),
        views(status@).contains("--ignored"@),
        status@[0]@ == "status"@,
        counts@[0]@ == "rev-list"@,
        views(counts@).contains("--left-right"@),
        views(counts@).contains("--count"@),
        counts@.last()@ == "HEAD...@{upstream}"@,
        commit@[0]@ == "show"@,
        views(commit@).contains("--format=%H%x00%an%x00%cI%x00%s"@),
        commit@.last()@ == "HEAD"@,
{
    lemma_words_of(status);
    lemma_words_of(counts);
    lemma_words_of(commit);
    assert(views(status@)[1] == "--porcelain=v1"@);
    assert(views(status@)[2] == "-z"@);
    assert(views(status@)[3] == "--untracked-files=all"@);
    assert(views(status@)[4] == "--ignored"@);
    assert(views(counts@)[1] == "--left-right"@);
    assert(views(counts@)[2] == "--count"@);
    assert(views(commit@)[2] == "--format=%H%x00%an%x00%cI%x00%s"@);
}

// ---------------------------------------------------------------------------
// Merge state
// ---------------------------------------------------------------------------

/// Git ends with zero exactly if the one commit is an ancestor of the other, and with one
/// exactly if it is not. Any other end leaves it open.
pub proof fn ancestry_is_told_by_the_end(output: &CommandOutput, answer: Option<bool>)
    requires
        call_ensures(is_ancestor, (output,), answer),
    ensures
        answer == Some(true) <==> output.code == Some(0i32),
        answer == Some(false) <==> output.code == Some(1i32),
        answer is None <==> output.code != Some(0i32) && output.code != Some(1i32),
{
}

proof fn lemma_merge_words()
    ensures
        "merged-locally"@ != "unmerged-commits"@,
        "merged-locally"@ != "unknown"@,
        "unmerged-commits"@ != "unknown"@,
{
    reveal_strlit("merged-locally");
    reveal_strlit("unmerged-commits");
    reveal_strlit("unknown");
    assert("merged-locally"@.len() == 14);
    assert("unmerged-commits"@.len() == 16);
    assert("unknown"@.len() == 7);
}

/// A merge state holds the answers of Git as they were given. Without a remote branch
/// nothing is said of it. Its word says merged exactly if the branch is merged locally
/// and speaks of unmerged commits exactly if it is known not to be.
pub proof fn merge_state_holds_the_answers(
    integration: &str,
    remote: Option<&str>,
    unique: Option<u32>,
    locally: Option<bool>,
    remotely: Option<bool>,
    status: MergeStatus,
)
    requires
        call_ensures(read_merge_status, (integration, remote, unique, locally, remotely), status),
    ensures
        option_view(status.integration_branch) == Some(integration@),
        remote is Some ==> option_view(status.remote_integration_branch) == Some(remote->0@)
            && status.merged_remotely == remotely,
        remote is None ==> status.remote_integration_branch is None && status.merged_remotely
            is None,
        status.unique_commits == unique,
        status.merged_locally == locally,
        status.classification@ == "merged-locally"@ <==> locally == Some(true),
        status.classification@ == "unmerged-commits"@ <==> locally == Some(false),
        status.classification@ == "unknown"@ <==> locally is None,
{
    lemma_merge_words();
}

/// Where the merge state cannot be asked for, nothing is claimed of it: neither that the
/// branch is merged nor that it has no commits of its own.
pub proof fn unknown_merge_claims_nothing(
    integration: Option<&str>,
    head: Option<&str>,
    status: MergeStatus,
    comparable: bool,
)
    requires
        call_ensures(merge_status_unavailable, (integration,), status),
        call_ensures(can_compare_merge, (integration, head), comparable),
    ensures
        status.merged_locally is None,
        status.merged_remotely is None,
        status.unique_commits is None,
        status.remote_integration_branch is None,
        status.classification@ == "unknown"@,
        status.integration_branch is Some <==> integration is Some,
        integration is Some ==> option_view(status.integration_branch) == Some(integration->0@),
        comparable <==> integration is Some && head is Some,
{
}

// ---------------------------------------------------------------------------
// Sizes and times
// ---------------------------------------------------------------------------

/// Sizes add up, and never beyond 64 bits; no size makes a sum smaller.
pub proof fn sizes_add_up(total: u64, size: u64, sum: u64, usage: &DiskUsage, both: u64)
    requires
        call_ensures(add_size, (total, size), sum),
        call_ensures(DiskUsage::total_bytes, (usage,), both),
    ensures
        total + size <= u64::MAX ==> sum == total + size,
        total + size > u64::MAX ==> sum == u64::MAX,
        sum >= total && sum >= size,
        usage.worktree_bytes + usage.git_common_bytes <= u64::MAX ==> both == usage.worktree_bytes
            + usage.git_common_bytes,
        usage.worktree_bytes + usage.git_common_bytes > u64::MAX ==> both == u64::MAX,
{
}

/// Times after the beginning of 1970 are positive and those before it negative, and a
/// time beyond 64 bits is not known.
pub proof fn times_keep_their_side(after_epoch: bool, seconds: u64, result: Option<i64>)
    requires
        call_ensures(system_time_to_unix_seconds, (after_epoch, seconds), result),
    ensures
        result is Some <==> seconds <= i64::MAX,
        result is Some && after_epoch ==> result->0 == seconds,
        result is Some && !after_epoch ==> result->0 == -(seconds as int),
{
}

// ---------------------------------------------------------------------------
// Status
// ---------------------------------------------------------------------------

proof fn lemma_status_words()
    ensures
        "unavailable"@.len() == 11,
        "unknown"@.len() == 7,
        "conflicted"@.len() == 10,
        "dirty"@.len() == 5,
        "merged-locally"@.len() == 14,
        "unmerged"@.len() == 8,
        "clean"@.len() == 5,
        "dirty"@[0] == 'd',
        "clean"@[0] == 'c',
{
    reveal_strlit("unavailable");
    reveal_strlit("unknown");
    reveal_strlit("conflicted");
    reveal_strlit("dirty");
    reveal_strlit("merged-locally");
    reveal_strlit("unmerged");
    reveal_strlit("clean");
}

/// The one word for a worktree says what matters most. It is unavailable exactly if Git
/// would prune it or its path is gone; unknown exactly if it is there but was not observed
/// completely; conflicted or dirty by its changes; merged only if it is clean, merged and
/// not the integration branch itself; and unmerged only if it is clean and known not to
/// be merged.
pub proof fn status_word_says_what_matters(status: &GitWorktreeStatus, word: &'static str)
    requires
        call_ensures(GitWorktreeStatus::state, (status,), word),
    ensures
        word@ == "unavailable"@ <==> status.worktree.prunable || !status.path_exists,
        word@ == "unknown"@ <==> !status.worktree.prunable && status.path_exists
            && status.observation_error is Some,
        word@ == "conflicted"@ <==> !status.worktree.prunable && status.path_exists
            && status.observation_error is None && status.data.changes.conflicted > 0,
        word@ == "dirty"@ <==> !status.worktree.prunable && status.path_exists
            && status.observation_error is None && status.data.changes.conflicted == 0 && (
        status.data.changes.staged > 0 || status.data.changes.unstaged > 0
            || status.data.changes.untracked > 0),
        word@ == "merged-locally"@ ==> status.data.merge.merged_locally == Some(true),
        word@ == "unmerged"@ ==> status.data.merge.merged_locally == Some(false),
        word@ == "merged-locally"@ || word@ == "unmerged"@ || word@ == "clean"@
            <==> !status.worktree.prunable && status.path_exists && status.observation_error is None
            && status.data.changes.staged == 0 && status.data.changes.unstaged == 0
            && status.data.changes.untracked == 0 && status.data.changes.conflicted == 0,
        word@ == "clean"@ && status.data.merge.merged_locally == Some(true)
            ==> status.worktree.branch is Some && option_view(status.worktree.branch)
            == option_view(status.data.merge.integration_branch),
        word@ == "merged-locally"@ ==> !(status.worktree.branch is Some && option_view(
            status.worktree.branch,
        ) == option_view(status.data.merge.integration_branch)),
        word@ == "clean"@ ==> status.data.merge.merged_locally != Some(false),
{
    lemma_status_words();
}

/// A worktree can be looked into exactly if it is not bare, Git would not prune it, and
/// its path is a directory.
pub proof fn directories_can_be_looked_into(
    worktree: &GitWorktree,
    facts: PathFacts,
    observable: bool,
)
    requires
        call_ensures(GitRepository::observable, (worktree, facts), observable),
    ensures
        observable <==> !worktree.bare && !worktree.prunable && facts.is_directory,
{
}

/// A worktree that cannot be looked into is reported with the reason, and nothing is
/// claimed of its changes or of its being merged.
pub proof fn closed_worktree_is_reported(
    repository: &GitRepository,
    worktree: &GitWorktree,
    base: Option<&str>,
    facts: PathFacts,
    reads: Option<WorktreeReads>,
    status: GitWorktreeStatus,
)
    requires
        worktree.bare || worktree.prunable || !facts.is_directory,
        call_ensures(
            GitRepository::inspect_worktree,
            (repository, worktree, base, facts, reads),
            status,
        ),
    ensures
        status.worktree@ == worktree@,
        status.path_exists == facts.is_there,
        status.observation_error is Some,
        status.data.merge.merged_locally is None,
        status.data.merge.unique_commits is None,
        status.data.last_commit is None,
        status.data.upstream.name is None,
        status.data.disk_usage.worktree_bytes == 0,
        status.data.time.filesystem_modified_unix_seconds == facts.modified_unix_seconds,
        base is Some ==> option_view(status.data.merge.integration_branch) == Some(base->0@),
        base is None ==> option_view(status.data.merge.integration_branch) == option_view(
            repository.integration_branch,
        ),
        worktree.prunable ==> option_view(status.observation_error) == Some(
            "Git reports this worktree as prunable"@,
        ),
        !worktree.prunable && worktree.bare ==> option_view(status.observation_error) == Some(
            "bare repository; working-tree status is not applicable"@,
        ),
        !worktree.prunable && !worktree.bare ==> option_view(status.observation_error) == Some(
            "worktree path is missing or not a directory"@,
        ),
{
}

/// What was read of a worktree is what is reported of it. The observation is complete
/// exactly if every read succeeded; the remote branch counts only where a base was named.
pub proof fn open_worktree_is_reported_as_read(
    repository: &GitRepository,
    worktree: &GitWorktree,
    base: Option<&str>,
    facts: PathFacts,
    reads: WorktreeReads,
    status: GitWorktreeStatus,
)
    requires
        !worktree.bare && !worktree.prunable && facts.is_directory,
        call_ensures(
            GitRepository::inspect_worktree,
            (repository, worktree, base, facts, Some(reads)),
            status,
        ),
    ensures
        status.worktree@ == worktree@,
        status.path_exists == facts.is_there,
        reads.changes matches Ok(changes) ==> status.data.changes@ == changes@,
        reads.upstream matches Ok(upstream) ==> status.data.upstream@ == upstream@,
        reads.last_commit matches Ok(commit) ==> option_view(status.data.last_commit)
            == option_view(commit),
        reads.merge matches Ok(merge) ==> status.data.merge@ == merge@,
        reads.disk_usage matches Ok(usage) ==> status.data.disk_usage@ == usage@,
        reads.merge is Err ==> status.data.merge.merged_locally is None
            && status.data.merge.unique_commits is None,
        status.data.time.filesystem_modified_unix_seconds == facts.modified_unix_seconds,
        status.observation_error is None <==> reads.changes is Ok && reads.upstream is Ok
            && reads.last_commit is Ok && reads.merge is Ok && reads.disk_usage is Ok && (base
            is Some ==> reads.remote_for_base is Ok),
{
}

/// A read that failed, and no other did, is named with its error.
pub proof fn failed_read_is_named(
    repository: &GitRepository,
    worktree: &GitWorktree,
    facts: PathFacts,
    reads: WorktreeReads,
    status: GitWorktreeStatus,
)
    requires
        !worktree.bare && !worktree.prunable && facts.is_directory,
        call_ensures(
            GitRepository::inspect_worktree,
            (repository, worktree, None, facts, Some(reads)),
            status,
        ),
        reads.upstream is Ok && reads.last_commit is Ok && reads.merge is Ok && reads.disk_usage
            is Ok,
    ensures
        reads.changes matches Err(error) ==> option_view(status.observation_error) == Some(
            "changes: "@ + error@.text(),
        ),
{
    if let Err(error) = reads.changes {
        let notes = seq!["changes: "@ + error@.text()];
        assert(failure_notes(reads, false) =~= notes);
        assert(notes.drop_last() =~= seq![]);
        reveal_with_fuel(join_text, 2);
        assert(join_text(notes, "; "@) =~= notes[0]);
    }
}

/// The base that was named wins over the integration branch of the repository, and the
/// remote branch of the repository counts only where none was named.
pub proof fn named_base_wins(
    repository: &GitRepository,
    base_override: Option<&str>,
    found: &Result<Option<String>, GitError>,
    base: Option<&str>,
    remote: Option<String>,
)
    requires
        call_ensures(GitRepository::merge_base, (repository, base_override), base),
        call_ensures(GitRepository::merge_remote, (repository, base_override, found), remote),
    ensures
        base_override is Some ==> base is Some && base->0@ == base_override->0@,
        base_override is None && repository.integration_branch is Some ==> base is Some && base->0@
            == repository.integration_branch->0@,
        base_override is None && repository.integration_branch is None ==> base is None,
        base_override is None ==> option_view(remote) == option_view(
            repository.remote_integration_branch,
        ),
        base_override is Some && found is Err ==> remote is None,
        base_override is Some && found is Ok ==> option_view(remote) == option_view(found->Ok_0),
{
}

/// A repository is known by the paths and branches that were found. The default branch of
/// the remote is its remote integration branch; without one, the branch that goes with the
/// integration branch is.
pub proof fn repository_is_known_as_found(
    root: String,
    common_git_dir: String,
    remote_head: Option<String>,
    integration: Option<String>,
    remote_for_integration: Option<String>,
    repository: GitRepository,
)
    requires
        call_ensures(
            GitRepository::discover,
            (root, common_git_dir, remote_head, integration, remote_for_integration),
            repository,
        ),
    ensures
        repository.root@ == root@,
        repository.common_git_dir@ == common_git_dir@,
        option_view(repository.integration_branch) == option_view(integration),
        remote_head is Some ==> option_view(repository.remote_integration_branch) == Some(
            remote_head->0@,
        ),
        remote_head is None ==> option_view(repository.remote_integration_branch) == option_view(
            remote_for_integration,
        ),
{
}

/// The likeliest integration branch is the default branch of the remote, by its own name;
/// after it come the two usual names.
pub proof fn integration_branch_is_sought_in_order(remote: Option<&str>, names: Vec<String>)
    requires
        call_ensures(integration_candidates, (remote,), names),
    ensures
        remote is None ==> views(names@) == seq!["main"@, "master"@],
        remote is Some ==> names@.len() == 3 && names@[1]@ == "main"@ && names@[2]@ == "master"@,
        remote is Some && begins_with(remote->0@, "origin/"@) ==> "origin/"@ + names@[0]@
            == remote->0@,
        remote is Some && !begins_with(remote->0@, "origin/"@) ==> names@[0]@ == remote->0@,
{
    lemma_words_of(names);
    if let Some(name) = remote {
        assert(views(names@)[0] == names@[0]@);
        if begins_with(name@, "origin/"@) {
            assert("origin/"@ + name@.skip("origin/"@.len() as int) =~= name@);
        }
    }
}

} // verus!

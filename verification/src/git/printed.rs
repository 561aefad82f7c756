//! What is printed of a repository and its worktrees, each thing under its own key.

use crate::git::repository::GitRepository;
use crate::git::worktree::change_entry_to_json;
use crate::git::worktree::changes_json;
use crate::git::worktree::commit_json;
use crate::git::worktree::commit_or_null;
use crate::git::worktree::commit_to_json;
use crate::git::worktree::disk_json;
use crate::git::worktree::entry_json;
use crate::git::worktree::GitWorktree;
use crate::git::worktree::GitWorktreeStatus;
use crate::git::worktree::merge_json;
use crate::git::worktree::time_json;
use crate::git::worktree::upstream_json;
use crate::json::fields::has_fields;
use crate::json::fields::tells;
use crate::json::value::Json;
use crate::json::writer::json_text;
use crate::model::ChangeEntry;
use crate::model::ChangeKind;
use crate::model::CommitSummary;
use crate::model::DiskUsage;
use crate::text::option_view;
use crate::text::views;
use vstd::prelude::*;

verus! {

/// A worktree is printed with everything that Git told of it, each thing under its own key.
pub proof fn worktree_is_printed_whole(
    worktree: &GitWorktree,
    word: &'static str,
    text: String,
)
    requires
        call_ensures(GitWorktree::state, (worktree,), word),
        call_ensures(GitWorktree::to_json, (worktree,), text),
    ensures
        exists|value: Json|
            text@ == #[trigger] json_text(value) && {
                &&& has_fields(value, 10)
                &&& tells(value, "path"@, Json::Str(worktree.path@))
                &&& tells(
                    value,
                    "branch"@,
                    match option_view(worktree.branch) {
                        Some(text) => Json::Str(text),
                        None => Json::Null,
                    },
                )
                &&& tells(
                    value,
                    "head"@,
                    match option_view(worktree.head) {
                        Some(text) => Json::Str(text),
                        None => Json::Null,
                    },
                )
                &&& tells(value, "detached"@, Json::Bool(worktree.detached))
                &&& tells(value, "bare"@, Json::Bool(worktree.bare))
                &&& tells(value, "locked"@, Json::Bool(worktree.locked))
                &&& tells(
                    value,
                    "lock_reason"@,
                    match option_view(worktree.lock_reason) {
                        Some(text) => Json::Str(text),
                        None => Json::Null,
                    },
                )
                &&& tells(value, "prunable"@, Json::Bool(worktree.prunable))
                &&& tells(
                    value,
                    "prune_reason"@,
                    match option_view(worktree.prune_reason) {
                        Some(text) => Json::Str(text),
                        None => Json::Null,
                    },
                )
                &&& tells(value, "git_state"@, Json::Str(word@))
            },
{
    let value = worktree@.json();
    let fields = value->Object_0;
    assert(fields[0] == ("path"@, Json::Str(worktree.path@)));
    assert(
        fields[1] == (
            "branch"@,
            match option_view(worktree.branch) {
                Some(text) => Json::Str(text),
                None => Json::Null,
            },
        )
    );
    assert(
        fields[2] == (
            "head"@,
            match option_view(worktree.head) { Some(text) => Json::Str(text), None => Json::Null },
        )
    );
    assert(fields[3] == ("detached"@, Json::Bool(worktree.detached)));
    assert(fields[4] == ("bare"@, Json::Bool(worktree.bare)));
    assert(fields[5] == ("locked"@, Json::Bool(worktree.locked)));
    assert(
        fields[6] == (
            "lock_reason"@,
            match option_view(worktree.lock_reason) {
                Some(text) => Json::Str(text),
                None => Json::Null,
            },
        )
    );
    assert(fields[7] == ("prunable"@, Json::Bool(worktree.prunable)));
    assert(
        fields[8] == (
            "prune_reason"@,
            match option_view(worktree.prune_reason) {
                Some(text) => Json::Str(text),
                None => Json::Null,
            },
        )
    );
    assert(fields[9] == ("git_state"@, Json::Str(word@)));
    assert(text@ == json_text(value));
}

/// A changed path is printed with its letters, its word and the path from which it came.
pub proof fn change_is_printed_whole(
    entry: &ChangeEntry,
    word: &'static str,
    text: String,
)
    requires
        call_ensures(ChangeKind::as_str, (entry.kind,), word),
        call_ensures(change_entry_to_json, (entry,), text),
    ensures
        exists|value: Json|
            text@ == #[trigger] json_text(value) && {
                &&& has_fields(value, 6)
                &&& tells(value, "path"@, Json::Str(entry.path@))
                &&& tells(
                    value,
                    "source_path"@,
                    match option_view(entry.source_path) {
                        Some(text) => Json::Str(text),
                        None => Json::Null,
                    },
                )
                &&& tells(value, "index_status"@, Json::Str(seq![entry.index_status]))
                &&& tells(value, "worktree_status"@, Json::Str(seq![entry.worktree_status]))
                &&& tells(value, "kind"@, Json::Str(word@))
                &&& tells(value, "conflicted"@, Json::Bool(entry.conflicted))
            },
{
    let value = entry_json(entry@);
    let fields = value->Object_0;
    assert(fields[0] == ("path"@, Json::Str(entry.path@)));
    assert(
        fields[1] == (
            "source_path"@,
            match option_view(entry.source_path) {
                Some(text) => Json::Str(text),
                None => Json::Null,
            },
        )
    );
    assert(fields[2] == ("index_status"@, Json::Str(seq![entry.index_status])));
    assert(fields[3] == ("worktree_status"@, Json::Str(seq![entry.worktree_status])));
    assert(fields[4] == ("kind"@, Json::Str(word@)));
    assert(fields[5] == ("conflicted"@, Json::Bool(entry.conflicted)));
    assert(text@ == json_text(value));
}

/// A commit is printed with its name, who made it, when, and what its first line says.
pub proof fn commit_is_printed_whole(
    commit: &CommitSummary,
    text: String,
)
    requires
        call_ensures(commit_to_json, (commit,), text),
    ensures
        exists|value: Json|
            text@ == #[trigger] json_text(value) && {
                &&& has_fields(value, 4)
                &&& tells(value, "id"@, Json::Str(commit.id@))
                &&& tells(
                    value,
                    "author"@,
                    match option_view(commit.author) {
                        Some(text) => Json::Str(text),
                        None => Json::Null,
                    },
                )
                &&& tells(
                    value,
                    "committed_at"@,
                    match option_view(commit.committed_at) {
                        Some(text) => Json::Str(text),
                        None => Json::Null,
                    },
                )
                &&& tells(
                    value,
                    "subject"@,
                    match option_view(commit.subject) {
                        Some(text) => Json::Str(text),
                        None => Json::Null,
                    },
                )
            },
{
    let value = commit_json(commit@);
    let fields = value->Object_0;
    assert(fields[0] == ("id"@, Json::Str(commit.id@)));
    assert(
        fields[1] == (
            "author"@,
            match option_view(commit.author) { Some(text) => Json::Str(text), None => Json::Null },
        )
    );
    assert(
        fields[2] == (
            "committed_at"@,
            match option_view(commit.committed_at) {
                Some(text) => Json::Str(text),
                None => Json::Null,
            },
        )
    );
    assert(
        fields[3] == (
            "subject"@,
            match option_view(commit.subject) { Some(text) => Json::Str(text), None => Json::Null },
        )
    );
    assert(text@ == json_text(value));
}

/// The changes of a worktree are printed with each count under its own key, and as dirty
/// exactly if one of the first four is not zero.
pub proof fn status_tells_changes(
    status: &GitWorktreeStatus,
    text: String,
)
    requires
        call_ensures(GitWorktreeStatus::to_json, (status,), text),
    ensures
        exists|value: Json, part: Json|
            text@ == #[trigger] json_text(value) && #[trigger] tells(value, "changes"@, part) && {
                &&& tells(part, "staged"@, Json::Number(status.data.changes.staged as int))
                &&& tells(part, "unstaged"@, Json::Number(status.data.changes.unstaged as int))
                &&& tells(part, "untracked"@, Json::Number(status.data.changes.untracked as int))
                &&& tells(part, "conflicted"@, Json::Number(status.data.changes.conflicted as int))
                &&& tells(part, "ignored"@, Json::Number(status.data.changes.ignored as int))
                &&& tells(
                    part,
                    "dirty"@,
                    Json::Bool(
                        (
                            status.data.changes.staged > 0
                                || status.data.changes.unstaged > 0
                                || status.data.changes.untracked > 0
                                || status.data.changes.conflicted > 0
                        )
                    ),
                )
            },
{
    let value = status@.json();
    let part = changes_json(status@.data.changes);
    let fields = part->Object_0;
    assert(value->Object_0[2] == ("changes"@, part));
    assert(tells(value, "changes"@, part));
    assert(fields[0] == ("staged"@, Json::Number(status.data.changes.staged as int)));
    assert(fields[1] == ("unstaged"@, Json::Number(status.data.changes.unstaged as int)));
    assert(fields[2] == ("untracked"@, Json::Number(status.data.changes.untracked as int)));
    assert(fields[3] == ("conflicted"@, Json::Number(status.data.changes.conflicted as int)));
    assert(fields[4] == ("ignored"@, Json::Number(status.data.changes.ignored as int)));
    assert(
        fields[6] == (
            "dirty"@,
            Json::Bool(
                (
                    status.data.changes.staged > 0
                        || status.data.changes.unstaged > 0
                        || status.data.changes.untracked > 0
                        || status.data.changes.conflicted > 0
                )
            ),
        )
    );
    assert(text@ == json_text(value));
}

/// How far a worktree is ahead of its upstream and how far behind is printed under these
/// keys.
pub proof fn status_tells_upstream(
    status: &GitWorktreeStatus,
    text: String,
)
    requires
        call_ensures(GitWorktreeStatus::to_json, (status,), text),
    ensures
        exists|value: Json, part: Json|
            text@ == #[trigger] json_text(value) && #[trigger] tells(value, "upstream"@, part) && {
                &&& has_fields(part, 3)
                &&& tells(
                    part,
                    "name"@,
                    match option_view(status.data.upstream.name) {
                        Some(text) => Json::Str(text),
                        None => Json::Null,
                    },
                )
                &&& tells(
                    part,
                    "ahead"@,
                    match status.data.upstream.ahead {
                        Some(number) => Json::Number(number as int),
                        None => Json::Null,
                    },
                )
                &&& tells(
                    part,
                    "behind"@,
                    match status.data.upstream.behind {
                        Some(number) => Json::Number(number as int),
                        None => Json::Null,
                    },
                )
            },
{
    let value = status@.json();
    let part = upstream_json(status@.data.upstream);
    let fields = part->Object_0;
    assert(value->Object_0[3] == ("upstream"@, part));
    assert(tells(value, "upstream"@, part));
    assert(
        fields[0] == (
            "name"@,
            match option_view(status.data.upstream.name) {
                Some(text) => Json::Str(text),
                None => Json::Null,
            },
        )
    );
    assert(
        fields[1] == (
            "ahead"@,
            match status.data.upstream.ahead {
                Some(number) => Json::Number(number as int),
                None => Json::Null,
            },
        )
    );
    assert(
        fields[2] == (
            "behind"@,
            match status.data.upstream.behind {
                Some(number) => Json::Number(number as int),
                None => Json::Null,
            },
        )
    );
    assert(text@ == json_text(value));
}

/// The merge state of a worktree is printed with every answer under its own key.
pub proof fn status_tells_merge(
    status: &GitWorktreeStatus,
    text: String,
)
    requires
        call_ensures(GitWorktreeStatus::to_json, (status,), text),
    ensures
        exists|value: Json, part: Json|
            text@ == #[trigger] json_text(value) && #[trigger] tells(value, "merge"@, part) && {
                &&& has_fields(part, 6)
                &&& tells(
                    part,
                    "integration_branch"@,
                    match option_view(status.data.merge.integration_branch) {
                        Some(text) => Json::Str(text),
                        None => Json::Null,
                    },
                )
                &&& tells(
                    part,
                    "remote_integration_branch"@,
                    match option_view(status.data.merge.remote_integration_branch) {
                        Some(text) => Json::Str(text),
                        None => Json::Null,
                    },
                )
                &&& tells(
                    part,
                    "unique_commits"@,
                    match status.data.merge.unique_commits {
                        Some(number) => Json::Number(number as int),
                        None => Json::Null,
                    },
                )
                &&& tells(
                    part,
                    "merged_locally"@,
                    match status.data.merge.merged_locally {
                        Some(truth) => Json::Bool(truth),
                        None => Json::Null,
                    },
                )
                &&& tells(
                    part,
                    "merged_remotely"@,
                    match status.data.merge.merged_remotely {
                        Some(truth) => Json::Bool(truth),
                        None => Json::Null,
                    },
                )
                &&& tells(part, "classification"@, Json::Str(status.data.merge.classification@))
            },
{
    let value = status@.json();
    let part = merge_json(status@.data.merge);
    let fields = part->Object_0;
    assert(value->Object_0[4] == ("merge"@, part));
    assert(tells(value, "merge"@, part));
    assert(
        fields[0] == (
            "integration_branch"@,
            match option_view(status.data.merge.integration_branch) {
                Some(text) => Json::Str(text),
                None => Json::Null,
            },
        )
    );
    assert(
        fields[1] == (
            "remote_integration_branch"@,
            match option_view(status.data.merge.remote_integration_branch) {
                Some(text) => Json::Str(text),
                None => Json::Null,
            },
        )
    );
    assert(
        fields[2] == (
            "unique_commits"@,
            match status.data.merge.unique_commits {
                Some(number) => Json::Number(number as int),
                None => Json::Null,
            },
        )
    );
    assert(
        fields[3] == (
            "merged_locally"@,
            match status.data.merge.merged_locally {
                Some(truth) => Json::Bool(truth),
                None => Json::Null,
            },
        )
    );
    assert(
        fields[4] == (
            "merged_remotely"@,
            match status.data.merge.merged_remotely {
                Some(truth) => Json::Bool(truth),
                None => Json::Null,
            },
        )
    );
    assert(fields[5] == ("classification"@, Json::Str(status.data.merge.classification@)));
    assert(text@ == json_text(value));
}

/// The disk usage of a worktree is printed with both sizes and their sum.
pub proof fn status_tells_disk_usage(
    status: &GitWorktreeStatus,
    total: u64,
    text: String,
)
    requires
        call_ensures(DiskUsage::total_bytes, (&status.data.disk_usage,), total),
        call_ensures(GitWorktreeStatus::to_json, (status,), text),
    ensures
        exists|value: Json, part: Json|
            text@ == #[trigger] json_text(value)
                && #[trigger] tells(value, "disk_usage"@, part)
                && {
                &&& has_fields(part, 3)
                &&& tells(
                    part,
                    "worktree_bytes"@,
                    Json::Number(status.data.disk_usage.worktree_bytes as int),
                )
                &&& tells(
                    part,
                    "git_common_bytes"@,
                    Json::Number(status.data.disk_usage.git_common_bytes as int),
                )
                &&& tells(part, "total_bytes"@, Json::Number(total as int))
            },
{
    let value = status@.json();
    let part = disk_json(status@.data.disk_usage);
    let fields = part->Object_0;
    assert(value->Object_0[6] == ("disk_usage"@, part));
    assert(tells(value, "disk_usage"@, part));
    assert(
        fields[0] == ("worktree_bytes"@, Json::Number(status.data.disk_usage.worktree_bytes as int))
    );
    assert(
        fields[1] == (
            "git_common_bytes"@,
            Json::Number(status.data.disk_usage.git_common_bytes as int),
        )
    );
    assert(fields[2] == ("total_bytes"@, Json::Number(total as int)));
    assert(text@ == json_text(value));
}

/// The time at which a worktree was touched is printed with how it is known.
pub proof fn status_tells_time(
    status: &GitWorktreeStatus,
    text: String,
)
    requires
        call_ensures(GitWorktreeStatus::to_json, (status,), text),
    ensures
        exists|value: Json, part: Json|
            text@ == #[trigger] json_text(value) && #[trigger] tells(value, "time"@, part) && {
                &&& has_fields(part, 2)
                &&& tells(
                    part,
                    "filesystem_modified_unix_seconds"@,
                    match status.data.time.filesystem_modified_unix_seconds {
                        Some(number) => Json::Number(number as int),
                        None => Json::Null,
                    },
                )
                &&& tells(
                    part,
                    "filesystem_modified_provenance"@,
                    Json::Str(status.data.time.filesystem_modified_provenance@),
                )
            },
{
    let value = status@.json();
    let part = time_json(status@.data.time);
    let fields = part->Object_0;
    assert(value->Object_0[7] == ("time"@, part));
    assert(tells(value, "time"@, part));
    assert(
        fields[0] == (
            "filesystem_modified_unix_seconds"@,
            match status.data.time.filesystem_modified_unix_seconds {
                Some(number) => Json::Number(number as int),
                None => Json::Null,
            },
        )
    );
    assert(
        fields[1] == (
            "filesystem_modified_provenance"@,
            Json::Str(status.data.time.filesystem_modified_provenance@),
        )
    );
    assert(text@ == json_text(value));
}

/// A status tells of the worktree what Git told of it.
pub proof fn status_tells_worktree(
    status: &GitWorktreeStatus,
    git_word: &'static str,
    text: String,
)
    requires
        call_ensures(GitWorktree::state, (&status.worktree,), git_word),
        call_ensures(GitWorktreeStatus::to_json, (status,), text),
    ensures
        exists|value: Json, part: Json|
            text@ == #[trigger] json_text(value) && #[trigger] tells(value, "worktree"@, part) && {
                &&& has_fields(part, 10)
                &&& tells(part, "path"@, Json::Str(status.worktree.path@))
                &&& tells(
                    part,
                    "branch"@,
                    match option_view(status.worktree.branch) {
                        Some(text) => Json::Str(text),
                        None => Json::Null,
                    },
                )
                &&& tells(
                    part,
                    "head"@,
                    match option_view(status.worktree.head) {
                        Some(text) => Json::Str(text),
                        None => Json::Null,
                    },
                )
                &&& tells(part, "detached"@, Json::Bool(status.worktree.detached))
                &&& tells(part, "bare"@, Json::Bool(status.worktree.bare))
                &&& tells(part, "locked"@, Json::Bool(status.worktree.locked))
                &&& tells(
                    part,
                    "lock_reason"@,
                    match option_view(status.worktree.lock_reason) {
                        Some(text) => Json::Str(text),
                        None => Json::Null,
                    },
                )
                &&& tells(part, "prunable"@, Json::Bool(status.worktree.prunable))
                &&& tells(
                    part,
                    "prune_reason"@,
                    match option_view(status.worktree.prune_reason) {
                        Some(text) => Json::Str(text),
                        None => Json::Null,
                    },
                )
                &&& tells(part, "git_state"@, Json::Str(git_word@))
            },
{
    let value = status@.json();
    let part = status@.worktree.json();
    let fields = part->Object_0;
    assert(value->Object_0[0] == ("worktree"@, part));
    assert(tells(value, "worktree"@, part));
    assert(fields[0] == ("path"@, Json::Str(status.worktree.path@)));
    assert(
        fields[1] == (
            "branch"@,
            match option_view(status.worktree.branch) {
                Some(text) => Json::Str(text),
                None => Json::Null,
            },
        )
    );
    assert(
        fields[2] == (
            "head"@,
            match option_view(status.worktree.head) {
                Some(text) => Json::Str(text),
                None => Json::Null,
            },
        )
    );
    assert(fields[3] == ("detached"@, Json::Bool(status.worktree.detached)));
    assert(fields[4] == ("bare"@, Json::Bool(status.worktree.bare)));
    assert(fields[5] == ("locked"@, Json::Bool(status.worktree.locked)));
    assert(
        fields[6] == (
            "lock_reason"@,
            match option_view(status.worktree.lock_reason) {
                Some(text) => Json::Str(text),
                None => Json::Null,
            },
        )
    );
    assert(fields[7] == ("prunable"@, Json::Bool(status.worktree.prunable)));
    assert(
        fields[8] == (
            "prune_reason"@,
            match option_view(status.worktree.prune_reason) {
                Some(text) => Json::Str(text),
                None => Json::Null,
            },
        )
    );
    assert(fields[9] == ("git_state"@, Json::Str(git_word@)));
    assert(text@ == json_text(value));
}

/// The entries of a status are printed one by one and in order, its last commit is printed
/// where there is one, and so is the reason why it was not observed completely.
pub proof fn status_tells_the_rest(
    status: &GitWorktreeStatus,
    word: &'static str,
    entry_texts: Seq<String>,
    commit_text: String,
    text: String,
)
    requires
        call_ensures(GitWorktreeStatus::state, (status,), word),
        entry_texts.len() == status.data.changes.entries@.len(),
        forall|i: int|
            0 <= i < entry_texts.len() ==> call_ensures(
                change_entry_to_json,
                (&status.data.changes.entries@[i],),
                #[trigger] entry_texts[i],
            ),
        status.data.last_commit matches Some(commit) ==> call_ensures(
            commit_to_json,
            (&commit,),
            commit_text,
        ),
        call_ensures(GitWorktreeStatus::to_json, (status,), text),
    ensures
        exists|value: Json, changes: Json, entries: Seq<Json>, commit: Json|
            text@ == #[trigger] json_text(value) && #[trigger] tells(value, "changes"@, changes)
                && #[trigger] tells(changes, "entries"@, Json::Array(entries)) && #[trigger] tells(
                value,
                "last_commit"@,
                commit,
            ) && {
                &&& has_fields(value, 9)
                &&& tells(value, "state"@, Json::Str(word@))
                &&& entries.len() == entry_texts.len()
                &&& forall|i: int|
                    0 <= i < entries.len() ==> (#[trigger] entry_texts[i])@ == json_text(entries[i])
                &&& status.data.last_commit is None ==> commit == Json::Null
                &&& status.data.last_commit is Some ==> commit_text@ == json_text(commit)
                &&& tells(
                    value,
                    "observation_error"@,
                    match option_view(status.observation_error) {
                        Some(reason) => Json::Str(reason),
                        None => Json::Null,
                    },
                )
            },
{
    let value = status@.json();
    let changes = changes_json(status@.data.changes);
    let entries = Seq::new(
        status@.data.changes.entries.len(),
        |i: int| entry_json(status@.data.changes.entries[i]),
    );
    let commit = commit_or_null(status@.data.last_commit);
    let fields = value->Object_0;
    assert(fields[1] == ("state"@, Json::Str(word@)));
    assert(fields[2] == ("changes"@, changes));
    assert(fields[5] == ("last_commit"@, commit));
    assert(fields[8] == (
        "observation_error"@,
        match option_view(status.observation_error) {
            Some(reason) => Json::Str(reason),
            None => Json::Null,
        },
    ));
    assert(changes->Object_0[8] == ("entries"@, Json::Array(entries)));
    assert(tells(value, "changes"@, changes));
    assert(tells(changes, "entries"@, Json::Array(entries)));
    assert(tells(value, "last_commit"@, commit));
    assert forall|i: int| 0 <= i < entries.len() implies (#[trigger] entry_texts[i])@ == json_text(
        entries[i],
    ) by {
        assert(status@.data.changes.entries[i] == status.data.changes.entries@[i]@);
    }
    assert(text@ == json_text(value));
}

/// A repository is printed with its name, its paths and its branches, and with the status
/// of each of its worktrees in order.
pub proof fn repository_is_printed_whole(
    repository: &GitRepository,
    worktrees: &[GitWorktreeStatus],
    texts: Seq<String>,
    text: String,
)
    requires
        texts.len() == worktrees@.len(),
        forall|i: int|
            0 <= i < texts.len() ==> call_ensures(
                GitWorktreeStatus::to_json,
                (&worktrees@[i],),
                #[trigger] texts[i],
            ),
        call_ensures(GitRepository::to_json, (repository, worktrees), text),
    ensures
        exists|value: Json, own: Json, rows: Seq<Json>|
            text@ == #[trigger] json_text(value) && #[trigger] tells(value, "repository"@, own)
                && #[trigger] tells(value, "worktrees"@, Json::Array(rows)) && {
                &&& has_fields(value, 3)
                &&& tells(value, "schema_version"@, Json::Number(1))
                &&& has_fields(own, 5)
                &&& tells(own, "name"@, Json::Str(repository.display_name@))
                &&& tells(own, "root"@, Json::Str(repository.root@))
                &&& tells(own, "common_git_dir"@, Json::Str(repository.common_git_dir@))
                &&& tells(
                    own,
                    "integration_branch"@,
                    match option_view(repository.integration_branch) {
                        Some(text) => Json::Str(text),
                        None => Json::Null,
                    },
                )
                &&& tells(
                    own,
                    "remote_integration_branch"@,
                    match option_view(repository.remote_integration_branch) {
                        Some(text) => Json::Str(text),
                        None => Json::Null,
                    },
                )
                &&& rows.len() == texts.len()
                &&& forall|i: int|
                    0 <= i < rows.len() ==> (#[trigger] texts[i])@ == json_text(rows[i])
            },
{
    let value = repository@.json(views(worktrees@));
    let own = repository@.own_json();
    let rows = Seq::new(views(worktrees@).len(), |i: int| views(worktrees@)[i].json());
    let fields = own->Object_0;
    assert(value->Object_0[0] == ("schema_version"@, Json::Number(1)));
    assert(value->Object_0[1] == ("repository"@, own));
    assert(value->Object_0[2] == ("worktrees"@, Json::Array(rows)));
    assert(tells(value, "repository"@, own));
    assert(tells(value, "worktrees"@, Json::Array(rows)));
    assert(fields[0] == ("name"@, Json::Str(repository.display_name@)));
    assert(fields[1] == ("root"@, Json::Str(repository.root@)));
    assert(fields[2] == ("common_git_dir"@, Json::Str(repository.common_git_dir@)));
    assert(
        fields[3] == (
            "integration_branch"@,
            match option_view(repository.integration_branch) {
                Some(text) => Json::Str(text),
                None => Json::Null,
            },
        )
    );
    assert(
        fields[4] == (
            "remote_integration_branch"@,
            match option_view(repository.remote_integration_branch) {
                Some(text) => Json::Str(text),
                None => Json::Null,
            },
        )
    );
    assert forall|i: int| 0 <= i < rows.len() implies (#[trigger] texts[i])@ == json_text(
        rows[i],
    ) by {
        assert(views(worktrees@)[i] == worktrees@[i]@);
    }
    assert(text@ == json_text(value));
}

} // verus!

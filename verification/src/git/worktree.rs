//! A worktree as Git lists it, and everything observed of it.

use crate::json::value::Json;
use crate::json::writer::array;
use crate::json::writer::field_texts;
use crate::json::writer::item_texts;
use crate::json::writer::json_text;
use crate::json::writer::lemma_field_texts;
use crate::json::writer::lemma_item_texts;
use crate::json::writer::number_or_null;
use crate::json::writer::signed_or_null;
use crate::json::writer::text_or_null;
use crate::json::writer::truth_or_null;
use crate::json::writer::Object;
use crate::model::ChangeEntry;
use crate::model::ChangeEntryView;
use crate::model::ChangeSummaryView;
use crate::model::CommitSummary;
use crate::model::CommitSummaryView;
use crate::model::DiskUsageView;
use crate::model::MergeStatusView;
use crate::model::TimeObservationView;
use crate::model::UpstreamStatusView;
use crate::model::WorktreeStatusData;
use crate::model::WorktreeStatusDataView;
use crate::text::as_slice;
use crate::text::copy_option;
use crate::text::option_view;
use crate::text::same_option;
use crate::text::views;
use vstd::prelude::*;

verus! {

/// A worktree as Git lists it.
#[derive(Debug, PartialEq, Eq)]
pub struct GitWorktree {
    pub path: String,
    pub head: Option<String>,
    pub branch: Option<String>,
    pub detached: bool,
    pub bare: bool,
    pub locked: bool,
    pub lock_reason: Option<String>,
    pub prunable: bool,
    pub prune_reason: Option<String>,
}

/// The view of a [`GitWorktree`].
#[verifier::ext_equal]
pub struct GitWorktreeView {
    pub path: Seq<char>,
    pub head: Option<Seq<char>>,
    pub branch: Option<Seq<char>>,
    pub detached: bool,
    pub bare: bool,
    pub locked: bool,
    pub lock_reason: Option<Seq<char>>,
    pub prunable: bool,
    pub prune_reason: Option<Seq<char>>,
}

impl View for GitWorktree {
    type V = GitWorktreeView;

    open spec fn view(&self) -> GitWorktreeView {
        GitWorktreeView {
            path: self.path@,
            head: option_view(self.head),
            branch: option_view(self.branch),
            detached: self.detached,
            bare: self.bare,
            locked: self.locked,
            lock_reason: option_view(self.lock_reason),
            prunable: self.prunable,
            prune_reason: option_view(self.prune_reason),
        }
    }
}

impl Clone for GitWorktree {
    fn clone(&self) -> (copy: Self)
        ensures
            copy@ == self@,
    {
        GitWorktree {
            path: self.path.clone(),
            head: copy_option(&self.head),
            branch: copy_option(&self.branch),
            detached: self.detached,
            bare: self.bare,
            locked: self.locked,
            lock_reason: copy_option(&self.lock_reason),
            prunable: self.prunable,
            prune_reason: copy_option(&self.prune_reason),
        }
    }
}

impl GitWorktreeView {
    /// The word for what Git says of the worktree.
    pub open spec fn word(self) -> Seq<char> {
        if self.prunable {
            "prunable"@
        } else if self.bare {
            "bare"@
        } else if self.locked {
            "locked"@
        } else if self.detached {
            "detached"@
        } else {
            "available"@
        }
    }

    /// The worktree as JSON.
    pub open spec fn json(self) -> Json {
        Json::Object(
            seq![
                ("path"@, Json::Str(self.path)),
                ("branch"@, text_or_null(self.branch)),
                ("head"@, text_or_null(self.head)),
                ("detached"@, Json::Bool(self.detached)),
                ("bare"@, Json::Bool(self.bare)),
                ("locked"@, Json::Bool(self.locked)),
                ("lock_reason"@, text_or_null(self.lock_reason)),
                ("prunable"@, Json::Bool(self.prunable)),
                ("prune_reason"@, text_or_null(self.prune_reason)),
                ("git_state"@, Json::Str(self.word())),
            ],
        )
    }
}

impl GitWorktree {
    /// The word for what Git says of the worktree.
    pub fn state(&self) -> (word: &'static str)
        ensures
            word@ == self@.word(),
    {
        if self.prunable {
            "prunable"
        } else if self.bare {
            "bare"
        } else if self.locked {
            "locked"
        } else if self.detached {
            "detached"
        } else {
            "available"
        }
    }

    /// Prints the worktree as JSON.
    pub fn to_json(&self) -> (text: String)
        ensures
            text@ == json_text(self@.json()),
    {
        let object = Object::new().string("path", &self.path).optional_string(
            "branch",
            as_slice(&self.branch),
        ).optional_string("head", as_slice(&self.head)).bool("detached", self.detached).bool(
            "bare",
            self.bare,
        ).bool("locked", self.locked).optional_string("lock_reason", as_slice(
            &self.lock_reason
        )).bool(
            "prunable",
            self.prunable,
        ).optional_string("prune_reason", as_slice(&self.prune_reason)).string(
            "git_state",
            self.state(),
        );
        proof {
            let fields = self@.json()->Object_0;
            lemma_field_texts(fields);
            assert(object@ =~= field_texts(fields));
        }
        object.finish()
    }
}

/// A worktree with everything observed of it.
#[derive(Debug, PartialEq, Eq)]
pub struct GitWorktreeStatus {
    pub worktree: GitWorktree,
    /// Whether anything stands at the path of the worktree.
    pub path_exists: bool,
    pub data: WorktreeStatusData,
    pub observation_error: Option<String>,
}

/// The view of a [`GitWorktreeStatus`].
#[verifier::ext_equal]
pub struct GitWorktreeStatusView {
    pub worktree: GitWorktreeView,
    pub path_exists: bool,
    pub data: WorktreeStatusDataView,
    pub observation_error: Option<Seq<char>>,
}

impl View for GitWorktreeStatus {
    type V = GitWorktreeStatusView;

    open spec fn view(&self) -> GitWorktreeStatusView {
        GitWorktreeStatusView {
            worktree: self.worktree@,
            path_exists: self.path_exists,
            data: self.data@,
            observation_error: option_view(self.observation_error),
        }
    }
}

impl Clone for GitWorktreeStatus {
    fn clone(&self) -> (copy: Self)
        ensures
            copy@ == self@,
    {
        GitWorktreeStatus {
            worktree: self.worktree.clone(),
            path_exists: self.path_exists,
            data: self.data.clone(),
            observation_error: copy_option(&self.observation_error),
        }
    }
}

impl GitWorktreeStatusView {
    /// The one word that sums up a worktree. A branch is always merged into
    /// itself, so the integration branch is not reported as merged.
    pub open spec fn word(self) -> Seq<char> {
        if self.worktree.prunable || !self.path_exists {
            "unavailable"@
        } else if self.observation_error is Some {
            "unknown"@
        } else if self.data.changes.conflicted > 0 {
            "conflicted"@
        } else if self.data.changes.is_dirty() {
            "dirty"@
        } else if self.data.merge.merged_locally == Some(true) && !self.is_integration_branch() {
            "merged-locally"@
        } else if self.data.merge.merged_locally == Some(false) {
            "unmerged"@
        } else {
            "clean"@
        }
    }

    /// Whether the worktree has the integration branch itself checked out.
    pub open spec fn is_integration_branch(self) -> bool {
        self.worktree.branch is Some && self.worktree.branch == self.data.merge.integration_branch
    }

    /// The status as JSON.
    pub open spec fn json(self) -> Json {
        Json::Object(
            seq![
                ("worktree"@, self.worktree.json()),
                ("state"@, Json::Str(self.word())),
                ("changes"@, changes_json(self.data.changes)),
                ("upstream"@, upstream_json(self.data.upstream)),
                ("merge"@, merge_json(self.data.merge)),
                ("last_commit"@, commit_or_null(self.data.last_commit)),
                ("disk_usage"@, disk_json(self.data.disk_usage)),
                ("time"@, time_json(self.data.time)),
                ("observation_error"@, text_or_null(self.observation_error)),
            ],
        )
    }
}

/// A changed path as JSON.
pub open spec fn entry_json(entry: ChangeEntryView) -> Json {
    Json::Object(
        seq![
            ("path"@, Json::Str(entry.path)),
            ("source_path"@, text_or_null(entry.source_path)),
            ("index_status"@, Json::Str(seq![entry.index_status])),
            ("worktree_status"@, Json::Str(seq![entry.worktree_status])),
            ("kind"@, Json::Str(entry.kind.word())),
            ("conflicted"@, Json::Bool(entry.conflicted)),
        ],
    )
}

/// The changes as JSON.
pub open spec fn changes_json(changes: ChangeSummaryView) -> Json {
    Json::Object(
        seq![
            ("staged"@, Json::Number(changes.staged as int)),
            ("unstaged"@, Json::Number(changes.unstaged as int)),
            ("untracked"@, Json::Number(changes.untracked as int)),
            ("conflicted"@, Json::Number(changes.conflicted as int)),
            ("ignored"@, Json::Number(changes.ignored as int)),
            ("dirty_files"@, Json::Number(changes.entries.len() as int % 0x1_0000_0000)),
            ("dirty"@, Json::Bool(changes.is_dirty())),
            ("state"@, Json::Str(changes.word())),
            (
                "entries"@,
                Json::Array(
                    Seq::new(changes.entries.len(), |i: int| entry_json(changes.entries[i]))
                ),
            ),
        ],
    )
}

/// An optional 32-bit number as JSON.
pub open spec fn count_or_null(count: Option<u32>) -> Json {
    match count {
        Some(number) => Json::Number(number as int),
        None => Json::Null,
    }
}

/// The upstream as JSON.
pub open spec fn upstream_json(upstream: UpstreamStatusView) -> Json {
    Json::Object(
        seq![
            ("name"@, text_or_null(upstream.name)),
            ("ahead"@, count_or_null(upstream.ahead)),
            ("behind"@, count_or_null(upstream.behind)),
        ],
    )
}

/// The merge state as JSON.
pub open spec fn merge_json(merge: MergeStatusView) -> Json {
    Json::Object(
        seq![
            ("integration_branch"@, text_or_null(merge.integration_branch)),
            ("remote_integration_branch"@, text_or_null(merge.remote_integration_branch)),
            ("unique_commits"@, count_or_null(merge.unique_commits)),
            ("merged_locally"@, truth_or_null(merge.merged_locally)),
            ("merged_remotely"@, truth_or_null(merge.merged_remotely)),
            ("classification"@, Json::Str(merge.classification)),
        ],
    )
}

/// A commit as JSON.
pub open spec fn commit_json(commit: CommitSummaryView) -> Json {
    Json::Object(
        seq![
            ("id"@, Json::Str(commit.id)),
            ("author"@, text_or_null(commit.author)),
            ("committed_at"@, text_or_null(commit.committed_at)),
            ("subject"@, text_or_null(commit.subject)),
        ],
    )
}

/// A commit as JSON, or `null`.
pub open spec fn commit_or_null(commit: Option<CommitSummaryView>) -> Json {
    match commit {
        Some(inner) => commit_json(inner),
        None => Json::Null,
    }
}

/// The disk usage as JSON.
pub open spec fn disk_json(usage: DiskUsageView) -> Json {
    Json::Object(
        seq![
            ("worktree_bytes"@, Json::Number(usage.worktree_bytes as int)),
            ("git_common_bytes"@, Json::Number(usage.git_common_bytes as int)),
            ("total_bytes"@, Json::Number(usage.total())),
        ],
    )
}

/// The time as JSON.
pub open spec fn time_json(time: TimeObservationView) -> Json {
    Json::Object(
        seq![
            (
                "filesystem_modified_unix_seconds"@,
                signed_or_null(time.filesystem_modified_unix_seconds),
            ),
            ("filesystem_modified_provenance"@, Json::Str(time.filesystem_modified_provenance)),
        ],
    )
}

fn widen(count: Option<u32>) -> (wide: Option<u64>)
    ensures
        number_or_null(wide) == count_or_null(count),
{
    match count {
        Some(number) => Some(number as u64),
        None => None,
    }
}

fn letter(c: char) -> (text: String)
    ensures
        text@ == seq![c],
{
    let mut text = String::new();
    text.push(c);
    assert(text@ =~= seq![c]);
    text
}

/// Prints a changed path as JSON.
pub fn change_entry_to_json(entry: &ChangeEntry) -> (text: String)
    ensures
        text@ == json_text(entry_json(entry@)),
{
    let index_status = letter(entry.index_status);
    let worktree_status = letter(entry.worktree_status);
    let object = Object::new().string("path", &entry.path).optional_string(
        "source_path",
        as_slice(&entry.source_path),
    ).string("index_status", &index_status).string("worktree_status", &worktree_status).string(
        "kind",
        entry.kind.as_str(),
    ).bool("conflicted", entry.conflicted);
    proof {
        let fields = entry_json(entry@)->Object_0;
        lemma_field_texts(fields);
        assert(object@ =~= field_texts(fields));
    }
    object.finish()
}

/// Prints a commit as JSON.
pub fn commit_to_json(commit: &CommitSummary) -> (text: String)
    ensures
        text@ == json_text(commit_json(commit@)),
{
    let object = Object::new().string("id", &commit.id).optional_string(
        "author",
        as_slice(&commit.author),
    ).optional_string("committed_at", as_slice(&commit.committed_at)).optional_string(
        "subject",
        as_slice(&commit.subject),
    );
    proof {
        let fields = commit_json(commit@)->Object_0;
        lemma_field_texts(fields);
        assert(object@ =~= field_texts(fields));
    }
    object.finish()
}

fn entries_to_json(entries: &Vec<ChangeEntry>) -> (text: String)
    ensures
        text@ == json_text(
            Json::Array(Seq::new(entries@.len(), |i: int| entry_json(views(entries@)[i]))),
        ),
{
    let ghost items = Seq::new(entries@.len(), |i: int| entry_json(views(entries@)[i]));
    let mut texts: Vec<String> = Vec::new();
    let mut i: usize = 0;
    while i < entries.len()
        invariant
            i <= entries.len(),
            texts.len() == i,
            forall|j: int| 0 <= j < i ==> texts@[j]@ == json_text(entry_json(entries@[j]@)),
        decreases entries.len() - i,
    {
        texts.push(change_entry_to_json(&entries[i]));
        i += 1;
    }
    proof {
        lemma_item_texts(items);
        assert(views(texts@) =~= item_texts(items));
    }
    array(texts)
}

impl GitWorktreeStatus {
    /// The one word that sums up a worktree.
    pub fn state(&self) -> (word: &'static str)
        ensures
            word@ == self@.word(),
    {
        if self.worktree.prunable || !self.path_exists {
            "unavailable"
        } else if self.observation_error.is_some() {
            "unknown"
        } else if self.data.changes.conflicted > 0 {
            "conflicted"
        } else if self.data.changes.dirty() {
            "dirty"
        } else {
            let integration_branch = self.worktree.branch.is_some() && same_option(
                &self.worktree.branch,
                &self.data.merge.integration_branch,
            );
            match self.data.merge.merged_locally {
                Some(true) => if integration_branch {
                    "clean"
                } else {
                    "merged-locally"
                },
                Some(false) => "unmerged",
                None => "clean",
            }
        }
    }

    fn changes_to_json(&self) -> (text: String)
        ensures
            text@ == json_text(changes_json(self@.data.changes)),
    {
        let changes = &self.data.changes;
        let entries = entries_to_json(&changes.entries);
        let ghost listed = Json::Array(
            Seq::new(changes@.entries.len(), |i: int| entry_json(changes@.entries[i])),
        );
        assert(entries@ == json_text(listed));
        let object = Object::new().number("staged", changes.staged as u64).number(
            "unstaged",
            changes.unstaged as u64,
        ).number("untracked", changes.untracked as u64).number(
            "conflicted",
            changes.conflicted as u64,
        ).number("ignored", changes.ignored as u64).number(
            "dirty_files",
            changes.dirty_files() as u64,
        ).bool("dirty", changes.dirty()).string("state", changes.state()).raw("entries", entries);
        proof {
            let fields = changes_json(changes@)->Object_0;
            lemma_field_texts(fields);
            assert(fields[8].1 == listed);
            assert(object@ =~= field_texts(fields));
        }
        object.finish()
    }

    fn upstream_to_json(&self) -> (text: String)
        ensures
            text@ == json_text(upstream_json(self@.data.upstream)),
    {
        let upstream = &self.data.upstream;
        let object = Object::new().optional_string("name", as_slice(&upstream.name)).optional_number(
            "ahead",
            widen(upstream.ahead),
        ).optional_number("behind", widen(upstream.behind));
        proof {
            let fields = upstream_json(upstream@)->Object_0;
            lemma_field_texts(fields);
            assert(object@ =~= field_texts(fields));
        }
        object.finish()
    }

    fn merge_to_json(&self) -> (text: String)
        ensures
            text@ == json_text(merge_json(self@.data.merge)),
    {
        let merge = &self.data.merge;
        let object = Object::new().optional_string(
            "integration_branch",
            as_slice(&merge.integration_branch),
        ).optional_string(
            "remote_integration_branch",
            as_slice(&merge.remote_integration_branch),
        ).optional_number("unique_commits", widen(merge.unique_commits)).optional_bool(
            "merged_locally",
            merge.merged_locally,
        ).optional_bool("merged_remotely", merge.merged_remotely).string(
            "classification",
            &merge.classification,
        );
        proof {
            let fields = merge_json(merge@)->Object_0;
            lemma_field_texts(fields);
            assert(object@ =~= field_texts(fields));
        }
        object.finish()
    }

    fn disk_usage_to_json(&self) -> (text: String)
        ensures
            text@ == json_text(disk_json(self@.data.disk_usage)),
    {
        let usage = &self.data.disk_usage;
        let object = Object::new().number("worktree_bytes", usage.worktree_bytes).number(
            "git_common_bytes",
            usage.git_common_bytes,
        ).number("total_bytes", usage.total_bytes());
        proof {
            let fields = disk_json(usage@)->Object_0;
            lemma_field_texts(fields);
            assert(object@ =~= field_texts(fields));
        }
        object.finish()
    }

    fn time_to_json(&self) -> (text: String)
        ensures
            text@ == json_text(time_json(self@.data.time)),
    {
        let time = &self.data.time;
        let object = Object::new().optional_signed_number(
            "filesystem_modified_unix_seconds",
            time.filesystem_modified_unix_seconds,
        ).string("filesystem_modified_provenance", time.filesystem_modified_provenance);
        proof {
            let fields = time_json(time@)->Object_0;
            lemma_field_texts(fields);
            assert(object@ =~= field_texts(fields));
        }
        object.finish()
    }

    /// Prints the status as JSON.
    #[verifier::rlimit(60)]
    #[verifier::spinoff_prover]
    pub fn to_json(&self) -> (text: String)
        ensures
            text@ == json_text(self@.json()),
    {
        let changes = self.changes_to_json();
        let upstream = self.upstream_to_json();
        let merge = self.merge_to_json();
        let last_commit = match &self.data.last_commit {
            Some(commit) => commit_to_json(commit),
            None => "null".to_owned(),
        };
        assert(last_commit@ == json_text(commit_or_null(self@.data.last_commit)));
        let disk_usage = self.disk_usage_to_json();
        let time = self.time_to_json();
        let worktree = self.worktree.to_json();
        let object = Object::new().raw("worktree", worktree).string("state", self.state()).raw(
            "changes",
            changes,
        ).raw("upstream", upstream).raw("merge", merge).raw("last_commit", last_commit).raw(
            "disk_usage",
            disk_usage,
        ).raw("time", time).optional_string("observation_error", as_slice(&self.observation_error));
        proof {
            let fields = self@.json()->Object_0;
            lemma_field_texts(fields);
            assert(object@ =~= field_texts(fields));
        }
        object.finish()
    }
}

} // verus!

//! What is known of a worktree: its changes, its upstream, its merge state.

use crate::text::copy_option;
use crate::text::option_view;
use crate::text::views;
use vstd::prelude::*;

verus! {

/// What happened to a path.
#[derive(Debug, Clone, Copy, PartialEq, Eq, Structural)]
pub enum ChangeKind {
    Modified,
    Added,
    Deleted,
    Renamed,
    Copied,
    Untracked,
    TypeChanged,
    Unmerged,
    Other,
}

impl ChangeKind {
    /// The word for a change.
    pub open spec fn word(self) -> Seq<char> {
        match self {
            ChangeKind::Modified => "modified"@,
            ChangeKind::Added => "added"@,
            ChangeKind::Deleted => "deleted"@,
            ChangeKind::Renamed => "renamed"@,
            ChangeKind::Copied => "copied"@,
            ChangeKind::Untracked => "untracked"@,
            ChangeKind::TypeChanged => "type-changed"@,
            ChangeKind::Unmerged => "unmerged"@,
            ChangeKind::Other => "other"@,
        }
    }

    /// The word for a change.
    pub fn as_str(self) -> (word: &'static str)
        ensures
            word@ == self.word(),
    {
        match self {
            ChangeKind::Modified => "modified",
            ChangeKind::Added => "added",
            ChangeKind::Deleted => "deleted",
            ChangeKind::Renamed => "renamed",
            ChangeKind::Copied => "copied",
            ChangeKind::Untracked => "untracked",
            ChangeKind::TypeChanged => "type-changed",
            ChangeKind::Unmerged => "unmerged",
            ChangeKind::Other => "other",
        }
    }
}

/// One changed path, with the two status letters that Git printed for it.
#[derive(Debug, PartialEq, Eq)]
pub struct ChangeEntry {
    pub path: String,
    pub source_path: Option<String>,
    pub index_status: char,
    pub worktree_status: char,
    pub kind: ChangeKind,
    pub conflicted: bool,
}

/// The view of a [`ChangeEntry`].
#[verifier::ext_equal]
pub struct ChangeEntryView {
    pub path: Seq<char>,
    pub source_path: Option<Seq<char>>,
    pub index_status: char,
    pub worktree_status: char,
    pub kind: ChangeKind,
    pub conflicted: bool,
}

impl View for ChangeEntry {
    type V = ChangeEntryView;

    open spec fn view(&self) -> ChangeEntryView {
        ChangeEntryView {
            path: self.path@,
            source_path: option_view(self.source_path),
            index_status: self.index_status,
            worktree_status: self.worktree_status,
            kind: self.kind,
            conflicted: self.conflicted,
        }
    }
}

impl Clone for ChangeEntry {
    fn clone(&self) -> (copy: Self)
        ensures
            copy@ == self@,
    {
        ChangeEntry {
            path: self.path.clone(),
            source_path: copy_option(&self.source_path),
            index_status: self.index_status,
            worktree_status: self.worktree_status,
            kind: self.kind,
            conflicted: self.conflicted,
        }
    }
}

/// Copies changed paths.
pub fn copy_entries(entries: &Vec<ChangeEntry>) -> (copy: Vec<ChangeEntry>)
    ensures
        views(copy@) == views(entries@),
{
    let mut copy: Vec<ChangeEntry> = Vec::new();
    let mut i: usize = 0;
    while i < entries.len()
        invariant
            i <= entries.len(),
            copy.len() == i,
            forall|j: int| 0 <= j < i ==> copy@[j]@ == entries@[j]@,
        decreases entries.len() - i,
    {
        copy.push(entries[i].clone());
        i += 1;
    }
    assert(views(copy@) =~= views(entries@));
    copy
}

/// The changes in a worktree.
#[derive(Debug, PartialEq, Eq)]
pub struct ChangeSummary {
    pub staged: u32,
    pub unstaged: u32,
    pub untracked: u32,
    pub conflicted: u32,
    pub ignored: u32,
    pub entries: Vec<ChangeEntry>,
}

/// The view of a [`ChangeSummary`].
#[verifier::ext_equal]
pub struct ChangeSummaryView {
    pub staged: u32,
    pub unstaged: u32,
    pub untracked: u32,
    pub conflicted: u32,
    pub ignored: u32,
    pub entries: Seq<ChangeEntryView>,
}

impl View for ChangeSummary {
    type V = ChangeSummaryView;

    open spec fn view(&self) -> ChangeSummaryView {
        ChangeSummaryView {
            staged: self.staged,
            unstaged: self.unstaged,
            untracked: self.untracked,
            conflicted: self.conflicted,
            ignored: self.ignored,
            entries: views(self.entries@),
        }
    }
}

impl Clone for ChangeSummary {
    fn clone(&self) -> (copy: Self)
        ensures
            copy@ == self@,
    {
        ChangeSummary {
            staged: self.staged,
            unstaged: self.unstaged,
            untracked: self.untracked,
            conflicted: self.conflicted,
            ignored: self.ignored,
            entries: copy_entries(&self.entries),
        }
    }
}

impl ChangeSummaryView {
    /// Nothing changed.
    pub open spec fn none() -> ChangeSummaryView {
        ChangeSummaryView {
            staged: 0,
            unstaged: 0,
            untracked: 0,
            conflicted: 0,
            ignored: 0,
            entries: seq![],
        }
    }

    /// Whether anything but ignored files differs from the last commit.
    pub open spec fn is_dirty(self) -> bool {
        self.staged > 0 || self.unstaged > 0 || self.untracked > 0 || self.conflicted > 0
    }

    /// The word for the changes as a whole.
    pub open spec fn word(self) -> Seq<char> {
        if self.conflicted > 0 {
            "conflicted"@
        } else if self.is_dirty() {
            "dirty"@
        } else {
            "clean"@
        }
    }
}

impl Default for ChangeSummary {
    fn default() -> (summary: Self)
        ensures
            summary@ == ChangeSummaryView::none(),
    {
        let entries: Vec<ChangeEntry> = Vec::new();
        assert(views(entries@) =~= seq![]);
        ChangeSummary { staged: 0, unstaged: 0, untracked: 0, conflicted: 0, ignored: 0, entries }
    }
}

impl ChangeSummary {
    /// Whether anything but ignored files differs from the last commit.
    pub fn dirty(&self) -> (dirty: bool)
        ensures
            dirty == self@.is_dirty(),
    {
        self.staged > 0 || self.unstaged > 0 || self.untracked > 0 || self.conflicted > 0
    }

    /// The number of changed paths, in 32 bits.
    pub fn dirty_files(&self) -> (count: u32)
        ensures
            count == self@.entries.len() % 0x1_0000_0000,
    {
        let count: usize = self.entries.len();
        let wide: u64 = count as u64;
        assert(#[verifier::truncate] (wide as u32) == wide % 0x1_0000_0000) by (bit_vector);
        #[verifier::truncate]
        (wide as u32)
    }

    /// The word for the changes as a whole.
    pub fn state(&self) -> (word: &'static str)
        ensures
            word@ == self@.word(),
    {
        if self.conflicted > 0 {
            "conflicted"
        } else if self.dirty() {
            "dirty"
        } else {
            "clean"
        }
    }
}

/// How a branch stands to its upstream.
#[derive(Debug, PartialEq, Eq)]
pub struct UpstreamStatus {
    pub name: Option<String>,
    pub ahead: Option<u32>,
    pub behind: Option<u32>,
}

/// The view of a [`UpstreamStatus`].
#[verifier::ext_equal]
pub struct UpstreamStatusView {
    pub name: Option<Seq<char>>,
    pub ahead: Option<u32>,
    pub behind: Option<u32>,
}

impl View for UpstreamStatus {
    type V = UpstreamStatusView;

    open spec fn view(&self) -> UpstreamStatusView {
        UpstreamStatusView {
            name: option_view(self.name),
            ahead: self.ahead,
            behind: self.behind,
        }
    }
}

impl Clone for UpstreamStatus {
    fn clone(&self) -> (copy: Self)
        ensures
            copy@ == self@,
    {
        UpstreamStatus {
            name: copy_option(&self.name),
            ahead: self.ahead,
            behind: self.behind,
        }
    }
}

impl UpstreamStatusView {
    /// No upstream.
    pub open spec fn none() -> UpstreamStatusView {
        UpstreamStatusView { name: None, ahead: None, behind: None }
    }
}

impl Default for UpstreamStatus {
    fn default() -> (status: Self)
        ensures
            status@ == UpstreamStatusView::none(),
    {
        UpstreamStatus { name: None, ahead: None, behind: None }
    }
}

/// Whether the commits of a worktree are part of an integration branch.
#[derive(Debug, PartialEq, Eq)]
pub struct MergeStatus {
    pub integration_branch: Option<String>,
    pub remote_integration_branch: Option<String>,
    pub unique_commits: Option<u32>,
    pub merged_locally: Option<bool>,
    pub merged_remotely: Option<bool>,
    pub classification: String,
}

/// The view of a [`MergeStatus`].
#[verifier::ext_equal]
pub struct MergeStatusView {
    pub integration_branch: Option<Seq<char>>,
    pub remote_integration_branch: Option<Seq<char>>,
    pub unique_commits: Option<u32>,
    pub merged_locally: Option<bool>,
    pub merged_remotely: Option<bool>,
    pub classification: Seq<char>,
}

impl View for MergeStatus {
    type V = MergeStatusView;

    open spec fn view(&self) -> MergeStatusView {
        MergeStatusView {
            integration_branch: option_view(self.integration_branch),
            remote_integration_branch: option_view(self.remote_integration_branch),
            unique_commits: self.unique_commits,
            merged_locally: self.merged_locally,
            merged_remotely: self.merged_remotely,
            classification: self.classification@,
        }
    }
}

impl Clone for MergeStatus {
    fn clone(&self) -> (copy: Self)
        ensures
            copy@ == self@,
    {
        MergeStatus {
            integration_branch: copy_option(&self.integration_branch),
            remote_integration_branch: copy_option(&self.remote_integration_branch),
            unique_commits: self.unique_commits,
            merged_locally: self.merged_locally,
            merged_remotely: self.merged_remotely,
            classification: self.classification.clone(),
        }
    }
}

impl MergeStatusView {
    /// Nothing known, and no word for it.
    pub open spec fn none() -> MergeStatusView {
        MergeStatusView {
            integration_branch: None,
            remote_integration_branch: None,
            unique_commits: None,
            merged_locally: None,
            merged_remotely: None,
            classification: seq![],
        }
    }
}

impl Default for MergeStatus {
    fn default() -> (status: Self)
        ensures
            status@ == MergeStatusView::none(),
    {
        MergeStatus {
            integration_branch: None,
            remote_integration_branch: None,
            unique_commits: None,
            merged_locally: None,
            merged_remotely: None,
            classification: String::new(),
        }
    }
}

/// The last commit of a worktree.
#[derive(Debug, PartialEq, Eq)]
pub struct CommitSummary {
    pub id: String,
    pub author: Option<String>,
    pub committed_at: Option<String>,
    pub subject: Option<String>,
}

/// The view of a [`CommitSummary`].
#[verifier::ext_equal]
pub struct CommitSummaryView {
    pub id: Seq<char>,
    pub author: Option<Seq<char>>,
    pub committed_at: Option<Seq<char>>,
    pub subject: Option<Seq<char>>,
}

impl View for CommitSummary {
    type V = CommitSummaryView;

    open spec fn view(&self) -> CommitSummaryView {
        CommitSummaryView {
            id: self.id@,
            author: option_view(self.author),
            committed_at: option_view(self.committed_at),
            subject: option_view(self.subject),
        }
    }
}

impl Clone for CommitSummary {
    fn clone(&self) -> (copy: Self)
        ensures
            copy@ == self@,
    {
        CommitSummary {
            id: self.id.clone(),
            author: copy_option(&self.author),
            committed_at: copy_option(&self.committed_at),
            subject: copy_option(&self.subject),
        }
    }
}

impl CommitSummaryView {
    /// No commit.
    pub open spec fn none() -> CommitSummaryView {
        CommitSummaryView { id: seq![], author: None, committed_at: None, subject: None }
    }
}

impl Default for CommitSummary {
    fn default() -> (summary: Self)
        ensures
            summary@ == CommitSummaryView::none(),
    {
        CommitSummary { id: String::new(), author: None, committed_at: None, subject: None }
    }
}

/// The bytes that a worktree and the shared Git directory take.
#[derive(Debug, PartialEq, Eq)]
pub struct DiskUsage {
    pub worktree_bytes: u64,
    pub git_common_bytes: u64,
}

/// The view of a [`DiskUsage`].
#[verifier::ext_equal]
pub struct DiskUsageView {
    pub worktree_bytes: u64,
    pub git_common_bytes: u64,
}

impl View for DiskUsage {
    type V = DiskUsageView;

    open spec fn view(&self) -> DiskUsageView {
        DiskUsageView {
            worktree_bytes: self.worktree_bytes,
            git_common_bytes: self.git_common_bytes,
        }
    }
}

impl Clone for DiskUsage {
    fn clone(&self) -> (copy: Self)
        ensures
            copy@ == self@,
    {
        DiskUsage {
            worktree_bytes: self.worktree_bytes,
            git_common_bytes: self.git_common_bytes,
        }
    }
}

impl DiskUsageView {
    /// Nothing measured.
    pub open spec fn none() -> DiskUsageView {
        DiskUsageView { worktree_bytes: 0, git_common_bytes: 0 }
    }

    /// The bytes of both together, as far as 64 bits can count.
    pub open spec fn total(self) -> int {
        if self.worktree_bytes + self.git_common_bytes > u64::MAX {
            u64::MAX as int
        } else {
            self.worktree_bytes + self.git_common_bytes
        }
    }
}

impl DiskUsage {
    /// The bytes of both together, as far as 64 bits can count.
    pub fn total_bytes(&self) -> (bytes: u64)
        ensures
            bytes == self@.total(),
    {
        self.worktree_bytes.saturating_add(self.git_common_bytes)
    }
}

impl Default for DiskUsage {
    fn default() -> (usage: Self)
        ensures
            usage@ == DiskUsageView::none(),
    {
        DiskUsage { worktree_bytes: 0, git_common_bytes: 0 }
    }
}

/// When a worktree was last touched, and how that is known.
#[derive(Debug, PartialEq, Eq)]
pub struct TimeObservation {
    pub filesystem_modified_unix_seconds: Option<i64>,
    pub filesystem_modified_provenance: &'static str,
}

/// The view of a [`TimeObservation`].
#[verifier::ext_equal]
pub struct TimeObservationView {
    pub filesystem_modified_unix_seconds: Option<i64>,
    pub filesystem_modified_provenance: Seq<char>,
}

impl View for TimeObservation {
    type V = TimeObservationView;

    open spec fn view(&self) -> TimeObservationView {
        TimeObservationView {
            filesystem_modified_unix_seconds: self.filesystem_modified_unix_seconds,
            filesystem_modified_provenance: self.filesystem_modified_provenance@,
        }
    }
}

impl Clone for TimeObservation {
    fn clone(&self) -> (copy: Self)
        ensures
            copy@ == self@,
    {
        TimeObservation {
            filesystem_modified_unix_seconds: self.filesystem_modified_unix_seconds,
            filesystem_modified_provenance: self.filesystem_modified_provenance,
        }
    }
}

impl TimeObservationView {
    /// Nothing known, from nowhere.
    pub open spec fn none() -> TimeObservationView {
        TimeObservationView {
            filesystem_modified_unix_seconds: None,
            filesystem_modified_provenance: ""@,
        }
    }
}

impl Default for TimeObservation {
    fn default() -> (time: Self)
        ensures
            time@ == TimeObservationView::none(),
    {
        TimeObservation {
            filesystem_modified_unix_seconds: None,
            filesystem_modified_provenance: "",
        }
    }
}

/// Everything that was observed of a worktree.
#[derive(Debug, PartialEq, Eq)]
pub struct WorktreeStatusData {
    pub changes: ChangeSummary,
    pub upstream: UpstreamStatus,
    pub merge: MergeStatus,
    pub last_commit: Option<CommitSummary>,
    pub disk_usage: DiskUsage,
    pub time: TimeObservation,
}

/// The view of a [`WorktreeStatusData`].
#[verifier::ext_equal]
pub struct WorktreeStatusDataView {
    pub changes: ChangeSummaryView,
    pub upstream: UpstreamStatusView,
    pub merge: MergeStatusView,
    pub last_commit: Option<CommitSummaryView>,
    pub disk_usage: DiskUsageView,
    pub time: TimeObservationView,
}

impl View for WorktreeStatusData {
    type V = WorktreeStatusDataView;

    open spec fn view(&self) -> WorktreeStatusDataView {
        WorktreeStatusDataView {
            changes: self.changes@,
            upstream: self.upstream@,
            merge: self.merge@,
            last_commit: option_view(self.last_commit),
            disk_usage: self.disk_usage@,
            time: self.time@,
        }
    }
}

impl Clone for WorktreeStatusData {
    fn clone(&self) -> (copy: Self)
        ensures
            copy@ == self@,
    {
        WorktreeStatusData {
            changes: self.changes.clone(),
            upstream: self.upstream.clone(),
            merge: self.merge.clone(),
            last_commit: match &self.last_commit {
                Some(inner) => Some(inner.clone()),
                None => None,
            },
            disk_usage: self.disk_usage.clone(),
            time: self.time.clone(),
        }
    }
}

impl Default for WorktreeStatusData {
    fn default() -> (data: Self)
        ensures
            data@ == (WorktreeStatusDataView {
                changes: ChangeSummaryView::none(),
                upstream: UpstreamStatusView::none(),
                merge: MergeStatusView::none(),
                last_commit: None,
                disk_usage: DiskUsageView::none(),
                time: TimeObservationView::none(),
            }),
    {
        WorktreeStatusData {
            changes: ChangeSummary::default(),
            upstream: UpstreamStatus::default(),
            merge: MergeStatus::default(),
            last_commit: None,
            disk_usage: DiskUsage::default(),
            time: TimeObservation::default(),
        }
    }
}

} // verus!

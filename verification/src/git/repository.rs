//! A repository and the observation of its worktrees.

use crate::git::error::GitError;
use crate::git::error::GitErrorView;
use crate::git::porcelain::listed_worktrees;
use crate::git::porcelain::parse_worktree_list_porcelain;
use crate::git::reads::command_failure;
use crate::git::reads::filesystem_time;
use crate::git::reads::merge_status_unavailable;
use crate::git::reads::require_output;
use crate::git::reads::require_stdout;
use crate::git::reads::required_stdout;
use crate::git::reads::toplevel_args;
use crate::git::reads::worktree_list_args;
use crate::git::reads::common_dir_args;
use crate::git::reads::unknown_merge;
use crate::git::reads::CommandOutput;
use crate::git::reads::CommandOutputView;
use crate::git::worktree::GitWorktree;
use crate::git::worktree::GitWorktreeStatus;
use crate::git::worktree::GitWorktreeStatusView;
use crate::git::worktree::GitWorktreeView;
use crate::json::value::Json;
use crate::json::writer::array;
use crate::json::writer::field_texts;
use crate::json::writer::item_texts;
use crate::json::writer::json_text;
use crate::json::writer::lemma_field_texts;
use crate::json::writer::lemma_item_texts;
use crate::json::writer::slice_view;
use crate::json::writer::text_or_null;
use crate::json::writer::Object;
use crate::model::ChangeSummary;
use crate::model::ChangeSummaryView;
use crate::model::CommitSummary;
use crate::model::DiskUsage;
use crate::model::DiskUsageView;
use crate::model::MergeStatus;
use crate::model::TimeObservationView;
use crate::model::UpstreamStatus;
use crate::model::UpstreamStatusView;
use crate::model::WorktreeStatusData;
use crate::model::WorktreeStatusDataView;
use crate::paths::components;
use crate::paths::file_name;
use crate::paths::join_path;
use crate::paths::joined;
use crate::paths::last_name;
use crate::paths::parent_name;
use crate::paths::parent_name_text;
use crate::text::as_slice;
use crate::text::concat;
use crate::text::copy_option;
use crate::text::is_blank;
use crate::text::join;
use crate::text::join_text;
use crate::text::option_view;
use crate::text::same_text;
use crate::text::trim;
use crate::text::trim_text;
use crate::text::views;
use vstd::prelude::*;

verus! {

/// The worktrees that Git lists.
pub open spec fn listing(output: CommandOutputView) -> Result<Seq<GitWorktreeView>, GitErrorView> {
    if output.success() {
        listed_worktrees(output.stdout)
    } else {
        Err(
            command_failure(seq!["worktree"@, "list"@, "--porcelain"@, "-z"@], output),
        )
    }
}

/// A repository, its shared Git directory and its integration branches.
#[derive(Debug, PartialEq, Eq)]
pub struct GitRepository {
    pub root: String,
    pub common_git_dir: String,
    pub display_name: String,
    pub integration_branch: Option<String>,
    pub remote_integration_branch: Option<String>,
}

/// The view of a [`GitRepository`].
#[verifier::ext_equal]
pub struct GitRepositoryView {
    pub root: Seq<char>,
    pub common_git_dir: Seq<char>,
    pub display_name: Seq<char>,
    pub integration_branch: Option<Seq<char>>,
    pub remote_integration_branch: Option<Seq<char>>,
}

impl View for GitRepository {
    type V = GitRepositoryView;

    open spec fn view(&self) -> GitRepositoryView {
        GitRepositoryView {
            root: self.root@,
            common_git_dir: self.common_git_dir@,
            display_name: self.display_name@,
            integration_branch: option_view(self.integration_branch),
            remote_integration_branch: option_view(self.remote_integration_branch),
        }
    }
}

impl Clone for GitRepository {
    fn clone(&self) -> (copy: Self)
        ensures
            copy@ == self@,
    {
        GitRepository {
            root: self.root.clone(),
            common_git_dir: self.common_git_dir.clone(),
            display_name: self.display_name.clone(),
            integration_branch: copy_option(&self.integration_branch),
            remote_integration_branch: copy_option(&self.remote_integration_branch),
        }
    }
}

/// The name under which a repository is shown.
pub open spec fn display_name_text(root: Seq<char>, common_git_dir: Seq<char>) -> Seq<char> {
    let named = if last_name(components(common_git_dir)) == Some(".git"@) {
        parent_name_text(common_git_dir)
    } else {
        last_name(components(common_git_dir))
    };
    match named {
        Some(name) => name,
        None => match last_name(components(root)) {
            Some(name) => name,
            None => root,
        },
    }
}

/// The name under which a repository is shown.
pub fn repository_display_name(root: &str, common_git_dir: &str) -> (name: String)
    ensures
        name@ == display_name_text(root@, common_git_dir@),
{
    let own = file_name(common_git_dir);
    let inside_worktree = match &own {
        Some(name) => same_text(name, ".git"),
        None => false,
    };
    let named = if inside_worktree {
        parent_name(common_git_dir)
    } else {
        own
    };
    match named {
        Some(name) => name,
        None => match file_name(root) {
            Some(name) => name,
            None => root.to_owned(),
        },
    }
}

/// The root of the worktree that `path` belongs to.
pub open spec fn root_answer(path: Seq<char>, output: CommandOutputView) -> Result<
    Seq<char>,
    GitErrorView,
> {
    match required_stdout(seq!["rev-parse"@, "--show-toplevel"@], output) {
        Err(error) => Err(error),
        Ok(text) => if trim_text(text).len() == 0 {
            Err(GitErrorView::NotRepository(path))
        } else {
            Ok(trim_text(text))
        },
    }
}

/// Reads the root of the worktree that `path` belongs to.
pub fn read_root(path: &str, output: CommandOutput) -> (result: Result<String, GitError>)
    ensures
        match (result, root_answer(path@, output@)) {
            (Ok(root), Ok(expected)) => root@ == expected,
            (Err(error), Err(expected)) => error@ == expected,
            _ => false,
        },
{
    let args = toplevel_args();
    match require_stdout(&args, output) {
        Err(error) => Err(error),
        Ok(text) => {
            let root = trim(&text);
            if is_blank(&root) {
                Err(GitError::NotRepository(path.to_owned()))
            } else {
                Ok(root)
            }
        },
    }
}

/// The shared Git directory; Git may name it relative to the root.
pub open spec fn common_dir_answer(root: Seq<char>, output: CommandOutputView) -> Result<
    Seq<char>,
    GitErrorView,
> {
    match required_stdout(seq!["rev-parse"@, "--git-common-dir"@], output) {
        Err(error) => Err(error),
        Ok(text) => Ok(joined(root, trim_text(text))),
    }
}

/// Reads the shared Git directory.
pub fn read_common_dir(root: &str, output: CommandOutput) -> (result: Result<String, GitError>)
    ensures
        match (result, common_dir_answer(root@, output@)) {
            (Ok(path), Ok(expected)) => path@ == expected,
            (Err(error), Err(expected)) => error@ == expected,
            _ => false,
        },
{
    let args = common_dir_args();
    match require_stdout(&args, output) {
        Err(error) => Err(error),
        Ok(text) => {
            let answer = trim(&text);
            Ok(join_path(root, &answer))
        },
    }
}

/// What was read of a worktree, each part on its own.
pub struct WorktreeReads {
    pub changes: Result<ChangeSummary, GitError>,
    pub upstream: Result<UpstreamStatus, GitError>,
    pub last_commit: Result<Option<CommitSummary>, GitError>,
    /// The remote branch that goes with an explicit base.
    pub remote_for_base: Result<Option<String>, GitError>,
    pub merge: Result<MergeStatus, GitError>,
    pub disk_usage: Result<DiskUsage, GitError>,
}

/// What the file system says of the path of a worktree.
#[derive(Debug, Clone, Copy, PartialEq, Eq)]
pub struct PathFacts {
    pub is_there: bool,
    pub is_directory: bool,
    pub modified_unix_seconds: Option<i64>,
}

/// The first of two optional texts that is there.
pub open spec fn either(first: Option<Seq<char>>, second: Option<Seq<char>>) -> Option<Seq<char>> {
    match first {
        Some(text) => Some(text),
        None => second,
    }
}

/// Whether the inside of a worktree can be observed.
pub open spec fn is_observable(worktree: GitWorktreeView, is_directory: bool) -> bool {
    !worktree.bare && !worktree.prunable && is_directory
}

/// The time at which the path of a worktree was touched.
pub open spec fn touched(facts: PathFacts) -> TimeObservationView {
    TimeObservationView {
        filesystem_modified_unix_seconds: facts.modified_unix_seconds,
        filesystem_modified_provenance: "filesystem metadata; approximate"@,
    }
}

/// The status of a worktree whose inside cannot be observed.
pub open spec fn unobserved_status(
    worktree: GitWorktreeView,
    base: Option<Seq<char>>,
    facts: PathFacts,
) -> GitWorktreeStatusView {
    GitWorktreeStatusView {
        worktree,
        path_exists: facts.is_there,
        data: WorktreeStatusDataView {
            changes: ChangeSummaryView::none(),
            upstream: UpstreamStatusView::none(),
            merge: unknown_merge(base),
            last_commit: None,
            disk_usage: DiskUsageView::none(),
            time: touched(facts),
        },
        observation_error: Some(
            if worktree.prunable {
                "Git reports this worktree as prunable"@
            } else if worktree.bare {
                "bare repository; working-tree status is not applicable"@
            } else {
                "worktree path is missing or not a directory"@
            },
        ),
    }
}

/// The note of a read that failed.
pub open spec fn failure_note<T>(label: Seq<char>, read: Result<T, GitError>) -> Seq<Seq<char>> {
    match read {
        Ok(_) => seq![],
        Err(error) => seq![label + error@.text()],
    }
}

/// The notes of all reads that failed. The remote branch is read only where a
/// base was named.
pub open spec fn failure_notes(reads: WorktreeReads, with_base: bool) -> Seq<Seq<char>> {
    failure_note("changes: "@, reads.changes) + failure_note("upstream: "@, reads.upstream)
        + failure_note("last commit: "@, reads.last_commit) + (if with_base {
        failure_note("remote integration branch: "@, reads.remote_for_base)
    } else {
        seq![]
    }) + failure_note("merge: "@, reads.merge) + failure_note("disk usage: "@, reads.disk_usage)
}

/// The status of a worktree whose inside was read: what could not be read is
/// left blank and noted.
pub open spec fn observed_status(
    worktree: GitWorktreeView,
    base: Option<Seq<char>>,
    with_base: bool,
    facts: PathFacts,
    reads: WorktreeReads,
) -> GitWorktreeStatusView {
    let notes = failure_notes(reads, with_base);
    GitWorktreeStatusView {
        worktree,
        path_exists: facts.is_there,
        data: WorktreeStatusDataView {
            changes: match reads.changes {
                Ok(changes) => changes@,
                Err(_) => ChangeSummaryView::none(),
            },
            upstream: match reads.upstream {
                Ok(upstream) => upstream@,
                Err(_) => UpstreamStatusView::none(),
            },
            merge: match reads.merge {
                Ok(merge) => merge@,
                Err(_) => unknown_merge(base),
            },
            last_commit: match reads.last_commit {
                Ok(commit) => option_view(commit),
                Err(_) => None,
            },
            disk_usage: match reads.disk_usage {
                Ok(usage) => usage@,
                Err(_) => DiskUsageView::none(),
            },
            time: touched(facts),
        },
        observation_error: if notes.len() == 0 {
            None
        } else {
            Some(join_text(notes, "; "@))
        },
    }
}

fn note_failure(notes: &mut Vec<String>, label: &str, error: &GitError)
    ensures
        views(final(notes)@) == views(old(notes)@) + seq![label@ + error@.text()],
{
    let text = error.to_text();
    let note = concat(label, &text);
    let ghost before = notes@;
    let ghost added = note@;
    notes.push(note);
    assert(views(notes@) =~= views(before) + seq![added]);
}

impl GitRepositoryView {
    /// The branch that merge states are compared with.
    pub open spec fn merge_base(self, base_override: Option<Seq<char>>) -> Option<Seq<char>> {
        either(base_override, self.integration_branch)
    }

    /// The status of a worktree.
    pub open spec fn status(
        self,
        worktree: GitWorktreeView,
        base_override: Option<Seq<char>>,
        facts: PathFacts,
        reads: Option<WorktreeReads>,
    ) -> GitWorktreeStatusView {
        let base = self.merge_base(base_override);
        if !is_observable(worktree, facts.is_directory) {
            unobserved_status(worktree, base, facts)
        } else {
            observed_status(worktree, base, base_override is Some, facts, reads->0)
        }
    }

    /// The repository and the status of its worktrees as JSON.
    pub open spec fn json(self, worktrees: Seq<GitWorktreeStatusView>) -> Json {
        Json::Object(
            seq![
                ("schema_version"@, Json::Number(1)),
                ("repository"@, self.own_json()),
                (
                    "worktrees"@,
                    Json::Array(Seq::new(worktrees.len(), |i: int| worktrees[i].json())),
                ),
            ],
        )
    }

    /// The repository as JSON.
    pub open spec fn own_json(self) -> Json {
        Json::Object(
            seq![
                ("name"@, Json::Str(self.display_name)),
                ("root"@, Json::Str(self.root)),
                ("common_git_dir"@, Json::Str(self.common_git_dir)),
                ("integration_branch"@, text_or_null(self.integration_branch)),
                ("remote_integration_branch"@, text_or_null(self.remote_integration_branch)),
            ],
        )
    }
}

impl GitRepository {
    /// The repository at `root`. The default branch of the remote names the
    /// remote integration branch; without one, the remote branch that goes with
    /// the integration branch does.
    pub fn discover(
        root: String,
        common_git_dir: String,
        remote_head: Option<String>,
        integration_branch: Option<String>,
        remote_for_integration: Option<String>,
    ) -> (repository: GitRepository)
        ensures
            repository@ == (GitRepositoryView {
                root: root@,
                common_git_dir: common_git_dir@,
                display_name: display_name_text(root@, common_git_dir@),
                integration_branch: option_view(integration_branch),
                remote_integration_branch: either(
                    option_view(remote_head),
                    option_view(remote_for_integration),
                ),
            }),
    {
        let display_name = repository_display_name(&root, &common_git_dir);
        let remote_integration_branch = match remote_head {
            Some(remote) => Some(remote),
            None => remote_for_integration,
        };
        GitRepository {
            root,
            common_git_dir,
            display_name,
            integration_branch,
            remote_integration_branch,
        }
    }

    /// Reads the worktrees that Git lists.
    pub fn list_worktrees(output: CommandOutput) -> (result: Result<Vec<GitWorktree>, GitError>)
        ensures
            match (result, listing(output@)) {
                (Ok(worktrees), Ok(expected)) => views(worktrees@) == expected,
                (Err(error), Err(expected)) => error@ == expected,
                _ => false,
            },
    {
        let args = worktree_list_args();
        match require_output(&args, output) {
            Ok(passed) => parse_worktree_list_porcelain(&passed.stdout),
            Err(error) => Err(error),
        }
    }

    /// The branch that merge states are compared with.
    pub fn merge_base<'a>(&'a self, base_override: Option<&'a str>) -> (base: Option<&'a str>)
        ensures
            slice_view(base) == self@.merge_base(slice_view(base_override)),
    {
        match base_override {
            Some(base) => Some(base),
            None => as_slice(&self.integration_branch),
        }
    }

    /// The remote branch that merge states are compared with, where `found` is
    /// the one that goes with an explicit base.
    pub fn merge_remote(
        &self,
        base_override: Option<&str>,
        found: &Result<Option<String>, GitError>,
    ) -> (remote: Option<String>)
        ensures
            option_view(remote) == (if base_override is Some {
                match found {
                    Ok(name) => option_view(*name),
                    Err(_) => None,
                }
            } else {
                self@.remote_integration_branch
            }),
    {
        match base_override {
            Some(_) => match found {
                Ok(name) => copy_option(name),
                Err(_) => None,
            },
            None => copy_option(&self.remote_integration_branch),
        }
    }

    /// Whether the inside of a worktree can be observed.
    pub fn observable(worktree: &GitWorktree, facts: PathFacts) -> (observable: bool)
        ensures
            observable == is_observable(worktree@, facts.is_directory),
    {
        !(worktree.bare || worktree.prunable || !facts.is_directory)
    }

    /// The status of a worktree. `reads` holds what was read inside of it, where
    /// that can be observed.
    pub fn inspect_worktree(
        &self,
        worktree: &GitWorktree,
        base_override: Option<&str>,
        facts: PathFacts,
        reads: Option<WorktreeReads>,
    ) -> (status: GitWorktreeStatus)
        requires
            is_observable(worktree@, facts.is_directory) ==> reads is Some,
        ensures
            status@ == self@.status(worktree@, slice_view(base_override), facts, reads),
    {
        let time = filesystem_time(facts.modified_unix_seconds);
        let reads = match reads {
            Some(reads) => reads,
            None => return self.unobserved(worktree, base_override, facts),
        };
        if !GitRepository::observable(worktree, facts) {
            return self.unobserved(worktree, base_override, facts);
        }
        let ghost given = reads;
        let mut notes: Vec<String> = Vec::new();
        assert(views(notes@) =~= seq![]);
        let changes = match reads.changes {
            Ok(value) => value,
            Err(error) => {
                note_failure(&mut notes, "changes: ", &error);
                ChangeSummary::default()
            },
        };
        assert(views(notes@) =~= failure_note("changes: "@, given.changes));
        let upstream = match reads.upstream {
            Ok(value) => value,
            Err(error) => {
                note_failure(&mut notes, "upstream: ", &error);
                UpstreamStatus::default()
            },
        };
        assert(views(notes@) =~= failure_note("changes: "@, given.changes) + failure_note(
            "upstream: "@,
            given.upstream,
        ));
        let last_commit = match reads.last_commit {
            Ok(value) => value,
            Err(error) => {
                note_failure(&mut notes, "last commit: ", &error);
                None
            },
        };
        let ghost third = views(notes@);
        assert(third =~= failure_note("changes: "@, given.changes) + failure_note(
            "upstream: "@,
            given.upstream,
        ) + failure_note("last commit: "@, given.last_commit));
        if base_override.is_some() {
            match &reads.remote_for_base {
                Ok(_) => {},
                Err(error) => note_failure(&mut notes, "remote integration branch: ", error),
            }
        }
        let ghost fourth = views(notes@);
        assert(fourth =~= third + (if base_override is Some {
            failure_note("remote integration branch: "@, given.remote_for_base)
        } else {
            seq![]
        }));
        let merge = match reads.merge {
            Ok(value) => value,
            Err(error) => {
                note_failure(&mut notes, "merge: ", &error);
                merge_status_unavailable(self.merge_base(base_override))
            },
        };
        assert(views(notes@) =~= fourth + failure_note("merge: "@, given.merge));
        let disk_usage = match reads.disk_usage {
            Ok(value) => value,
            Err(error) => {
                note_failure(&mut notes, "disk usage: ", &error);
                DiskUsage::default()
            },
        };
        assert(views(notes@) =~= failure_notes(given, base_override is Some));
        let observation_error = if notes.len() == 0 {
            None
        } else {
            Some(join(&notes, "; "))
        };
        GitWorktreeStatus {
            worktree: worktree.clone(),
            path_exists: facts.is_there,
            data: WorktreeStatusData { changes, upstream, merge, last_commit, disk_usage, time },
            observation_error,
        }
    }

    fn unobserved(
        &self,
        worktree: &GitWorktree,
        base_override: Option<&str>,
        facts: PathFacts,
    ) -> (status: GitWorktreeStatus)
        ensures
            status@ == unobserved_status(
                worktree@,
                self@.merge_base(slice_view(base_override)),
                facts,
            ),
    {
        let reason = if worktree.prunable {
            "Git reports this worktree as prunable"
        } else if worktree.bare {
            "bare repository; working-tree status is not applicable"
        } else {
            "worktree path is missing or not a directory"
        };
        GitWorktreeStatus {
            worktree: worktree.clone(),
            path_exists: facts.is_there,
            data: WorktreeStatusData {
                changes: ChangeSummary::default(),
                upstream: UpstreamStatus::default(),
                merge: merge_status_unavailable(self.merge_base(base_override)),
                last_commit: None,
                disk_usage: DiskUsage::default(),
                time: filesystem_time(facts.modified_unix_seconds),
            },
            observation_error: Some(reason.to_owned()),
        }
    }

    /// Prints the repository and the status of its worktrees as JSON.
    pub fn to_json(&self, worktrees: &[GitWorktreeStatus]) -> (text: String)
        ensures
            text@ == json_text(self@.json(views(worktrees@))),
    {
        let own = Object::new().string("name", &self.display_name).string("root", &self.root).string(
            "common_git_dir",
            &self.common_git_dir,
        ).optional_string("integration_branch", as_slice(&self.integration_branch)).optional_string(
            "remote_integration_branch",
            as_slice(&self.remote_integration_branch),
        );
        proof {
            let fields = self@.own_json()->Object_0;
            lemma_field_texts(fields);
            assert(own@ =~= field_texts(fields));
        }
        let own_text = own.finish();
        let mut texts: Vec<String> = Vec::new();
        let mut i: usize = 0;
        while i < worktrees.len()
            invariant
                i <= worktrees.len(),
                texts.len() == i,
                forall|j: int| 0 <= j < i ==> texts@[j]@ == json_text(worktrees@[j]@.json()),
            decreases worktrees.len() - i,
        {
            texts.push(worktrees[i].to_json());
            i += 1;
        }
        let ghost listed = views(worktrees@);
        let ghost items = Seq::new(listed.len(), |i: int| listed[i].json());
        proof {
            lemma_item_texts(items);
            assert(views(texts@) =~= item_texts(items));
        }
        let list = array(texts);
        assert(list@ == json_text(Json::Array(items)));
        let object = Object::new().number("schema_version", 1).raw("repository", own_text).raw(
            "worktrees",
            list,
        );
        proof {
            let fields = self@.json(listed)->Object_0;
            lemma_field_texts(fields);
            assert(fields[2].1 == Json::Array(items));
            assert(object@ =~= field_texts(fields));
        }
        object.finish()
    }
}

/// A worktree together with what was read of it.
pub struct ObservedWorktree {
    pub worktree: GitWorktree,
    pub facts: PathFacts,
    pub reads: Option<WorktreeReads>,
}

impl ObservedWorktree {
    /// Whether the inside was read where it can be.
    pub open spec fn complete(self) -> bool {
        is_observable(self.worktree@, self.facts.is_directory) ==> self.reads is Some
    }
}

impl GitRepository {
    /// The status of every worktree, in order.
    pub fn inspect_all(
        &self,
        worktrees: Vec<ObservedWorktree>,
        base_override: Option<&str>,
    ) -> (statuses: Vec<GitWorktreeStatus>)
        requires
            forall|i: int| 0 <= i < worktrees@.len() ==> (#[trigger] worktrees@[i]).complete(),
        ensures
            statuses@.len() == worktrees@.len(),
            forall|i: int|
                0 <= i < worktrees@.len() ==> (#[trigger] statuses@[i])@ == self@.status(
                    worktrees@[i].worktree@,
                    slice_view(base_override),
                    worktrees@[i].facts,
                    worktrees@[i].reads,
                ),
    {
        let mut statuses: Vec<GitWorktreeStatus> = Vec::new();
        let ghost all = worktrees@;
        for observed in it: worktrees
            invariant
                it.seq() == all,
                statuses@.len() == it.index(),
                forall|i: int| 0 <= i < all.len() ==> (#[trigger] all[i]).complete(),
                forall|i: int|
                    0 <= i < it.index() ==> (#[trigger] statuses@[i])@ == self@.status(
                        all[i].worktree@,
                        slice_view(base_override),
                        all[i].facts,
                        all[i].reads,
                    ),
        {
            assert(all[it.index() as int].complete());
            statuses.push(
                self.inspect_worktree(
                    &observed.worktree,
                    base_override,
                    observed.facts,
                    observed.reads,
                ),
            );
        }
        statuses
    }
}

} // verus!

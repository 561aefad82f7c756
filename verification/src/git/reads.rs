//! The Git commands that observe a repository, and what their output says.

use crate::bytes::byte_views;
use crate::bytes::slice_bytes;
use crate::bytes::split_bytes;
use crate::git::error::GitError;
use crate::git::error::GitErrorView;
use crate::git::porcelain::field_value;
use crate::git::porcelain::parse_status_porcelain;
use crate::git::porcelain::status_summary;
use crate::git::porcelain::value_string;
use crate::model::ChangeSummary;
use crate::model::ChangeSummaryView;
use crate::model::CommitSummary;
use crate::model::CommitSummaryView;
use crate::model::MergeStatus;
use crate::model::MergeStatusView;
use crate::model::TimeObservation;
use crate::model::TimeObservationView;
use crate::model::UpstreamStatus;
use crate::model::UpstreamStatusView;
use crate::json::writer::slice_view;
use crate::numeral::parse_unsigned;
use crate::numeral::unsigned_value;
use crate::paths::same_path;
use crate::paths::same_steps;
use crate::text::begins_with;
use crate::text::concat;
use crate::text::concat3;
use crate::text::is_blank;
use crate::text::join;
use crate::text::join_text;
use crate::text::lossy_string;
use crate::text::lossy_text;
use crate::text::option_view;
use crate::text::pieces;
use crate::text::starts_with;
use crate::text::strict_string;
use crate::text::strip_prefix;
use crate::text::trim;
use crate::text::trim_end;
use crate::text::trim_end_text;
use crate::text::trim_text;
use crate::text::views;
use crate::text::words;
use crate::text::words_text;
use vstd::prelude::*;
use vstd::utf8::decode_utf8;
use vstd::utf8::valid_utf8;

verus! {

/// What a program left behind when it ended.
#[derive(Debug, PartialEq, Eq)]
pub struct CommandOutput {
    pub code: Option<i32>,
    pub stdout: Vec<u8>,
    pub stderr: Vec<u8>,
}

/// The view of a [`CommandOutput`].
#[verifier::ext_equal]
pub struct CommandOutputView {
    pub code: Option<i32>,
    pub stdout: Seq<u8>,
    pub stderr: Seq<u8>,
}

impl View for CommandOutput {
    type V = CommandOutputView;

    open spec fn view(&self) -> CommandOutputView {
        CommandOutputView {
            code: self.code,
            stdout: self.stdout@,
            stderr: self.stderr@,
        }
    }
}

impl CommandOutputView {
    /// Whether the program ended with success.
    pub open spec fn success(self) -> bool {
        self.code == Some(0i32)
    }
}

impl CommandOutput {
    /// Whether the program ended with success.
    pub fn success(&self) -> (success: bool)
        ensures
            success == self@.success(),
    {
        match self.code {
            Some(code) => code == 0,
            None => false,
        }
    }
}

// ---------------------------------------------------------------------------
// Commands
// ---------------------------------------------------------------------------

/// Asks for the root of the worktree.
pub fn toplevel_args() -> (args: Vec<String>)
    ensures
        views(args@) == seq!["rev-parse"@, "--show-toplevel"@],
{
    let mut args: Vec<String> = Vec::new();
    args.push("rev-parse".to_owned());
    args.push("--show-toplevel".to_owned());
    assert(views(args@) =~= seq!["rev-parse"@, "--show-toplevel"@]);
    args
}

/// Asks for the directory that the worktrees share.
pub fn common_dir_args() -> (args: Vec<String>)
    ensures
        views(args@) == seq!["rev-parse"@, "--git-common-dir"@],
{
    let mut args: Vec<String> = Vec::new();
    args.push("rev-parse".to_owned());
    args.push("--git-common-dir".to_owned());
    assert(views(args@) =~= seq!["rev-parse"@, "--git-common-dir"@]);
    args
}

/// Asks for the worktrees of a repository.
pub fn worktree_list_args() -> (args: Vec<String>)
    ensures
        views(args@) == seq!["worktree"@, "list"@, "--porcelain"@, "-z"@],
{
    let mut args: Vec<String> = Vec::new();
    args.push("worktree".to_owned());
    args.push("list".to_owned());
    args.push("--porcelain".to_owned());
    args.push("-z".to_owned());
    assert(views(args@) =~= seq!["worktree"@, "list"@, "--porcelain"@, "-z"@]);
    args
}

/// Asks for the changes in a worktree.
pub fn status_args() -> (args: Vec<String>)
    ensures
        views(args@) == seq![
            "status"@,
            "--porcelain=v1"@,
            "-z"@,
            "--untracked-files=all"@,
            "--ignored"@,
        ],
{
    let mut args: Vec<String> = Vec::new();
    args.push("status".to_owned());
    args.push("--porcelain=v1".to_owned());
    args.push("-z".to_owned());
    args.push("--untracked-files=all".to_owned());
    args.push("--ignored".to_owned());
    assert(
        views(args@) =~= seq![
            "status"@,
            "--porcelain=v1"@,
            "-z"@,
            "--untracked-files=all"@,
            "--ignored"@,
        ]
    );
    args
}

/// Asks for the upstream of the branch.
pub fn upstream_args() -> (args: Vec<String>)
    ensures
        views(args@) == seq![
            "rev-parse"@,
            "--abbrev-ref"@,
            "--symbolic-full-name"@,
            "@{upstream}"@,
        ],
{
    let mut args: Vec<String> = Vec::new();
    args.push("rev-parse".to_owned());
    args.push("--abbrev-ref".to_owned());
    args.push("--symbolic-full-name".to_owned());
    args.push("@{upstream}".to_owned());
    assert(
        views(args@) =~= seq![
            "rev-parse"@,
            "--abbrev-ref"@,
            "--symbolic-full-name"@,
            "@{upstream}"@,
        ]
    );
    args
}

/// Asks how many commits the branch and its upstream do not share.
pub fn upstream_count_args() -> (args: Vec<String>)
    ensures
        views(args@) == seq!["rev-list"@, "--left-right"@, "--count"@, "HEAD...@{upstream}"@],
{
    let mut args: Vec<String> = Vec::new();
    args.push("rev-list".to_owned());
    args.push("--left-right".to_owned());
    args.push("--count".to_owned());
    args.push("HEAD...@{upstream}".to_owned());
    assert(views(args@) =~= seq!["rev-list"@, "--left-right"@, "--count"@, "HEAD...@{upstream}"@]);
    args
}

/// Asks for the last commit.
pub fn last_commit_args() -> (args: Vec<String>)
    ensures
        views(args@) == seq!["show"@, "-s"@, "--format=%H%x00%an%x00%cI%x00%s"@, "HEAD"@],
{
    let mut args: Vec<String> = Vec::new();
    args.push("show".to_owned());
    args.push("-s".to_owned());
    args.push("--format=%H%x00%an%x00%cI%x00%s".to_owned());
    args.push("HEAD".to_owned());
    assert(views(args@) =~= seq!["show"@, "-s"@, "--format=%H%x00%an%x00%cI%x00%s"@, "HEAD"@]);
    args
}

/// Asks how many commits stand in a range.
pub fn rev_list_args(range: &str) -> (args: Vec<String>)
    ensures
        views(args@) == seq!["rev-list"@, "--count"@, range@],
{
    let mut args: Vec<String> = Vec::new();
    args.push("rev-list".to_owned());
    args.push("--count".to_owned());
    args.push(range.to_owned());
    assert(views(args@) =~= seq!["rev-list"@, "--count"@, range@]);
    args
}

/// Asks whether one commit is part of the history of another.
pub fn ancestor_args(ancestor: &str, descendant: &str) -> (args: Vec<String>)
    ensures
        views(args@) == seq!["merge-base"@, "--is-ancestor"@, ancestor@, descendant@],
{
    let mut args: Vec<String> = Vec::new();
    args.push("merge-base".to_owned());
    args.push("--is-ancestor".to_owned());
    args.push(ancestor.to_owned());
    args.push(descendant.to_owned());
    assert(views(args@) =~= seq!["merge-base"@, "--is-ancestor"@, ancestor@, descendant@]);
    args
}

/// Asks for the default branch of the remote.
pub fn remote_head_args() -> (args: Vec<String>)
    ensures
        views(args@) == seq!["symbolic-ref"@, "--quiet"@, "--short"@, "refs/remotes/origin/HEAD"@],
{
    let mut args: Vec<String> = Vec::new();
    args.push("symbolic-ref".to_owned());
    args.push("--quiet".to_owned());
    args.push("--short".to_owned());
    args.push("refs/remotes/origin/HEAD".to_owned());
    assert(
        views(args@) =~= seq!["symbolic-ref"@, "--quiet"@, "--short"@, "refs/remotes/origin/HEAD"@]
    );
    args
}

/// Asks whether a reference exists.
pub fn show_ref_args(reference: &str) -> (args: Vec<String>)
    ensures
        views(args@) == seq!["show-ref"@, "--verify"@, "--quiet"@, reference@],
{
    let mut args: Vec<String> = Vec::new();
    args.push("show-ref".to_owned());
    args.push("--verify".to_owned());
    args.push("--quiet".to_owned());
    args.push(reference.to_owned());
    assert(views(args@) =~= seq!["show-ref"@, "--verify"@, "--quiet"@, reference@]);
    args
}

// ---------------------------------------------------------------------------
// Output
// ---------------------------------------------------------------------------

/// The error of a Git command that failed.
pub open spec fn command_failure(args: Seq<Seq<char>>, output: CommandOutputView) -> GitErrorView {
    GitErrorView::Command {
        args: join_text(args, " "@),
        code: output.code,
        stderr: trim_text(lossy_text(output.stderr)),
    }
}

/// What a Git command printed, as text.
pub open spec fn stdout_text(output: CommandOutputView) -> Result<Seq<char>, GitErrorView> {
    if valid_utf8(output.stdout) {
        Ok(decode_utf8(output.stdout))
    } else {
        Err(GitErrorView::InvalidOutput("Git returned non-UTF-8 stdout"@))
    }
}

/// What a Git command that must succeed printed, as text.
pub open spec fn required_stdout(args: Seq<Seq<char>>, output: CommandOutputView) -> Result<
    Seq<char>,
    GitErrorView,
> {
    if output.success() {
        stdout_text(output)
    } else {
        Err(command_failure(args, output))
    }
}

/// The error of a Git command that failed.
pub fn command_error(args: &Vec<String>, output: &CommandOutput) -> (error: GitError)
    ensures
        error@ == command_failure(views(args@), output@),
{
    let printed = lossy_string(&output.stderr);
    GitError::Command { args: join(args, " "), code: output.code, stderr: trim(&printed) }
}

/// Reads what a Git command printed as text.
pub fn stdout_string(output: &CommandOutput) -> (result: Result<String, GitError>)
    ensures
        match (result, stdout_text(output@)) {
            (Ok(text), Ok(expected)) => text@ == expected,
            (Err(error), Err(expected)) => error@ == expected,
            _ => false,
        },
{
    let bytes = slice_bytes(&output.stdout, 0, output.stdout.len());
    assert(bytes@ =~= output.stdout@);
    match strict_string(bytes) {
        Some(text) => Ok(text),
        None => Err(GitError::InvalidOutput("Git returned non-UTF-8 stdout".to_owned())),
    }
}

/// Lets the output of a Git command pass that ended with success.
pub fn require_output(args: &Vec<String>, output: CommandOutput) -> (result: Result<
    CommandOutput,
    GitError,
>)
    ensures
        match result {
            Ok(passed) => output@.success() && passed == output,
            Err(error) => !output@.success() && error@ == command_failure(views(args@), output@),
        },
{
    if output.success() {
        Ok(output)
    } else {
        Err(command_error(args, &output))
    }
}

/// Reads what a Git command that must succeed printed.
pub fn require_stdout(args: &Vec<String>, output: CommandOutput) -> (result: Result<
    String,
    GitError,
>)
    ensures
        match (result, required_stdout(views(args@), output@)) {
            (Ok(text), Ok(expected)) => text@ == expected,
            (Err(error), Err(expected)) => error@ == expected,
            _ => false,
        },
{
    match require_output(args, output) {
        Ok(passed) => stdout_string(&passed),
        Err(error) => Err(error),
    }
}

/// The changes that `git status` reports.
pub open spec fn reported_changes(output: CommandOutputView) -> Result<
    ChangeSummaryView,
    GitErrorView,
> {
    if output.success() {
        status_summary(output.stdout)
    } else {
        Err(
            command_failure(
                seq![
                    "status"@,
                    "--porcelain=v1"@,
                    "-z"@,
                    "--untracked-files=all"@,
                    "--ignored"@,
                ],
                output,
            ),
        )
    }
}

/// Reads the changes that `git status` reports.
pub fn read_change_summary(output: CommandOutput) -> (result: Result<ChangeSummary, GitError>)
    ensures
        match (result, reported_changes(output@)) {
            (Ok(summary), Ok(expected)) => summary@ == expected,
            (Err(error), Err(expected)) => error@ == expected,
            _ => false,
        },
{
    let args = status_args();
    match require_output(&args, output) {
        Ok(passed) => parse_status_porcelain(&passed.stdout),
        Err(error) => Err(error),
    }
}

// ---------------------------------------------------------------------------
// Upstream
// ---------------------------------------------------------------------------

/// What a command printed, or nothing if it failed or printed only white space.
pub open spec fn optional_answer(output: CommandOutputView) -> Result<
    Option<Seq<char>>,
    GitErrorView,
> {
    if !output.success() {
        Ok(None)
    } else {
        match stdout_text(output) {
            Err(error) => Err(error),
            Ok(text) => if trim_text(text).len() == 0 {
                Ok(None)
            } else {
                Ok(Some(trim_text(text)))
            },
        }
    }
}

/// Reads what a command printed that may fail.
pub fn read_optional_answer(output: &CommandOutput) -> (result: Result<Option<String>, GitError>)
    ensures
        match (result, optional_answer(output@)) {
            (Ok(answer), Ok(expected)) => option_view(answer) == expected,
            (Err(error), Err(expected)) => error@ == expected,
            _ => false,
        },
{
    if !output.success() {
        return Ok(None);
    }
    match stdout_string(output) {
        Err(error) => Err(error),
        Ok(text) => {
            let answer = trim(&text);
            if is_blank(&answer) {
                Ok(None)
            } else {
                Ok(Some(answer))
            }
        },
    }
}

/// A number of commits that Git printed.
pub open spec fn count_value(word: Option<Seq<char>>, label: Seq<char>) -> Result<
    int,
    GitErrorView,
> {
    match word {
        None => Err(GitErrorView::InvalidOutput("missing "@ + label + " count"@)),
        Some(text) => match unsigned_value(text, 0xffff_ffff) {
            Ok(number) => Ok(number as int),
            Err(error) => Err(
                GitErrorView::InvalidOutput(
                    "invalid "@ + label + " count: "@ + error.message_text(),
                ),
            ),
        },
    }
}

/// Reads a number of commits that Git printed.
pub fn parse_count(value: Option<&str>, label: &str) -> (result: Result<u32, GitError>)
    ensures
        match (result, count_value(slice_view(value), label@)) {
            (Ok(count), Ok(expected)) => count == expected,
            (Err(error), Err(expected)) => error@ == expected,
            _ => false,
        },
{
    match value {
        None => Err(GitError::InvalidOutput(concat3("missing ", label, " count"))),
        Some(text) => match parse_unsigned(text, 0xffff_ffff) {
            Ok(number) => {
                proof {
                    crate::numeral::lemma_scan_bound(text@, 0xffff_ffff);
                    crate::numeral::lemma_scan_bound(text@.skip(1), 0xffff_ffff);
                }
                Ok(number as u32)
            },
            Err(error) => {
                let mut message = concat3("invalid ", label, " count: ");
                message.append(error.message());
                Err(GitError::InvalidOutput(message))
            },
        },
    }
}

/// The word with index `i`, if there are so many.
pub open spec fn word_at(text: Seq<char>, i: int) -> Option<Seq<char>> {
    if i < words_text(text).len() {
        Some(words_text(text)[i])
    } else {
        None
    }
}

fn nth<'a>(parts: &'a Vec<String>, i: usize) -> (word: Option<&'a str>)
    ensures
        slice_view(word) == (if i < parts@.len() {
            Some(views(parts@)[i as int])
        } else {
            None
        }),
{
    if i < parts.len() {
        Some(parts[i].as_str())
    } else {
        None
    }
}

/// How a branch with the upstream `name` stands to it.
pub open spec fn upstream_counts(name: Seq<char>, output: CommandOutputView) -> Result<
    UpstreamStatusView,
    GitErrorView,
> {
    match required_stdout(
        seq!["rev-list"@, "--left-right"@, "--count"@, "HEAD...@{upstream}"@],
        output,
    ) {
        Err(error) => Err(error),
        Ok(text) => match count_value(word_at(text, 0), "ahead"@) {
            Err(error) => Err(error),
            Ok(ahead) => match count_value(word_at(text, 1), "behind"@) {
                Err(error) => Err(error),
                Ok(behind) => Ok(
                    UpstreamStatusView {
                        name: Some(name),
                        ahead: Some(ahead as u32),
                        behind: Some(behind as u32),
                    },
                ),
            },
        },
    }
}

/// Reads how a branch with the upstream `name` stands to it.
pub fn read_upstream_status(name: String, counts: CommandOutput) -> (result: Result<
    UpstreamStatus,
    GitError,
>)
    ensures
        match (result, upstream_counts(name@, counts@)) {
            (Ok(status), Ok(expected)) => status@ == expected,
            (Err(error), Err(expected)) => error@ == expected,
            _ => false,
        },
{
    let args = upstream_count_args();
    let text = match require_stdout(&args, counts) {
        Ok(text) => text,
        Err(error) => return Err(error),
    };
    let parts = words(&text);
    let ahead = match parse_count(nth(&parts, 0), "ahead") {
        Ok(count) => count,
        Err(error) => return Err(error),
    };
    let behind = match parse_count(nth(&parts, 1), "behind") {
        Ok(count) => count,
        Err(error) => return Err(error),
    };
    Ok(UpstreamStatus { name: Some(name), ahead: Some(ahead), behind: Some(behind) })
}

// ---------------------------------------------------------------------------
// The last commit
// ---------------------------------------------------------------------------

/// The commit in what `git show` printed.
pub open spec fn shown_commit(output: CommandOutputView) -> Result<
    Option<CommitSummaryView>,
    GitErrorView,
> {
    let fields = pieces(output.stdout, 0u8);
    if !output.success() {
        Ok(None)
    } else if fields.len() < 4 {
        Err(GitErrorView::InvalidOutput("last commit output has fewer than four fields"@))
    } else {
        match field_value(Some(fields[0])) {
            Err(error) => Err(error),
            Ok(id) => if trim_text(id).len() == 0 {
                Ok(None)
            } else {
                match field_value(Some(fields[1])) {
                    Err(error) => Err(error),
                    Ok(author) => match field_value(Some(fields[2])) {
                        Err(error) => Err(error),
                        Ok(date) => match field_value(Some(fields[3])) {
                            Err(error) => Err(error),
                            Ok(subject) => Ok(
                                Some(
                                    CommitSummaryView {
                                        id: trim_text(id),
                                        author: Some(trim_text(author)),
                                        committed_at: Some(trim_text(date)),
                                        subject: Some(trim_end_text(subject)),
                                    },
                                ),
                            ),
                        },
                    },
                }
            },
        }
    }
}

fn field_string(fields: &Vec<Vec<u8>>, i: usize) -> (result: Result<String, GitError>)
    requires
        i < fields.len(),
    ensures
        match (result, field_value(Some(byte_views(fields@)[i as int]))) {
            (Ok(text), Ok(expected)) => text@ == expected,
            (Err(error), Err(expected)) => error@ == expected,
            _ => false,
        },
{
    let field = slice_bytes(&fields[i], 0, fields[i].len());
    assert(field@ =~= byte_views(fields@)[i as int]);
    value_string(Some(field))
}

/// Reads the commit in what `git show` printed.
pub fn read_last_commit(output: CommandOutput) -> (result: Result<Option<CommitSummary>, GitError>)
    ensures
        match (result, shown_commit(output@)) {
            (Ok(commit), Ok(expected)) => option_view(commit) == expected,
            (Err(error), Err(expected)) => error@ == expected,
            _ => false,
        },
{
    if !output.success() {
        return Ok(None);
    }
    let fields = split_bytes(&output.stdout, 0);
    assert(byte_views(fields@).len() == fields@.len());
    if fields.len() < 4 {
        return Err(
            GitError::InvalidOutput("last commit output has fewer than four fields".to_owned()),
        );
    }
    let id = match field_string(&fields, 0) {
        Ok(text) => trim(&text),
        Err(error) => return Err(error),
    };
    if is_blank(&id) {
        return Ok(None);
    }
    let author = match field_string(&fields, 1) {
        Ok(text) => trim(&text),
        Err(error) => return Err(error),
    };
    let committed_at = match field_string(&fields, 2) {
        Ok(text) => trim(&text),
        Err(error) => return Err(error),
    };
    let subject = match field_string(&fields, 3) {
        Ok(text) => trim_end(&text),
        Err(error) => return Err(error),
    };
    Ok(
        Some(
            CommitSummary {
                id,
                author: Some(author),
                committed_at: Some(committed_at),
                subject: Some(subject),
            },
        ),
    )
}

// ---------------------------------------------------------------------------
// Merge state
// ---------------------------------------------------------------------------

/// The merge state where nothing is known of it.
pub open spec fn unknown_merge(integration_branch: Option<Seq<char>>) -> MergeStatusView {
    MergeStatusView { integration_branch, classification: "unknown"@, ..MergeStatusView::none() }
}

/// The merge state where nothing is known of it.
pub fn merge_status_unavailable(integration_branch: Option<&str>) -> (status: MergeStatus)
    ensures
        status@ == unknown_merge(slice_view(integration_branch)),
{
    let branch = match integration_branch {
        Some(text) => Some(text.to_owned()),
        None => None,
    };
    MergeStatus {
        integration_branch: branch,
        remote_integration_branch: None,
        unique_commits: None,
        merged_locally: None,
        merged_remotely: None,
        classification: "unknown".to_owned(),
    }
}

/// The range of the commits that only the worktree has.
pub open spec fn unique_range_text(base: Seq<char>) -> Seq<char> {
    base + "..HEAD"@
}

/// The range of the commits that only the worktree has.
pub fn unique_range(base: &str) -> (range: String)
    ensures
        range@ == unique_range_text(base@),
{
    concat(base, "..HEAD")
}

/// The number that `git rev-list --count` printed.
pub open spec fn listed_count(output: CommandOutputView) -> Result<Option<int>, GitErrorView> {
    if !output.success() {
        Ok(None)
    } else {
        match stdout_text(output) {
            Err(error) => Err(error),
            Ok(text) => match count_value(word_at(text, 0), "unique commits"@) {
                Err(error) => Err(error),
                Ok(count) => Ok(Some(count)),
            },
        }
    }
}

/// Reads the number that `git rev-list --count` printed.
pub fn rev_list_count(output: &CommandOutput) -> (result: Result<Option<u32>, GitError>)
    ensures
        match (result, listed_count(output@)) {
            (Ok(Some(count)), Ok(Some(expected))) => count == expected,
            (Ok(None), Ok(None)) => true,
            (Err(error), Err(expected)) => error@ == expected,
            _ => false,
        },
{
    if !output.success() {
        return Ok(None);
    }
    match stdout_string(output) {
        Err(error) => Err(error),
        Ok(text) => {
            let parts = words(&text);
            match parse_count(nth(&parts, 0), "unique commits") {
                Ok(count) => Ok(Some(count)),
                Err(error) => Err(error),
            }
        },
    }
}

/// What the exit code of `git merge-base --is-ancestor` says.
pub open spec fn ancestry(output: CommandOutputView) -> Option<bool> {
    match output.code {
        Some(code) => if code == 0 {
            Some(true)
        } else if code == 1 {
            Some(false)
        } else {
            None
        },
        None => None,
    }
}

/// Reads the answer of `git merge-base --is-ancestor`.
pub fn is_ancestor(output: &CommandOutput) -> (answer: Option<bool>)
    ensures
        answer == ancestry(output@),
{
    match output.code {
        Some(code) => if code == 0 {
            Some(true)
        } else if code == 1 {
            Some(false)
        } else {
            None
        },
        None => None,
    }
}

/// The word for a merge state.
pub open spec fn merge_word(merged_locally: Option<bool>) -> Seq<char> {
    match merged_locally {
        Some(true) => "merged-locally"@,
        Some(false) => "unmerged-commits"@,
        None => "unknown"@,
    }
}

/// Whether the merge state can be asked for: there is an integration branch to
/// compare with, and the worktree has a commit.
pub open spec fn merge_comparable(
    integration_branch: Option<Seq<char>>,
    head: Option<Seq<char>>,
) -> bool {
    integration_branch is Some && head is Some
}

/// Whether the merge state can be asked for.
pub fn can_compare_merge(integration_branch: Option<&str>, head: Option<&str>) -> (comparable: bool)
    ensures
        comparable == merge_comparable(slice_view(integration_branch), slice_view(head)),
{
    integration_branch.is_some() && head.is_some()
}

/// The merge state that the answers of Git add up to.
pub fn read_merge_status(
    integration_branch: &str,
    remote_integration_branch: Option<&str>,
    unique_commits: Option<u32>,
    merged_locally: Option<bool>,
    merged_remotely: Option<bool>,
) -> (status: MergeStatus)
    ensures
        status@ == (MergeStatusView {
            integration_branch: Some(integration_branch@),
            remote_integration_branch: slice_view(remote_integration_branch),
            unique_commits,
            merged_locally,
            merged_remotely: if remote_integration_branch is Some {
                merged_remotely
            } else {
                None
            },
            classification: merge_word(merged_locally),
        }),
{
    let classification = match merged_locally {
        Some(true) => "merged-locally",
        Some(false) => "unmerged-commits",
        None => "unknown",
    };
    let (remote, merged_remotely) = match remote_integration_branch {
        Some(text) => (Some(text.to_owned()), merged_remotely),
        None => (None, None),
    };
    MergeStatus {
        integration_branch: Some(integration_branch.to_owned()),
        remote_integration_branch: remote,
        unique_commits,
        merged_locally,
        merged_remotely,
        classification: classification.to_owned(),
    }
}

// ---------------------------------------------------------------------------
// Files
// ---------------------------------------------------------------------------

/// Whether an entry of a directory is left out of its size.
pub fn skips_entry(entry_path: &str, skip_path: Option<&str>) -> (skips: bool)
    ensures
        skips == match skip_path {
            Some(skip) => same_steps(entry_path@, skip@),
            None => false,
        },
{
    match skip_path {
        Some(skip) => same_path(entry_path, skip),
        None => false,
    }
}

/// The size of a directory with one more entry, as far as 64 bits can count.
pub fn add_size(total: u64, size: u64) -> (sum: u64)
    ensures
        sum == (if total + size > u64::MAX {
            u64::MAX as int
        } else {
            total + size
        }),
{
    total.saturating_add(size)
}

/// Seconds before or after the beginning of 1970 as one signed number.
pub open spec fn unix_seconds(after_epoch: bool, seconds: u64) -> Option<int> {
    if seconds > i64::MAX {
        None
    } else if after_epoch {
        Some(seconds as int)
    } else {
        Some(-(seconds as int))
    }
}

/// Seconds before or after the beginning of 1970 as one signed number.
pub fn system_time_to_unix_seconds(after_epoch: bool, seconds: u64) -> (result: Option<i64>)
    ensures
        match (result, unix_seconds(after_epoch, seconds)) {
            (Some(value), Some(expected)) => value == expected,
            (None, None) => true,
            _ => false,
        },
{
    if seconds > 0x7fff_ffff_ffff_ffff {
        None
    } else if after_epoch {
        Some(seconds as i64)
    } else {
        Some(-(seconds as i64))
    }
}

/// The time at which the file system says a worktree was touched.
pub fn filesystem_time(modified: Option<i64>) -> (time: TimeObservation)
    ensures
        time@ == (TimeObservationView {
            filesystem_modified_unix_seconds: modified,
            filesystem_modified_provenance: "filesystem metadata; approximate"@,
        }),
{
    TimeObservation {
        filesystem_modified_unix_seconds: modified,
        filesystem_modified_provenance: "filesystem metadata; approximate",
    }
}

// ---------------------------------------------------------------------------
// Finding branches
// ---------------------------------------------------------------------------

/// A name without a prefix it may have.
pub open spec fn without_prefix(name: Seq<char>, prefix: Seq<char>) -> Seq<char> {
    if begins_with(name, prefix) {
        name.skip(prefix.len() as int)
    } else {
        name
    }
}

fn cut_prefix(name: &str, prefix: &str) -> (rest: String)
    ensures
        rest@ == without_prefix(name@, prefix@),
{
    match strip_prefix(name, prefix) {
        Some(rest) => rest,
        None => name.to_owned(),
    }
}

/// The branches that may be the integration branch, the likeliest first.
pub open spec fn integration_names(remote: Option<Seq<char>>) -> Seq<Seq<char>> {
    match remote {
        Some(name) => seq![without_prefix(name, "origin/"@), "main"@, "master"@],
        None => seq!["main"@, "master"@],
    }
}

/// The branches that may be the integration branch, the likeliest first.
pub fn integration_candidates(remote: Option<&str>) -> (names: Vec<String>)
    ensures
        views(names@) == integration_names(slice_view(remote)),
{
    let mut names: Vec<String> = Vec::new();
    match remote {
        Some(name) => names.push(cut_prefix(name, "origin/")),
        None => {},
    }
    names.push("main".to_owned());
    names.push("master".to_owned());
    assert(views(names@) =~= integration_names(slice_view(remote)));
    names
}

/// The remote branches that may go with a base, the likeliest first.
pub open spec fn remote_names(base: Seq<char>) -> Seq<Seq<char>> {
    let origin = "origin/"@ + without_prefix(base, "refs/heads/"@);
    if begins_with(base, "refs/remotes/"@) {
        seq![base.skip("refs/remotes/"@.len() as int)]
    } else if begins_with(base, "origin/"@) || begins_with(base, "upstream/"@) {
        seq![base, origin]
    } else {
        seq![origin, base]
    }
}

/// The remote branches that may go with a base, the likeliest first.
pub fn remote_candidates(base: &str) -> (names: Vec<String>)
    ensures
        views(names@) == remote_names(base@),
{
    let mut names: Vec<String> = Vec::new();
    match strip_prefix(base, "refs/remotes/") {
        Some(rest) => names.push(rest),
        None => {
            let local = cut_prefix(base, "refs/heads/");
            let origin = concat("origin/", &local);
            if starts_with(base, "origin/") || starts_with(base, "upstream/") {
                names.push(base.to_owned());
                names.push(origin);
            } else {
                names.push(origin);
                names.push(base.to_owned());
            }
        },
    }
    assert(views(names@) =~= remote_names(base@));
    names
}

/// A search for the first of some names whose reference exists: the names that were
/// not asked for yet.
pub struct RefSearch {
    prefix: String,
    names: Vec<String>,
}

/// The view of a [`RefSearch`].
#[verifier::ext_equal]
pub struct RefSearchView {
    pub prefix: Seq<char>,
    pub names: Seq<Seq<char>>,
}

impl View for RefSearch {
    type V = RefSearchView;

    closed spec fn view(&self) -> RefSearchView {
        RefSearchView { prefix: self.prefix@, names: views(self.names@) }
    }
}

impl RefSearch {
    /// A search among the branches of the repository.
    pub fn heads(names: Vec<String>) -> (search: RefSearch)
        ensures
            search@ == (RefSearchView { prefix: "refs/heads/"@, names: views(names@) }),
    {
        RefSearch { prefix: "refs/heads/".to_owned(), names }
    }

    /// A search among the branches of the remotes.
    pub fn remotes(names: Vec<String>) -> (search: RefSearch)
        ensures
            search@ == (RefSearchView { prefix: "refs/remotes/"@, names: views(names@) }),
    {
        RefSearch { prefix: "refs/remotes/".to_owned(), names }
    }

    /// The reference to ask for next; none once every name was asked for.
    pub fn reference(&self) -> (reference: Option<String>)
        ensures
            match reference {
                Some(text) => self@.names.len() > 0 && text@ == self@.prefix + self@.names[0],
                None => self@.names.len() == 0,
            },
    {
        if self.names.len() > 0 {
            Some(concat(&self.prefix, &self.names[0]))
        } else {
            None
        }
    }

    /// Takes the answer for the reference last named: the search is over with
    /// its name if it exists, and goes on with the names after it if not.
    pub fn answer(self, exists_there: bool) -> (outcome: Result<Option<String>, RefSearch>)
        ensures
            match outcome {
                Ok(Some(name)) => exists_there && self@.names.len() > 0 && name@ == self@.names[0],
                Ok(None) => self@.names.len() == 0,
                Err(rest) => !exists_there && self@.names.len() > 0 && rest@ == (RefSearchView {
                    prefix: self@.prefix,
                    names: self@.names.skip(1),
                }),
            },
    {
        let mut names = self.names;
        if names.len() == 0 {
            return Ok(None);
        }
        let ghost all = names@;
        let name = names.remove(0);
        if exists_there {
            return Ok(Some(name));
        }
        assert(views(names@) =~= views(all).skip(1));
        Err(RefSearch { prefix: self.prefix, names })
    }
}

} // verus!

//! What finding a repository and its branches rests on.

use crate::git::answers::is_trim;
use crate::git::answers::lemma_trimmed;
use crate::git::error::GitError;
use crate::git::error::GitErrorView;
use crate::git::meaning::lemma_encoded_text;
use crate::git::porcelain::parse_status_porcelain;
use crate::git::porcelain::parse_worktree_list_porcelain;
use crate::git::reads::command_error;
use crate::git::reads::CommandOutput;
use crate::git::reads::common_dir_args;
use crate::git::reads::filesystem_time;
use crate::git::reads::read_change_summary;
use crate::git::reads::RefSearch;
use crate::git::reads::remote_candidates;
use crate::git::reads::remote_head_args;
use crate::git::reads::skips_entry;
use crate::git::reads::status_args;
use crate::git::reads::toplevel_args;
use crate::git::reads::upstream_args;
use crate::git::reads::worktree_list_args;
use crate::git::repository::GitRepository;
use crate::git::repository::read_common_dir;
use crate::git::repository::read_root;
use crate::git::repository::repository_display_name;
use crate::git::worktree::GitWorktree;
use crate::model::ChangeSummary;
use crate::model::TimeObservation;
use crate::numeral::signed_decimal;
use crate::paths::same_steps;
use crate::places::is_name;
use crate::places::is_tidy;
use crate::places::lemma_name_added;
use crate::text::begins_with;
use crate::text::join_text;
use crate::text::lossy_text;
use crate::text::trim_text;
use crate::text::views;
use vstd::prelude::*;
use vstd::utf8::encode_utf8;

verus! {

proof fn lemma_words_of(args: Vec<String>)
    ensures
        views(args@).len() == args@.len(),
        forall|k: int| 0 <= k < args@.len() ==> #[trigger] args@[k]@ == views(args@)[k],
{
}

/// Git is asked for the root of the worktree, for the directory that all worktrees share,
/// for the worktrees in the form that is read, with every field closed by NUL, for the
/// upstream of the branch, and for the default branch of the remote.
pub proof fn questions_find_the_repository(
    root: Vec<String>,
    common: Vec<String>,
    worktrees: Vec<String>,
    upstream: Vec<String>,
    head: Vec<String>,
)
    requires
        call_ensures(toplevel_args, (), root),
        call_ensures(common_dir_args, (), common),
        call_ensures(worktree_list_args, (), worktrees),
        call_ensures(upstream_args, (), upstream),
        call_ensures(remote_head_args, (), head),
    ensures
        root@.len() == 2,
        root@[0]@ == "rev-parse"@,
        root@[1]@ == "--show-toplevel"@,
        common@.len() == 2,
        common@[0]@ == "rev-parse"@,
        common@[1]@ == "--git-common-dir"@,
        worktrees@.len() == 4,
        worktrees@[0]@ == "worktree"@,
        worktrees@[1]@ == "list"@,
        worktrees@[2]@ == "--porcelain"@,
        worktrees@[3]@ == "-z"@,
        upstream@.len() == 4,
        upstream@[0]@ == "rev-parse"@,
        upstream@[1]@ == "--abbrev-ref"@,
        upstream@[2]@ == "--symbolic-full-name"@,
        upstream@[3]@ == "@{upstream}"@,
        head@.len() == 4,
        head@[0]@ == "symbolic-ref"@,
        head@[2]@ == "--short"@,
        head@[3]@ == "refs/remotes/origin/HEAD"@,
{
    lemma_words_of(root);
    lemma_words_of(common);
    lemma_words_of(worktrees);
    lemma_words_of(upstream);
    lemma_words_of(head);
}

/// The root that Git printed is read back. Where Git printed nothing, the path is in no
/// repository; where Git failed, its words are kept.
pub proof fn root_is_read_back(
    path: &str,
    answer: Seq<char>,
    output: CommandOutput,
    result: Result<String, GitError>,
)
    requires
        is_trim(answer),
        output.stdout@ == encode_utf8(answer.push('\n')),
        call_ensures(read_root, (path, output), result),
    ensures
        output.code == Some(0i32) && answer.len() > 0 ==> (result matches Ok(root) && root@
            == answer),
        output.code == Some(0i32) && answer.len() == 0 ==> (result matches Err(error) && error@
            == GitErrorView::NotRepository(path@)),
        output.code != Some(0i32) ==> (result matches Err(error) && error@ is Command
            && error@->code == output.code && error@->stderr == trim_text(
            lossy_text(output.stderr@),
        )),
{
    lemma_encoded_text(answer.push('\n'));
    lemma_trimmed(answer);
}

/// The shared directory that Git printed is read back: as it is where it begins at the
/// root, and below the root of the worktree where it does not.
pub proof fn common_directory_is_read_back(
    root: &str,
    answer: Seq<char>,
    output: CommandOutput,
    result: Result<String, GitError>,
)
    requires
        is_trim(answer),
        answer.len() > 0,
        root@.len() > 0,
        root@.last() != '/',
        output.code == Some(0i32),
        output.stdout@ == encode_utf8(answer.push('\n')),
        call_ensures(read_common_dir, (root, output), result),
    ensures
        result is Ok,
        answer[0] == '/' ==> result->Ok_0@ == answer,
        answer[0] != '/' ==> result->Ok_0@ == root@ + "/"@ + answer,
{
    lemma_encoded_text(answer.push('\n'));
    lemma_trimmed(answer);
}

/// A repository is shown under the name of the directory that holds its `.git`; one
/// without such a directory is shown under the name of its Git directory.
pub proof fn repository_is_named_after_its_directory(
    root: &str,
    base: Seq<char>,
    own: Seq<char>,
    inside: &str,
    bare: &str,
    name: String,
    bare_name: String,
)
    requires
        is_tidy(base),
        is_name(own),
        own != ".git"@,
        inside@ == base + "/"@ + own + "/"@ + ".git"@,
        bare@ == base + "/"@ + own,
        call_ensures(repository_display_name, (root, inside), name),
        call_ensures(repository_display_name, (root, bare), bare_name),
    ensures
        name@ == own,
        bare_name@ == own,
{
    reveal_strlit("/");
    reveal_strlit(".git");
    reveal_strlit(".");
    reveal_strlit("..");
    assert(base + "/"@ + own =~= base.push('/') + own);
    let whole = base.push('/') + own;
    lemma_name_added(base, own);
    assert(whole.last() == own.last());
    assert(own.last() == own[own.len() - 1]);
    if own.len() >= 2 {
        assert(whole[whole.len() - 2] == own[own.len() - 2]);
    } else {
        if own[0] == '.' {
            assert(own =~= "."@);
        }
    }
    assert(is_tidy(whole));
    assert(".git"@[1] == 'g');
    lemma_name_added(whole, ".git"@);
    assert(whole + "/"@ + ".git"@ =~= whole.push('/') + ".git"@);
}

/// The worktrees and the changes are what is read of what Git printed; where Git failed,
/// nothing is read, and its words are kept.
pub proof fn failed_command_is_not_read(
    output: CommandOutput,
    printed: &[u8],
    listed: Result<Vec<GitWorktree>, GitError>,
    worktrees: Result<Vec<GitWorktree>, GitError>,
    changed: Result<ChangeSummary, GitError>,
    changes: Result<ChangeSummary, GitError>,
    list_words: Vec<String>,
    status_words: Vec<String>,
)
    requires
        printed@ == output.stdout@,
        call_ensures(worktree_list_args, (), list_words),
        call_ensures(status_args, (), status_words),
        call_ensures(parse_worktree_list_porcelain, (printed,), listed),
        call_ensures(GitRepository::list_worktrees, (output,), worktrees),
        call_ensures(parse_status_porcelain, (printed,), changed),
        call_ensures(read_change_summary, (output,), changes),
    ensures
        output.code == Some(0i32) ==> {
            &&& worktrees is Ok <==> listed is Ok
            &&& worktrees is Ok ==> views(worktrees->Ok_0@) == views(listed->Ok_0@)
            &&& changes is Ok <==> changed is Ok
            &&& changes is Ok ==> changes->Ok_0@ == changed->Ok_0@
        },
        output.code != Some(0i32) ==> {
            &&& worktrees is Err
            &&& worktrees->Err_0@ is Command
            &&& worktrees->Err_0@->code == output.code
            &&& worktrees->Err_0@->args == join_text(views(list_words@), " "@)
            &&& changes is Err
            &&& changes->Err_0@ is Command
            &&& changes->Err_0@->code == output.code
            &&& changes->Err_0@->args == join_text(views(status_words@), " "@)
        },
{
}

/// The error of a failed command names the command, how it ended and what it said, and
/// so does the sentence about it.
pub proof fn failed_command_is_told(
    args: &Vec<String>,
    output: &CommandOutput,
    error: GitError,
    text: String,
)
    requires
        call_ensures(command_error, (args, output), error),
        call_ensures(GitError::to_text, (&error,), text),
    ensures
        error@ is Command,
        error@->args == join_text(views(args@), " "@),
        error@->code == output.code,
        error@->stderr == trim_text(lossy_text(output.stderr@)),
        output.code is Some && error@->stderr.len() > 0 ==> text@ == "git "@ + join_text(
            views(args@),
            " "@,
        ) + " ("@ + ("exit code "@ + signed_decimal(output.code->0 as int)) + "): "@
            + error@->stderr,
        output.code is Some && error@->stderr.len() == 0 ==> text@ == "git "@ + join_text(
            views(args@),
            " "@,
        ) + " ("@ + ("exit code "@ + signed_decimal(output.code->0 as int)) + ")"@,
{
}

/// The other sentences about Git say what went wrong, and where.
pub proof fn git_errors_are_told_apart(error: &GitError, text: String)
    requires
        call_ensures(GitError::to_text, (error,), text),
    ensures
        error@ matches GitErrorView::Io { operation, source } ==> text@ == operation + ": "@
            + source,
        error@ matches GitErrorView::InvalidOutput(message) ==> text@ == "invalid Git output: "@
            + message,
        error@ matches GitErrorView::NotRepository(path) ==> text@ == "not a Git worktree: "@
            + path,
{
}

/// A base on a remote is sought under its own name first; any other is first sought under
/// that of the origin. A full name is taken apart.
pub proof fn remote_branch_is_sought_in_order(
    base: &str,
    local: Seq<char>,
    names: Vec<String>,
)
    requires
        call_ensures(remote_candidates, (base,), names),
    ensures
        base@ == "refs/remotes/"@ + local ==> names@.len() == 1 && names@[0]@ == local,
        base@ == "origin/"@ + local || base@ == "upstream/"@ + local ==> names@.len() == 2
            && names@[0]@ == base@ && names@[1]@ == "origin/"@ + base@,
        base@ == "refs/heads/"@ + local ==> names@.len() == 2 && names@[0]@ == "origin/"@ + local
            && names@[1]@ == base@,
        !begins_with(base@, "refs/"@) && !begins_with(base@, "origin/"@) && !begins_with(
            base@,
            "upstream/"@,
        ) ==> names@.len() == 2 && names@[0]@ == "origin/"@ + base@ && names@[1]@ == base@,
{
    lemma_words_of(names);
    reveal_strlit("refs/remotes/");
    reveal_strlit("refs/heads/");
    reveal_strlit("refs/");
    reveal_strlit("origin/");
    reveal_strlit("upstream/");
    let text = base@;
    assert(begins_with(text, "refs/remotes/"@) ==> begins_with(text, "refs/"@)) by {
        if begins_with(text, "refs/remotes/"@) {
            assert(text.take(5) =~= text.take(13).take(5));
            assert("refs/remotes/"@.take(5) =~= "refs/"@);
        }
    }
    assert(begins_with(text, "refs/heads/"@) ==> begins_with(text, "refs/"@)) by {
        if begins_with(text, "refs/heads/"@) {
            assert(text.take(5) =~= text.take(11).take(5));
            assert("refs/heads/"@.take(5) =~= "refs/"@);
        }
    }
    if text == "refs/remotes/"@ + local {
        assert(text.take(13) =~= "refs/remotes/"@);
        assert(text.skip(13) =~= local);
    }
    if text == "refs/heads/"@ + local {
        assert(text.take(11) =~= "refs/heads/"@);
        assert(text.skip(11) =~= local);
        assert(text[5] == 'h');
        if begins_with(text, "refs/remotes/"@) {
            assert(text.take(13)[5] == 'r');
        }
        if begins_with(text, "origin/"@) {
            assert(text.take(7)[0] == 'o');
        }
        if begins_with(text, "upstream/"@) {
            assert(text.take(9)[0] == 'u');
        }
    }
    if text == "origin/"@ + local || text == "upstream/"@ + local {
        assert(text == "origin/"@ + local ==> text.take(7) =~= "origin/"@);
        assert(text == "upstream/"@ + local ==> text.take(9) =~= "upstream/"@);
        assert(text[0] == 'o' || text[0] == 'u');
        if begins_with(text, "refs/remotes/"@) {
            assert(text.take(13)[0] == 'r');
        }
        if begins_with(text, "refs/heads/"@) {
            assert(text.take(11)[0] == 'r');
        }
    }
}

/// Branches of the repository and of the remotes are sought by their full names, one after
/// the other, and the search ends with the first that is there.
pub proof fn branches_are_sought_by_full_name(
    names: Vec<String>,
    heads: RefSearch,
    remotes: RefSearch,
    first_head: Option<String>,
    first_remote: Option<String>,
    found: bool,
    outcome: Result<Option<String>, RefSearch>,
    next: Option<String>,
)
    requires
        names@.len() > 1,
        call_ensures(RefSearch::heads, (names,), heads),
        call_ensures(RefSearch::remotes, (names,), remotes),
        call_ensures(RefSearch::reference, (&heads,), first_head),
        call_ensures(RefSearch::reference, (&remotes,), first_remote),
        call_ensures(RefSearch::answer, (heads, found), outcome),
        outcome is Err ==> call_ensures(RefSearch::reference, (&outcome->Err_0,), next),
    ensures
        first_head is Some && first_head->0@ == "refs/heads/"@ + names@[0]@,
        first_remote is Some && first_remote->0@ == "refs/remotes/"@ + names@[0]@,
        found ==> (outcome matches Ok(name) && name is Some && name->0@ == names@[0]@),
        !found ==> outcome is Err && next is Some && next->0@ == "refs/heads/"@ + names@[1]@,
{
    assert(views(names@).len() == names@.len());
    assert(views(names@)[0] == names@[0]@);
    assert(views(names@)[1] == names@[1]@);
    assert(views(names@).skip(1)[0] == names@[1]@);
}

/// Of a directory everything counts but the one entry that is to be left out, and the time
/// of a worktree is the one that the file system gave.
pub proof fn sizes_and_times_are_taken_as_found(
    entry: &str,
    skip: &str,
    left_out: bool,
    kept: bool,
    modified: Option<i64>,
    time: TimeObservation,
)
    requires
        call_ensures(skips_entry, (entry, Some(skip)), left_out),
        call_ensures(skips_entry, (entry, None), kept),
        call_ensures(filesystem_time, (modified,), time),
    ensures
        left_out <==> same_steps(entry@, skip@),
        !kept,
        time.filesystem_modified_unix_seconds == modified,
{
}

} // verus!

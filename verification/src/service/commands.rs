//! The Git commands that change a repository.

use crate::git::error::GitError;
use crate::git::error::GitErrorView;
use crate::git::reads::CommandOutput;
use crate::git::reads::CommandOutputView;
use crate::git::reads::command_error;
use crate::git::reads::command_failure;
use crate::json::writer::slice_view;
use crate::text::concat;
use crate::text::views;
use vstd::prelude::*;

verus! {

/// Creates a worktree with a new branch.
pub open spec fn add_command(branch: Seq<char>, path: Seq<char>, base: Option<Seq<char>>) -> Seq<
    Seq<char>,
> {
    let args = seq!["worktree"@, "add"@, "-b"@, branch, "--"@, path];
    match base {
        Some(start) => args.push(start),
        None => args,
    }
}

/// Creates a worktree with a new branch.
pub fn add_args(branch: &str, path: &str, base: Option<&str>) -> (args: Vec<String>)
    ensures
        views(args@) == add_command(branch@, path@, slice_view(base)),
{
    let mut args: Vec<String> = Vec::new();
    args.push("worktree".to_owned());
    args.push("add".to_owned());
    args.push("-b".to_owned());
    args.push(branch.to_owned());
    args.push("--".to_owned());
    args.push(path.to_owned());
    if let Some(start) = base {
        args.push(start.to_owned());
    }
    assert(views(args@) =~= add_command(branch@, path@, slice_view(base)));
    args
}

/// Locks or unlocks a worktree.
pub open spec fn lock_command(lock: bool, reason: Option<Seq<char>>, path: Seq<char>) -> Seq<
    Seq<char>,
> {
    if lock {
        match reason {
            Some(words) => seq!["worktree"@, "lock"@, "--reason"@, words, "--"@, path],
            None => seq!["worktree"@, "lock"@, "--"@, path],
        }
    } else {
        seq!["worktree"@, "unlock"@, "--"@, path]
    }
}

/// Locks or unlocks a worktree.
pub fn lock_args(lock: bool, reason: Option<&str>, path: &str) -> (args: Vec<String>)
    ensures
        views(args@) == lock_command(lock, slice_view(reason), path@),
{
    let mut args: Vec<String> = Vec::new();
    args.push("worktree".to_owned());
    if lock {
        args.push("lock".to_owned());
        if let Some(words) = reason {
            args.push("--reason".to_owned());
            args.push(words.to_owned());
        }
    } else {
        args.push("unlock".to_owned());
    }
    args.push("--".to_owned());
    args.push(path.to_owned());
    assert(views(args@) =~= lock_command(lock, slice_view(reason), path@));
    args
}

/// Removes a worktree, unless Git finds work in it.
pub open spec fn remove_command(path: Seq<char>) -> Seq<Seq<char>> {
    seq!["worktree"@, "remove"@, "--"@, path]
}

/// Removes a worktree, unless Git finds work in it.
pub fn remove_args(path: &str) -> (args: Vec<String>)
    ensures
        views(args@) == remove_command(path@),
{
    let mut args: Vec<String> = Vec::new();
    args.push("worktree".to_owned());
    args.push("remove".to_owned());
    args.push("--".to_owned());
    args.push(path.to_owned());
    assert(views(args@) =~= remove_command(path@));
    args
}

/// Deletes a branch, unless Git finds it unmerged.
pub open spec fn delete_branch_command(branch: Seq<char>) -> Seq<Seq<char>> {
    seq!["branch"@, "-d"@, "--"@, branch]
}

/// Deletes a branch, unless Git finds it unmerged.
pub fn delete_branch_args(branch: &str) -> (args: Vec<String>)
    ensures
        views(args@) == delete_branch_command(branch@),
{
    let mut args: Vec<String> = Vec::new();
    args.push("branch".to_owned());
    args.push("-d".to_owned());
    args.push("--".to_owned());
    args.push(branch.to_owned());
    assert(views(args@) =~= delete_branch_command(branch@));
    args
}

/// Asks whether a local branch exists.
pub open spec fn branch_ref_command(branch: Seq<char>) -> Seq<Seq<char>> {
    seq!["show-ref"@, "--verify"@, "--quiet"@, "--"@, "refs/heads/"@ + branch]
}

/// Asks whether a local branch exists.
pub fn branch_ref_args(branch: &str) -> (args: Vec<String>)
    ensures
        views(args@) == branch_ref_command(branch@),
{
    let mut args: Vec<String> = Vec::new();
    args.push("show-ref".to_owned());
    args.push("--verify".to_owned());
    args.push("--quiet".to_owned());
    args.push("--".to_owned());
    args.push(concat("refs/heads/", branch));
    assert(views(args@) =~= branch_ref_command(branch@));
    args
}

/// What came of an attempt to run Git.
pub open spec fn attempt_view(attempt: Result<CommandOutput, GitError>) -> Result<
    CommandOutputView,
    GitErrorView,
> {
    match attempt {
        Ok(output) => Ok(output@),
        Err(error) => Err(error@),
    }
}

/// Why an attempt to change the repository failed, if it did.
pub open spec fn attempt_failure(
    args: Seq<Seq<char>>,
    attempt: Result<CommandOutputView, GitErrorView>,
) -> Option<GitErrorView> {
    match attempt {
        Err(error) => Some(error),
        Ok(output) => if output.success() {
            None
        } else {
            Some(command_failure(args, output))
        },
    }
}

/// Judges an attempt to change the repository.
pub fn run_git(args: &Vec<String>, attempt: Result<CommandOutput, GitError>) -> (result: Result<
    (),
    GitError,
>)
    ensures
        match result {
            Ok(()) => attempt_failure(views(args@), attempt_view(attempt)) is None,
            Err(error) => attempt_failure(views(args@), attempt_view(attempt)) == Some(error@),
        },
{
    match attempt {
        Err(error) => Err(error),
        Ok(output) => if output.success() {
            Ok(())
        } else {
            Err(command_error(args, &output))
        },
    }
}

/// Whether a local branch exists, by what Git answered.
pub open spec fn branch_presence(
    branch: Seq<char>,
    attempt: Result<CommandOutputView, GitErrorView>,
) -> Result<bool, GitErrorView> {
    match attempt {
        Err(error) => Err(error),
        Ok(output) => if output.success() {
            Ok(true)
        } else if output.code == Some(1i32) {
            Ok(false)
        } else {
            Err(command_failure(branch_ref_command(branch), output))
        },
    }
}

/// Reads whether a local branch exists.
pub fn local_branch_exists(branch: &str, attempt: Result<CommandOutput, GitError>) -> (result:
    Result<bool, GitError>)
    ensures
        match (result, branch_presence(branch@, attempt_view(attempt))) {
            (Ok(exists_there), Ok(expected)) => exists_there == expected,
            (Err(error), Err(expected)) => error@ == expected,
            _ => false,
        },
{
    match attempt {
        Err(error) => Err(error),
        Ok(output) => {
            if output.success() {
                return Ok(true);
            }
            if let Some(code) = output.code {
                if code == 1 {
                    return Ok(false);
                }
            }
            let args = branch_ref_args(branch);
            Err(command_error(&args, &output))
        },
    }
}

/// A word that makes Git override its own checks.
pub open spec fn is_force(word: Seq<char>) -> bool {
    word == "-f"@ || word == "--force"@ || word == "-D"@
}

/// Removing a worktree and deleting a branch never override the checks of Git: no
/// such word stands among their options, which end at `--`.
pub proof fn removal_is_never_forced(path: Seq<char>, branch: Seq<char>)
    ensures
        remove_command(path)[2] == "--"@,
        delete_branch_command(branch)[2] == "--"@,
        forall|i: int| 0 <= i < 3 ==> !is_force(#[trigger] remove_command(path)[i]),
        forall|i: int| 0 <= i < 3 ==> !is_force(#[trigger] delete_branch_command(branch)[i]),
{
    reveal_strlit("-f");
    reveal_strlit("--force");
    reveal_strlit("-D");
    reveal_strlit("worktree");
    reveal_strlit("remove");
    reveal_strlit("branch");
    reveal_strlit("-d");
    reveal_strlit("--");
    assert("worktree"@.len() == 8);
    assert("remove"@.len() == 6);
    assert("branch"@.len() == 6);
    assert("--force"@.len() == 7);
    assert("remove"@[0] == 'r');
    assert("-f"@[1] == 'f');
    assert("-D"@[1] == 'D');
    assert("-d"@[1] == 'd');
    assert("--"@[1] == '-');
    assert("--"@.len() == 2 && "-f"@.len() == 2 && "-D"@.len() == 2 && "-d"@.len() == 2);
}

} // verus!

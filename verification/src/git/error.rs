//! What can go wrong with Git.

use crate::numeral::print_i64;
use crate::numeral::signed_decimal;
use crate::text::is_blank;
use vstd::prelude::*;

verus! {

/// A failure of Git, or of reading what it printed.
#[derive(Debug, PartialEq, Eq)]
pub enum GitError {
    Io { operation: String, source: String },
    Command { args: String, code: Option<i32>, stderr: String },
    InvalidOutput(String),
    NotRepository(String),
}

/// The view of a [`GitError`].
#[verifier::ext_equal]
pub enum GitErrorView {
    Io { operation: Seq<char>, source: Seq<char> },
    Command { args: Seq<char>, code: Option<i32>, stderr: Seq<char> },
    InvalidOutput(Seq<char>),
    NotRepository(Seq<char>),
}

impl View for GitError {
    type V = GitErrorView;

    open spec fn view(&self) -> GitErrorView {
        match self {
            GitError::Io { operation, source } => GitErrorView::Io {
                operation: operation@,
                source: source@,
            },
            GitError::Command { args, code, stderr } => GitErrorView::Command {
                args: args@,
                code: *code,
                stderr: stderr@,
            },
            GitError::InvalidOutput(inner) => GitErrorView::InvalidOutput(inner@),
            GitError::NotRepository(inner) => GitErrorView::NotRepository(inner@),
        }
    }
}

impl Clone for GitError {
    fn clone(&self) -> (copy: Self)
        ensures
            copy@ == self@,
    {
        match self {
            GitError::Io { operation, source } => GitError::Io {
                operation: operation.clone(),
                source: source.clone(),
            },
            GitError::Command { args, code, stderr } => GitError::Command {
                args: args.clone(),
                code: *code,
                stderr: stderr.clone(),
            },
            GitError::InvalidOutput(inner) => GitError::InvalidOutput(inner.clone()),
            GitError::NotRepository(inner) => GitError::NotRepository(inner.clone()),
        }
    }
}

/// How a program ended.
pub open spec fn exit_text(code: Option<i32>) -> Seq<char> {
    match code {
        Some(number) => "exit code "@ + signed_decimal(number as int),
        None => "terminated without an exit code"@,
    }
}

fn print_exit(code: Option<i32>) -> (text: String)
    ensures
        text@ == exit_text(code),
{
    match code {
        Some(number) => {
            let mut text = "exit code ".to_owned();
            let digits = print_i64(number as i64);
            text.append(&digits);
            text
        },
        None => "terminated without an exit code".to_owned(),
    }
}

impl GitErrorView {
    /// The sentence that tells a reader of the error.
    pub open spec fn text(self) -> Seq<char> {
        match self {
            GitErrorView::Io { operation, source } => operation + ": "@ + source,
            GitErrorView::Command { args, code, stderr } => {
                let head = "git "@ + args + " ("@ + exit_text(code);
                if stderr.len() == 0 {
                    head + ")"@
                } else {
                    head + "): "@ + stderr
                }
            },
            GitErrorView::InvalidOutput(message) => "invalid Git output: "@ + message,
            GitErrorView::NotRepository(path) => "not a Git worktree: "@ + path,
        }
    }
}

impl GitError {
    /// The sentence that tells a reader of the error.
    pub fn to_text(&self) -> (text: String)
        ensures
            text@ == self@.text(),
    {
        match self {
            GitError::Io { operation, source } => {
                let mut text = operation.clone();
                text.append(": ");
                text.append(source);
                text
            },
            GitError::Command { args, code, stderr } => {
                let mut text = "git ".to_owned();
                text.append(args);
                text.append(" (");
                let status = print_exit(*code);
                text.append(&status);
                if is_blank(stderr) {
                    text.append(")");
                } else {
                    text.append("): ");
                    text.append(stderr);
                }
                text
            },
            GitError::InvalidOutput(message) => {
                let mut text = "invalid Git output: ".to_owned();
                text.append(message);
                text
            },
            GitError::NotRepository(path) => {
                let mut text = "not a Git worktree: ".to_owned();
                text.append(path);
                text
            },
        }
    }
}

} // verus!

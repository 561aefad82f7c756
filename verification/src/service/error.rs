//! What can go wrong with an operation on a repository.

use crate::git::error::GitError;
use crate::git::error::GitErrorView;
use crate::inventory::records::InventoryError;
use crate::inventory::records::InventoryErrorView;
use crate::text::concat;
use crate::text::copy_texts;
use crate::text::debug_string;
use crate::text::debug_text;
use crate::text::join;
use crate::text::join_text;
use crate::text::views;
use vstd::prelude::*;

verus! {

/// A failure of an operation on a repository.
#[derive(Debug, PartialEq, Eq)]
pub enum ServiceError {
    Git(GitError),
    Inventory(InventoryError),
    Io { operation: String, source: String },
    InvalidRequest(String),
    NotFound(String),
    UnsafeRemoval { path: String, blockers: Vec<String> },
    BranchDeletionFailed { branch: String, source: GitError },
    LockPoisoned,
}

/// The view of a [`ServiceError`].
#[verifier::ext_equal]
pub enum ServiceErrorView {
    Git(GitErrorView),
    Inventory(InventoryErrorView),
    Io { operation: Seq<char>, source: Seq<char> },
    InvalidRequest(Seq<char>),
    NotFound(Seq<char>),
    UnsafeRemoval { path: Seq<char>, blockers: Seq<Seq<char>> },
    BranchDeletionFailed { branch: Seq<char>, source: GitErrorView },
    LockPoisoned,
}

impl View for ServiceError {
    type V = ServiceErrorView;

    open spec fn view(&self) -> ServiceErrorView {
        match self {
            ServiceError::Git(inner) => ServiceErrorView::Git(inner@),
            ServiceError::Inventory(inner) => ServiceErrorView::Inventory(inner@),
            ServiceError::Io { operation, source } => ServiceErrorView::Io {
                operation: operation@,
                source: source@,
            },
            ServiceError::InvalidRequest(inner) => ServiceErrorView::InvalidRequest(inner@),
            ServiceError::NotFound(inner) => ServiceErrorView::NotFound(inner@),
            ServiceError::UnsafeRemoval { path, blockers } => ServiceErrorView::UnsafeRemoval {
                path: path@,
                blockers: views(blockers@),
            },
            ServiceError::BranchDeletionFailed { branch, source } => ServiceErrorView::BranchDeletionFailed {
                branch: branch@,
                source: source@,
            },
            ServiceError::LockPoisoned => ServiceErrorView::LockPoisoned,
        }
    }
}

impl Clone for ServiceError {
    fn clone(&self) -> (copy: Self)
        ensures
            copy@ == self@,
    {
        match self {
            ServiceError::Git(inner) => ServiceError::Git(inner.clone()),
            ServiceError::Inventory(inner) => ServiceError::Inventory(inner.clone()),
            ServiceError::Io { operation, source } => ServiceError::Io {
                operation: operation.clone(),
                source: source.clone(),
            },
            ServiceError::InvalidRequest(inner) => ServiceError::InvalidRequest(inner.clone()),
            ServiceError::NotFound(inner) => ServiceError::NotFound(inner.clone()),
            ServiceError::UnsafeRemoval { path, blockers } => ServiceError::UnsafeRemoval {
                path: path.clone(),
                blockers: copy_texts(blockers),
            },
            ServiceError::BranchDeletionFailed { branch, source } => ServiceError::BranchDeletionFailed {
                branch: branch.clone(),
                source: source.clone(),
            },
            ServiceError::LockPoisoned => ServiceError::LockPoisoned,
        }
    }
}

impl ServiceErrorView {
    /// The sentence that tells a reader of the error.
    pub open spec fn text(self) -> Seq<char> {
        match self {
            ServiceErrorView::Git(error) => error.text(),
            ServiceErrorView::Inventory(error) => error.text(),
            ServiceErrorView::Io { operation, source } => operation + ": "@ + source,
            ServiceErrorView::InvalidRequest(message) => "invalid request: "@ + message,
            ServiceErrorView::NotFound(path) => "worktree not found: "@ + path,
            ServiceErrorView::UnsafeRemoval { path, blockers } => "refusing to remove "@ + path
                + ": "@ + join_text(blockers, ", "@),
            ServiceErrorView::BranchDeletionFailed { branch, source } => {
                "worktree was removed but branch "@ + debug_text(branch)
                    + " could not be deleted: "@ + source.text()
            },
            ServiceErrorView::LockPoisoned => "repository mutation lock is poisoned"@,
        }
    }
}

impl ServiceError {
    /// The sentence that tells a reader of the error.
    pub fn to_text(&self) -> (text: String)
        ensures
            text@ == self@.text(),
    {
        match self {
            ServiceError::Git(error) => error.to_text(),
            ServiceError::Inventory(error) => error.to_text(),
            ServiceError::Io { operation, source } => {
                let mut text = operation.clone();
                text.append(": ");
                text.append(source);
                text
            },
            ServiceError::InvalidRequest(message) => concat("invalid request: ", message),
            ServiceError::NotFound(path) => concat("worktree not found: ", path),
            ServiceError::UnsafeRemoval { path, blockers } => {
                let mut text = concat("refusing to remove ", path);
                text.append(": ");
                let listed = join(blockers, ", ");
                text.append(&listed);
                text
            },
            ServiceError::BranchDeletionFailed { branch, source } => {
                let name = debug_string(branch);
                let mut text = concat("worktree was removed but branch ", &name);
                text.append(" could not be deleted: ");
                let reason = source.to_text();
                text.append(&reason);
                text
            },
            ServiceError::LockPoisoned => "repository mutation lock is poisoned".to_owned(),
        }
    }
}

impl From<GitError> for ServiceError {
    fn from(error: GitError) -> (result: Self) {
        ServiceError::Git(error)
    }
}

impl vstd::std_specs::convert::FromSpecImpl<GitError> for ServiceError {
    open spec fn obeys_from_spec() -> bool {
        true
    }

    open spec fn from_spec(error: GitError) -> ServiceError {
        ServiceError::Git(error)
    }
}

impl From<InventoryError> for ServiceError {
    fn from(error: InventoryError) -> (result: Self) {
        ServiceError::Inventory(error)
    }
}

impl vstd::std_specs::convert::FromSpecImpl<InventoryError> for ServiceError {
    open spec fn obeys_from_spec() -> bool {
        true
    }

    open spec fn from_spec(error: InventoryError) -> ServiceError {
        ServiceError::Inventory(error)
    }
}

/// The complaint about a request that cannot be carried out.
pub open spec fn invalid(message: Seq<char>) -> ServiceErrorView {
    ServiceErrorView::InvalidRequest(message)
}

pub(crate) fn invalid_request(message: &str) -> (error: ServiceError)
    ensures
        error@ == invalid(message@),
{
    ServiceError::InvalidRequest(message.to_owned())
}

} // verus!

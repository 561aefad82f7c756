//! What can go wrong with a command.

use crate::daemon::error::DaemonError;
use crate::daemon::error::DaemonErrorView;
use crate::git::error::GitError;
use crate::git::error::GitErrorView;
use crate::service::error::ServiceError;
use crate::service::error::ServiceErrorView;
use vstd::prelude::*;

verus! {

/// A failure of a command.
#[derive(Debug, PartialEq, Eq)]
pub enum CliError {
    Usage(String),
    Git(GitError),
    Daemon(DaemonError),
    Service(ServiceError),
    Io(String),
}

/// The view of a [`CliError`].
#[verifier::ext_equal]
pub enum CliErrorView {
    Usage(Seq<char>),
    Git(GitErrorView),
    Daemon(DaemonErrorView),
    Service(ServiceErrorView),
    Io(Seq<char>),
}

impl View for CliError {
    type V = CliErrorView;

    open spec fn view(&self) -> CliErrorView {
        match self {
            CliError::Usage(inner) => CliErrorView::Usage(inner@),
            CliError::Git(inner) => CliErrorView::Git(inner@),
            CliError::Daemon(inner) => CliErrorView::Daemon(inner@),
            CliError::Service(inner) => CliErrorView::Service(inner@),
            CliError::Io(inner) => CliErrorView::Io(inner@),
        }
    }
}

impl CliErrorView {
    /// The sentence that tells a reader of the error.
    pub open spec fn text(self) -> Seq<char> {
        match self {
            CliErrorView::Usage(message) => message,
            CliErrorView::Git(error) => error.text(),
            CliErrorView::Daemon(error) => error.text(),
            CliErrorView::Service(error) => error.text(),
            CliErrorView::Io(message) => message,
        }
    }
}

impl CliError {
    /// The sentence that tells a reader of the error.
    pub fn to_text(&self) -> (text: String)
        ensures
            text@ == self@.text(),
    {
        match self {
            CliError::Usage(message) => message.clone(),
            CliError::Git(error) => error.to_text(),
            CliError::Daemon(error) => error.to_text(),
            CliError::Service(error) => error.to_text(),
            CliError::Io(message) => message.clone(),
        }
    }
}

impl From<GitError> for CliError {
    fn from(error: GitError) -> (result: Self) {
        CliError::Git(error)
    }
}

impl vstd::std_specs::convert::FromSpecImpl<GitError> for CliError {
    open spec fn obeys_from_spec() -> bool {
        true
    }

    open spec fn from_spec(error: GitError) -> CliError {
        CliError::Git(error)
    }
}

impl From<DaemonError> for CliError {
    fn from(error: DaemonError) -> (result: Self) {
        CliError::Daemon(error)
    }
}

impl vstd::std_specs::convert::FromSpecImpl<DaemonError> for CliError {
    open spec fn obeys_from_spec() -> bool {
        true
    }

    open spec fn from_spec(error: DaemonError) -> CliError {
        CliError::Daemon(error)
    }
}

impl From<ServiceError> for CliError {
    fn from(error: ServiceError) -> (result: Self) {
        CliError::Service(error)
    }
}

impl vstd::std_specs::convert::FromSpecImpl<ServiceError> for CliError {
    open spec fn obeys_from_spec() -> bool {
        true
    }

    open spec fn from_spec(error: ServiceError) -> CliError {
        CliError::Service(error)
    }
}

} // verus!

//! What can go wrong between a client and the daemon.

use crate::git::error::GitError;
use crate::git::error::GitErrorView;
use crate::inventory::records::InventoryError;
use crate::inventory::state::Inventory;
use crate::service::error::ServiceError;
use crate::service::error::ServiceErrorView;
use crate::text::concat3;
use crate::text::concat;
use vstd::prelude::*;

verus! {

/// A failure of the daemon, or of talking to it.
#[derive(Debug, PartialEq, Eq)]
pub enum DaemonError {
    Io { operation: String, source: String },
    Git(GitError),
    Service(ServiceError),
    Protocol(String),
    Remote { code: String, message: String },
    Unsupported,
}

/// The view of a [`DaemonError`].
#[verifier::ext_equal]
pub enum DaemonErrorView {
    Io { operation: Seq<char>, source: Seq<char> },
    Git(GitErrorView),
    Service(ServiceErrorView),
    Protocol(Seq<char>),
    Remote { code: Seq<char>, message: Seq<char> },
    Unsupported,
}

impl View for DaemonError {
    type V = DaemonErrorView;

    open spec fn view(&self) -> DaemonErrorView {
        match self {
            DaemonError::Io { operation, source } => DaemonErrorView::Io {
                operation: operation@,
                source: source@,
            },
            DaemonError::Git(inner) => DaemonErrorView::Git(inner@),
            DaemonError::Service(inner) => DaemonErrorView::Service(inner@),
            DaemonError::Protocol(inner) => DaemonErrorView::Protocol(inner@),
            DaemonError::Remote { code, message } => DaemonErrorView::Remote {
                code: code@,
                message: message@,
            },
            DaemonError::Unsupported => DaemonErrorView::Unsupported,
        }
    }
}

impl Clone for DaemonError {
    fn clone(&self) -> (copy: Self)
        ensures
            copy@ == self@,
    {
        match self {
            DaemonError::Io { operation, source } => DaemonError::Io {
                operation: operation.clone(),
                source: source.clone(),
            },
            DaemonError::Git(inner) => DaemonError::Git(inner.clone()),
            DaemonError::Service(inner) => DaemonError::Service(inner.clone()),
            DaemonError::Protocol(inner) => DaemonError::Protocol(inner.clone()),
            DaemonError::Remote { code, message } => DaemonError::Remote {
                code: code.clone(),
                message: message.clone(),
            },
            DaemonError::Unsupported => DaemonError::Unsupported,
        }
    }
}

impl DaemonErrorView {
    /// The sentence that tells a reader of the error.
    pub open spec fn text(self) -> Seq<char> {
        match self {
            DaemonErrorView::Io { operation, source } => operation + ": "@ + source,
            DaemonErrorView::Git(error) => error.text(),
            DaemonErrorView::Service(error) => error.text(),
            DaemonErrorView::Protocol(message) => "daemon protocol error: "@ + message,
            DaemonErrorView::Remote { code, message } => "daemon request failed ("@ + code
                + "): "@ + message,
            DaemonErrorView::Unsupported => "daemon IPC is unsupported on this platform"@,
        }
    }
}

impl DaemonError {
    /// The sentence that tells a reader of the error.
    pub fn to_text(&self) -> (text: String)
        ensures
            text@ == self@.text(),
    {
        match self {
            DaemonError::Io { operation, source } => concat3(operation, ": ", source),
            DaemonError::Git(error) => error.to_text(),
            DaemonError::Service(error) => error.to_text(),
            DaemonError::Protocol(message) => concat("daemon protocol error: ", message),
            DaemonError::Remote { code, message } => {
                let mut text = concat3("daemon request failed (", code, "): ");
                text.append(message);
                text
            },
            DaemonError::Unsupported => "daemon IPC is unsupported on this platform".to_owned(),
        }
    }
}

/// A breach of the protocol.
pub open spec fn protocol(message: Seq<char>) -> DaemonErrorView {
    DaemonErrorView::Protocol(message)
}

/// A breach of the protocol.
pub fn protocol_error(message: &str) -> (error: DaemonError)
    ensures
        error@ == protocol(message@),
{
    DaemonError::Protocol(message.to_owned())
}

impl From<GitError> for DaemonError {
    fn from(error: GitError) -> (result: Self) {
        DaemonError::Git(error)
    }
}

impl vstd::std_specs::convert::FromSpecImpl<GitError> for DaemonError {
    open spec fn obeys_from_spec() -> bool {
        true
    }

    open spec fn from_spec(error: GitError) -> DaemonError {
        DaemonError::Git(error)
    }
}

impl From<ServiceError> for DaemonError {
    fn from(error: ServiceError) -> (result: Self) {
        DaemonError::Service(error)
    }
}

impl vstd::std_specs::convert::FromSpecImpl<ServiceError> for DaemonError {
    open spec fn obeys_from_spec() -> bool {
        true
    }

    open spec fn from_spec(error: ServiceError) -> DaemonError {
        DaemonError::Service(error)
    }
}

impl From<InventoryError> for DaemonError {
    fn from(error: InventoryError) -> (result: Self) {
        DaemonError::Service(ServiceError::Inventory(error))
    }
}

impl vstd::std_specs::convert::FromSpecImpl<InventoryError> for DaemonError {
    open spec fn obeys_from_spec() -> bool {
        true
    }

    open spec fn from_spec(error: InventoryError) -> DaemonError {
        DaemonError::Service(ServiceError::Inventory(error))
    }
}

} // verus!

//! The settings of a daemon.

use crate::daemon::error::DaemonError;
use crate::daemon::error::protocol;
use crate::daemon::error::protocol_error;
use crate::git::repository::GitRepository;
use crate::git::repository::GitRepositoryView;
use crate::service::rules::DEFAULT_CLEANUP_MINIMUM_AGE_SECONDS;
use vstd::prelude::*;

verus! {

/// The settings of a daemon.
#[derive(Debug, PartialEq, Eq)]
pub struct DaemonConfig {
    pub repository: GitRepository,
    /// Where the inventory is kept.
    pub inventory_path: String,
    /// Where clients connect.
    pub socket_path: String,
    pub minimum_cleanup_age_seconds: i64,
}

/// The view of a [`DaemonConfig`].
#[verifier::ext_equal]
pub struct DaemonConfigView {
    pub repository: GitRepositoryView,
    pub inventory_path: Seq<char>,
    pub socket_path: Seq<char>,
    pub minimum_cleanup_age_seconds: i64,
}

impl View for DaemonConfig {
    type V = DaemonConfigView;

    open spec fn view(&self) -> DaemonConfigView {
        DaemonConfigView {
            repository: self.repository@,
            inventory_path: self.inventory_path@,
            socket_path: self.socket_path@,
            minimum_cleanup_age_seconds: self.minimum_cleanup_age_seconds,
        }
    }
}

impl Clone for DaemonConfig {
    fn clone(&self) -> (copy: Self)
        ensures
            copy@ == self@,
    {
        DaemonConfig {
            repository: self.repository.clone(),
            inventory_path: self.inventory_path.clone(),
            socket_path: self.socket_path.clone(),
            minimum_cleanup_age_seconds: self.minimum_cleanup_age_seconds,
        }
    }
}

impl DaemonConfig {
    /// Settings with the default minimum age.
    pub fn new(repository: GitRepository, inventory_path: &str, socket_path: &str) -> (config:
        DaemonConfig)
        ensures
            config@ == (DaemonConfigView {
                repository: repository@,
                inventory_path: inventory_path@,
                socket_path: socket_path@,
                minimum_cleanup_age_seconds: DEFAULT_CLEANUP_MINIMUM_AGE_SECONDS,
            }),
    {
        DaemonConfig {
            repository,
            inventory_path: inventory_path.to_owned(),
            socket_path: socket_path.to_owned(),
            minimum_cleanup_age_seconds: DEFAULT_CLEANUP_MINIMUM_AGE_SECONDS,
        }
    }

    /// Refuses settings with which no daemon can work.
    pub fn validate(&self) -> (result: Result<(), DaemonError>)
        ensures
            match result {
                Ok(()) => self@.minimum_cleanup_age_seconds >= 0,
                Err(error) => self@.minimum_cleanup_age_seconds < 0 && error@ == protocol(
                    "minimum cleanup age cannot be negative"@,
                ),
            },
    {
        if self.minimum_cleanup_age_seconds < 0 {
            return Err(protocol_error("minimum cleanup age cannot be negative"));
        }
        Ok(())
    }
}

} // verus!

//! Operations on a repository and its worktrees.

pub mod assess;
pub mod cleanup;
pub mod commands;
pub mod create;
pub mod error;
pub mod failures;
pub mod judgement;
pub mod lasting;
pub mod laws;
pub mod lock;
pub mod printed;
pub mod recovery;
pub mod opening;
pub mod remove;
pub mod reuse;
pub mod rules;
pub mod ruling;
pub mod scanning;
pub mod sessions;
pub mod state;
pub mod steps;
pub mod told;
pub mod types;
pub mod untouched;
pub mod visits;

pub use error::ServiceError;
pub use rules::DEFAULT_CLEANUP_MINIMUM_AGE_SECONDS;
pub use state::RepositoryService;
pub use types::CleanupCandidate;
pub use types::CreateRequest;
pub use types::CreateResult;
pub use types::HeartbeatResult;
pub use types::LeaseResult;
pub use types::LockResult;
pub use types::RegisterSessionRequest;
pub use types::RemoveResult;
pub use types::SessionResult;

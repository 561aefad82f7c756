//! Inspecting Git worktrees and managing their life cycle.
//!
//! The library holds every decision the `wtm` program makes: it parses what
//! Git and `lsof` print, keeps the inventory of worktrees, sessions and leases,
//! decides which worktree may be removed, and speaks the daemon protocol. Files,
//! sockets and processes stay with the program around it, which hands the
//! library plain values and performs the actions that the library returns.

pub mod bytes;
pub mod cli;
pub mod daemon;
pub mod git;
pub mod inventory;
pub mod json;
pub mod model;
pub mod numbers;
pub mod numeral;
pub mod occupants;
pub mod order;
pub mod paths;
pub mod places;
pub mod process;
pub mod resolution;
pub mod sentences;
pub mod service;
pub mod text;
pub mod wording;

pub use daemon::DaemonClient;
pub use daemon::DaemonConfig;
pub use daemon::DaemonError;
pub use git::GitError;
pub use git::GitRepository;
pub use git::GitWorktree;
pub use git::GitWorktreeStatus;
pub use inventory::Inventory;
pub use inventory::InventoryError;
pub use service::HeartbeatResult;
pub use service::LeaseResult;
pub use service::RegisterSessionRequest;
pub use service::RepositoryService;
pub use service::ServiceError;
pub use service::SessionResult;

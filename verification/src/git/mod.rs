//! Reading what Git knows of a repository and its worktrees.

pub mod answers;
pub mod error;
pub mod finding;
pub mod listing;
pub mod meaning;
pub mod observing;
pub mod porcelain;
pub mod printed;
pub mod reads;
pub mod repository;
pub mod worktree;

pub use error::GitError;
pub use porcelain::parse_status_porcelain;
pub use porcelain::parse_worktree_list_porcelain;
pub use repository::GitRepository;
pub use worktree::GitWorktree;
pub use worktree::GitWorktreeStatus;

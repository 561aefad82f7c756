//! The inventory: repositories, worktrees, sessions, leases, reservations,
//! events and requests, and the rules by which they change.

pub mod again;
pub mod columns;
pub mod events;
pub mod laws;
pub mod migration;
pub mod promises;
pub mod records;
pub mod requests;
pub mod reservations;
pub mod sessions;
pub mod state;
pub mod table;
pub mod worktrees;

pub use records::EventInput;
pub use records::EventMetadata;
pub use records::EventRecord;
pub use records::InventoryError;
pub use records::LeaseRecord;
pub use records::RepositoryRecord;
pub use records::RequestRecord;
pub use records::ReservationRecord;
pub use records::SessionInput;
pub use records::SessionLeaseResult;
pub use records::SessionRecord;
pub use records::WorktreeRecord;
pub use state::Inventory;

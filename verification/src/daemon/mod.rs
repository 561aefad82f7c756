//! The daemon: the protocol it speaks with its clients, and what it decides on
//! requests, sockets and locks.

pub mod client;
pub mod command;
pub mod conduct;
pub mod config;
pub mod decoded;
pub mod distinct;
pub mod error;
pub mod execute;
pub mod fingerprint;
pub mod journal;
pub mod lines;
pub mod printed;
pub mod protocol;
pub mod replies;
pub mod sockets;

pub use client::DaemonClient;
pub use config::DaemonConfig;
pub use error::DaemonError;
pub use protocol::is_retryable;
pub use sockets::clean_stale_socket;

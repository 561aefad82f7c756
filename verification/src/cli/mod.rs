//! The commands of the program: what their arguments ask for, and how results are
//! shown.

pub mod arguments;
pub mod asked;
pub mod below;
pub mod calendar;
pub mod calls;
pub mod dispatch;
pub mod error;
pub mod figures;
pub mod laws;
pub mod options;
pub mod page;
pub mod relative;
pub mod requests;
pub mod results;
pub mod shown;
pub mod startup;
pub mod status;
pub mod usage;

pub use error::CliError;
pub use figures::format_bytes;

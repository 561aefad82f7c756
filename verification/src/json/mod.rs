//! The JSON subset that the program prints and the daemon protocol speaks:
//! integers only, objects as ordered lists of fields.

pub mod fields;
pub mod inside;
pub mod laws;
pub mod parser;
pub mod plain;
pub mod value;
pub mod writer;

pub use parser::parse;
pub use parser::ParseError;
pub use value::Value;
pub use writer::array;
pub use writer::optional_bool;
pub use writer::optional_number;
pub use writer::optional_string;
pub use writer::string;
pub use writer::Object;

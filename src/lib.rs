//! An interactive shell over a single in-memory table of fixed-width records.
//!
//! Lines are classified as meta commands or statements, `insert` statements
//! are parsed into records, and the table keeps every record in the order it
//! was appended.

pub mod command;
pub mod insert;
pub mod record;
pub mod shell;

//! Resolves operating-system identifier strings (vendor release tags, build
//! descriptions from inventory tools) into canonical, fully-qualified names:
//! vendor, product line, release label, editions, and service channel.
//!
//! An input is first classified as a structured label (positional tokens
//! separated only by `-`) or a free-text label, and then offered to each
//! supported product family in a fixed precedence order; the first
//! recognizer that accepts it produces the canonical record.

pub mod build_index;
pub mod errors;
pub mod label;
pub mod laws;
pub mod parser;
pub mod text;
pub mod util;
pub mod windows;

pub use errors::ParseError;
pub use parser::OS;
pub use parser::OsError;
pub use windows::Windows;

//! Validation of CSV byte streams against the RFC 4180 dialect.
//!
//! The library audits line terminators, tokenizes records with the `csv`
//! crate, checks field counts against the header, and classifies every
//! deviation into a fixed taxonomy of error kinds.

pub mod delimiter;
pub mod error;
pub mod laws;
pub mod line_endings;
pub mod reader;
pub mod text;
pub mod validate;

pub use validate::{validate, ValidationResult};
pub use delimiter::parse_delimiter;
pub use error::{CsvError, CsvErrorKind};
pub use line_endings::validate_line_endings;

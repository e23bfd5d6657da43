//! Extraction of embedded query-language string literals from Rust source
//! text.
//!
//! The engine locates call sites that match a configurable rule set, takes
//! the string literal standing at the configured argument position, strips
//! its delimiters, and reports the literal's content together with a source
//! range that covers the content only.

pub mod demo;
pub mod extract;
pub mod json;
pub mod laws;
pub mod matcher;
pub mod normalize;
pub mod parser;
pub mod results;
pub mod rules;
pub mod tokens;

pub use extract::{extract, extract_sql_list, extract_with_default_rules};
pub use results::{ExtractedLiteral, SourcePosition, SourceRange};
pub use rules::{CallSiteKind, ExtractionRule};

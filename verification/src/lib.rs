//! Evaluation core of an HTTP-based test runner.
//!
//! Given a parsed test script (entries with captures and assertions) and the
//! HTTP exchanges that resulted from running it, this crate parses the small
//! query grammars used inside assertions and filters, evaluates queries,
//! filter chains and predicates against response data to decide pass or fail,
//! and renders a deterministic structured record of the whole run.

pub mod asserts;
pub mod combinators;
pub mod datetime;
pub mod error;
pub mod expr;
pub mod filter;
pub mod http;
pub mod json;
pub mod num;
pub mod predicate;
pub mod primitives;
pub mod reader;
pub mod report;
pub mod template;
pub mod value;
pub mod xpath;

pub use error::Pos;
pub use error::SourceInfo;

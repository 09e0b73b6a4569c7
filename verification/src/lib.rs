//! Caching in front of a regular-expression compiler: a bounded
//! least-recently-used cache keyed by pattern source, and a lazily compiled
//! pattern that keeps one compiled copy per thread.

pub mod error;
pub mod options;
pub mod engine;
pub mod store;
pub mod cache;
pub mod lazy;
pub mod laws;

pub use crate::cache::RegexCache;
pub use crate::error::Error;
pub use crate::lazy::{LazyRegex, LazyRegexBuilder};
pub use crate::options::CompileOptions;

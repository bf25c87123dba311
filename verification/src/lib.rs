//! An in-memory question-and-answer store.
//!
//! The library holds the registry of questions and answers, the validation
//! of query parameters into a pagination range, the operations that read and
//! mutate the registry, and the classification of every failure into a fixed
//! set of error kinds. The HTTP adapter around it only decodes requests into
//! plain values, calls one operation, and serializes the result.

pub mod errors;
pub mod kvmap;
pub mod laws;
pub mod ops;
pub mod pagination;
pub mod params;
pub mod parse;
pub mod store;
pub mod token;
pub mod types;


//! A small verified library of core language-feature demonstrations:
//! borrowing, iterator-style pipelines, pattern matching over a closed
//! tagged union, optional lookup, aggregate statistics over product
//! records, and a Fibonacci generator.

pub mod decimal;
pub mod errors;
pub mod iterators;
pub mod ownership;
pub mod patterns;
pub mod tasks;

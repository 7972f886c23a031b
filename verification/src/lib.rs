//! A verified model of the data exchanged with the in-app WAF: typed objects,
//! their equality, cloning and debug rendering, map lookups, and the decoding of
//! evaluation results.
pub mod context;
pub mod object;
pub mod raw;
pub mod text;

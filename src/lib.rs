//! Composable request filters: each filter reads a request and either extracts a
//! tuple of values or rejects it, and filters combine into larger ones whose
//! outcome is stated, and proved, from the outcomes of their parts.

pub mod filter;
pub mod filters;
pub mod generic;
pub mod laws;
pub mod poll;
pub mod reject;
pub mod route;

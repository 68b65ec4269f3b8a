//! Search engine over star-system records: a closed set of criteria, an
//! evaluator for one record and one criterion, and a filter that keeps the
//! records meeting every criterion, ordered by name.
pub mod cli;
pub mod distance;
pub mod domain;
pub mod edsm;
pub mod filter;
pub mod order;

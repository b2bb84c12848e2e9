//! Core of a cryptocurrency news aggregator: lenient per-item RSS field
//! extraction, timestamp normalization, a stable merge-sort by recency, an
//! atomically replaceable article cache, read-time keyword filtering, and the
//! decisions of the fixed-interval refresh scheduler.
//!
//! Network retrieval, the web surface and template rendering live outside
//! this crate; they hand feed bodies in and take article lists out.

pub mod aggregate;
pub mod article;
pub mod cache;
pub mod clock;
pub mod extract;
pub mod parse;
pub mod query;
pub mod refresh;
pub mod text;

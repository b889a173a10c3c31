//! Analytics ingestion core: base62 identifiers, the aggregation buffers
//! (counter rollup and whole records), the hashed fixed-window rate limiter,
//! the fixed-delay job timer and the decisions taken by the ingestion, query
//! and authorization endpoints.

pub mod base62;
pub mod maps;
pub mod analytics;
pub mod text;
pub mod ratelimit;
pub mod error;
pub mod ingest;
pub mod auth;
pub mod guards;
pub mod query;
pub mod scheduler;

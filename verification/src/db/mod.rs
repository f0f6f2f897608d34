//! Query caching, rewriting, timing and plan analysis.
pub mod index_advisor;
pub mod query_analyzer;
pub mod query_cache;
pub mod query_optimizer;
pub mod slow_query_logger;

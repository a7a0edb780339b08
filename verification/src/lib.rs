//! Ingestion and aggregation pipeline for fantasy-football player data.
//!
//! The library covers the computational core of the pipeline: extraction of
//! ranking rows from rendered ranking tables, deduplication of players across
//! scoring conventions, parsing of biographical detail pages, extraction and
//! max-merging of per-category statistics tables, the fixed scoring formula,
//! and the atomic refresh that republishes a run's results. Network fetching
//! and page rendering live outside the library; every function here works on
//! the fetched page text and plain values.

pub mod num;
pub mod players;
pub mod text;
pub mod stats;
pub mod schema;
pub mod htmlq;
pub mod dedup;
pub mod rankings;
pub mod stats_extract;
pub mod bio;
pub mod store;
pub mod pipeline;

//! Persistence and query layer for a locally mirrored prediction-market data
//! set: a verified codec between domain records and flat relational rows, an
//! idempotent schema manager, a bulk ingestion pipeline with chunked
//! transactions, and a query builder with clamped pagination, all backed by a
//! pooled embedded SQLite store.

pub mod bet_table;
pub mod cells;
pub mod db_common;
pub mod data_types;
pub mod errors;
pub mod market_table;
pub mod obj_codec;
pub mod queries;
pub mod query_model;
pub mod text_codec;
pub mod user_table;

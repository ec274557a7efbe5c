//! Verified core of a database extension that delegates parts of SQL query
//! execution to an embedded analytical engine: a bounded LRU session cache,
//! a columnar-to-row type-conversion layer, a push-down eligibility
//! classifier, the push-down executor state machine, and the per-format
//! statement builders for engine-backed external tables.

pub mod cache;
pub mod cell;
pub mod classify;
pub mod column;
pub mod convert;
pub mod csv;
pub mod decimal;
pub mod delta;
pub mod iceberg;
pub mod json;
pub mod options;
pub mod parquet;
pub mod pushdown;
pub mod secret;
pub mod spatial;
pub mod sqlparse;
pub mod temporal;
pub mod text;
pub mod time_bucket;

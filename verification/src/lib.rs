//! Capture pipeline of a webhook ingestion gateway: the request-path rules,
//! the models of the shared key-value store's atomic scripts, the decisions of
//! the control-plane and column-store clients, and the decisions of the
//! background workers, each with a contract that Verus proves.

pub mod auth;
pub mod buffer;
pub mod cache_invalidate;
pub mod cache_warmer;
pub mod capture;
pub mod circuit_breaker;
pub mod column_store;
pub mod config;
pub mod control_plane;
pub mod dedup;
pub mod digest;
pub mod endpoint_cache;
pub mod flush;
pub mod json;
pub mod kv;
pub mod quota;
pub mod retention;
pub mod rows;
pub mod search;
pub mod slug;
pub mod sql;
pub mod string_map;
pub mod text;
pub mod timestamp;
pub mod types;

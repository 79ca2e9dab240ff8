//! A client library core for the Firebird SQL database: the session and
//! resource-lifecycle engine that sits above a pluggable wire/native driver
//! and below a user-facing query API.

pub mod error;
pub mod ops;
pub mod params;
pub mod value;
pub mod codec;
pub mod lru;
pub mod stmt_cache;
pub mod raw_handles;
pub mod mock_client;
pub mod wrappers;
pub mod pool;

//! Byte-keyed storage backends with a staging cache and deferred batch commits.
//!
//! Every backend answers `get`, `put`, `delete`, `init_batch` and `finish_batch`. A
//! staging cache in front of the engine gives read-your-own-writes inside an open batch,
//! and tombstones keep deleted keys absent until the batch is committed.

pub mod bytes;
pub mod model;
pub mod cache;
pub mod laws;
pub mod error;
pub mod database;
pub mod memory;
pub mod sled_db;
pub mod sql;
pub mod staging;
pub mod postgres_db;

pub use database::Database;
pub use error::Errors;
pub use memory::MemoryDB;
pub use postgres_db::Postgres;
pub use sled_db::Sled;
pub use staging::{Lookup, Staging};

//! A data-access layer between application code and a relational store.
//!
//! The stores in this crate never touch a connection themselves. Each
//! operation is a small state machine: it reads or writes the shared cache,
//! and either finishes or names the one statement the caller has to run
//! against the database before the operation can go on. Every step carries a
//! contract, so what an operation returns and what it leaves in the cache is
//! known for every answer the database can give.
pub mod db;
pub mod json;
pub mod laws;
pub mod text;
pub mod utility;

pub use db::cachedb::CacheDB;
pub use db::db::{DefaultReturn, StarterDatabase};
pub use db::special::auth_db::AuthDatabase;
pub use db::special::log_db::LogDatabase;
pub use db::special::notification_db::NotificationDatabase;
pub use db::sql::DatabaseOpts;

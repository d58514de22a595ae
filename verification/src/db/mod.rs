//! The shared base of the stores, and the stores built on it.
pub mod cachedb;
pub mod db;
pub mod special;
pub mod sql;

//! The stores: the log, the users and their role levels, and the
//! notifications.
pub mod auth_db;
pub mod log_db;
pub mod notification_db;

//! What holds of the stores, proved from the contracts of their steps.
pub mod auth;
pub mod cache;
pub mod log;
pub mod notification;

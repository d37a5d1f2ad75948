//! The server: configuration, error reporting, the user store.

pub mod app_error;
pub mod config;
pub mod db;
pub mod model;
pub mod redis;
pub mod router;

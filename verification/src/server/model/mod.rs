//! The user store and the records it holds.

pub mod db;
pub mod kv;
pub mod record;
pub mod repositories;
pub mod user;

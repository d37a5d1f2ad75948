//! Stores of the server's records.

pub mod user_repository;

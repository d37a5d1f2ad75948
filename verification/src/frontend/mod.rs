//! The browser client: its requests and the state of its components.

pub mod components;
pub mod fetch;

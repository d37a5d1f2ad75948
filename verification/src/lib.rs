//! A chat and scheduling service: its shared request types, the server's
//! configuration, error reporting and user store, and the browser client's
//! state and request building, with their contracts proved by Verus.

pub mod frontend;
pub mod server;
pub mod shared;
pub mod text;

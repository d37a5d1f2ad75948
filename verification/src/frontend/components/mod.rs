//! The client's components: their properties and state.

pub mod chat;
pub mod home;
pub mod login;
pub mod simcalendar;
pub mod websocket_provider;

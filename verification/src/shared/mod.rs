//! Types that the server and the browser client both use.

pub mod requests;
pub mod sessionconfig;
pub mod shared_error;

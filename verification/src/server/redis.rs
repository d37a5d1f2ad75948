//! What the server needs to open Redis clients.

use vstd::prelude::*;
use crate::server::config::RedisConfig;

verus! {

/// Opens Redis clients for one server address.
pub struct RedisClientFactory {
    pub redis_uri: String,
}

impl RedisClientFactory {
    /// A factory for the server that the configuration names.
    pub fn new(config: &RedisConfig) -> (f: Self)
        ensures
            f.redis_uri@ == config.uri@,
    {
        RedisClientFactory { redis_uri: config.uri.clone() }
    }
}

} // verus!

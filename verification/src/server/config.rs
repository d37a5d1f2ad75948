//! The server's configuration and the checks it must pass.

use vstd::prelude::*;

verus! {

#[verifier::external_type_specification]
#[verifier::external_body]
pub struct ExPathBuf(std::path::PathBuf);

/// The number of pooled HTTP connections per host when the configuration
/// names none.
pub fn default_max_clients_count() -> (n: usize)
    ensures
        n == 16,
{
    16
}

/// The root directory when the configuration names none.
pub fn default_root() -> (s: String)
    ensures
        s@ == "/"@,
{
    proof {
        reveal_strlit("/");
    }
    String::from_str("/")
}

/// A path on disk.
pub struct ConfigPath {
    pub path: std::path::PathBuf,
}

/// Where the Redis server is.
#[derive(Debug, Clone)]
pub struct RedisConfig {
    pub uri: String,
}

/// A directory served under a URL prefix.
#[derive(Debug, Clone)]
pub struct Mapping {
    pub path: String,
    pub target: String,
}

/// The HTTP side of the server.
#[derive(Debug, Clone)]
pub struct Http {
    pub port: u16,
    pub static_www: Option<String>,
    pub max_clients_count: usize,
    pub mappings: Option<Vec<Mapping>>,
}

/// The whole configuration.
#[derive(Debug, Clone)]
pub struct Config {
    pub root: String,
    pub http: Http,
    pub redis: RedisConfig,
}

/// Why a configuration is refused.
#[derive(Debug)]
pub enum ConfigError {
    /// `max_clients_count` is 1000 or more.
    MaxClientsTooLarge,
}

impl ConfigError {
    /// The error's text.
    pub fn message(&self) -> (s: String)
        ensures
            s@ == "Max clients count must be less than 1000"@,
    {
        proof {
            reveal_strlit("Max clients count must be less than 1000");
        }
        match self {
            ConfigError::MaxClientsTooLarge => String::from_str(
                "Max clients count must be less than 1000",
            ),
        }
    }
}

impl Mapping {
    /// The text that describes the mapping in the log.
    pub open spec fn display(self) -> Seq<char> {
        " [path: "@ + self.path@ + ", target: "@ + self.target@ + "]"@
    }

    /// Writes the mapping as it is logged: ` [path: P, target: T]`.
    pub fn to_display_string(&self) -> (s: String)
        ensures
            s@ == self.display(),
            s@ == " [path: "@ + self.path@ + ", target: "@ + self.target@ + "]"@,
    {
        proof {
            reveal_strlit(" [path: ");
            reveal_strlit(", target: ");
            reveal_strlit("]");
        }
        let mut s = String::from_str(" [path: ");
        s.append(self.path.as_str());
        s.append(", target: ");
        s.append(self.target.as_str());
        s.append("]");
        s
    }
}

impl Config {
    /// Accepts the configuration as it is when it asks for fewer than 1000
    /// pooled connections per host, and refuses it otherwise.
    pub fn sanitize(self) -> (r: Result<Self, ConfigError>)
        ensures
            r is Ok <==> self.http.max_clients_count < 1000,
            r matches Ok(c) ==> c == self,
            r matches Err(e) ==> e == ConfigError::MaxClientsTooLarge,
    {
        if self.http.max_clients_count >= 1000 {
            return Err(ConfigError::MaxClientsTooLarge);
        }
        Ok(self)
    }
}

} // verus!

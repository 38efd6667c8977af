//! Application configuration and the value the composition root starts
//! from. The runtime plumbing that reads flags and serves HTTP lives
//! outside the library; it hands a [`Config`] in and reads it back out.

use vstd::prelude::*;
use vstd::string::StringExecFns;

verus! {

/// Where the API server listens.
pub struct Config {
    /// API server host.
    pub host: String,
    /// API server port.
    pub port: u16,
}

impl Default for Config {
    /// The default listen address: local host, port 8080.
    fn default() -> (r: Self)
        ensures
            r.host@ == "127.0.0.1"@,
            r.port == 8080,
    {
        Config { host: String::from_str("127.0.0.1"), port: 8080 }
    }
}

impl Clone for Config {
    /// An equal copy of the configuration.
    fn clone(&self) -> (r: Self)
        ensures
            r.host@ == self.host@,
            r.port == self.port,
    {
        Config { host: self.host.clone(), port: self.port }
    }
}

/// The application: it carries the configuration the actors are launched
/// with.
pub struct Application {
    /// The configuration the application runs with.
    pub config: Config,
}

impl Application {
    /// Wraps a configuration into an application ready to run.
    pub fn new(config: Config) -> (r: Self)
        ensures
            r.config == config,
    {
        Application { config }
    }
}

} // verus!

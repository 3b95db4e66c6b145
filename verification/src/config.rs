//! Where the server listens.

use vstd::prelude::*;

verus! {

/// The address that the server binds to.
#[derive(Debug)]
pub struct ServerConfig {
    pub host: String,
    pub port: i32,
}

impl ServerConfig {
    /// The address that the server binds to where nothing else is said:
    /// every interface of the machine, port 4000.
    pub fn everywhere() -> (config: Self)
        ensures
            config.host@ == "0.0.0.0"@,
            config.port == 4000,
    {
        ServerConfig { host: "0.0.0.0".to_string(), port: 4000 }
    }
}

} // verus!

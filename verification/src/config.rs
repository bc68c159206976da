//! The configuration of the service.

use vstd::prelude::*;
use vstd::string::StringExecFns;

verus! {

/// The configuration of the service.
#[derive(Debug)]
pub struct Config {
    /// The port on which the service listens.
    pub application_port: u16,
    /// The secret that every request to the settings has to carry.
    pub api_key: String,
}

/// The port on which the service listens where none is configured.
pub fn default_application_port() -> (port: u16)
    ensures
        port == 18100,
{
    18100
}

/// The API key where none is configured.
pub fn default_api_key() -> (api_key: String)
    ensures
        api_key@ == "api-key"@,
{
    String::from_str("api-key")
}

impl Config {
    /// The configuration with the port and the key that were configured,
    /// and with the default in place of what was not.
    pub fn new(application_port: Option<u16>, api_key: Option<String>) -> (config: Config)
        ensures
            config.application_port == match application_port {
                Some(port) => port,
                None => 18100u16,
            },
            config.api_key@ == match api_key {
                Some(key) => key@,
                None => "api-key"@,
            },
    {
        Config {
            application_port: match application_port {
                Some(port) => port,
                None => default_application_port(),
            },
            api_key: match api_key {
                Some(key) => key,
                None => default_api_key(),
            },
        }
    }
}

} // verus!

//! Configuration of the service.

use vstd::prelude::*;

verus! {

/// The host part of a socket address, as plain numbers.
#[derive(Clone, Copy, Debug, PartialEq, Eq)]
pub enum IpHost {
    /// An IPv4 address, by its four bytes.
    V4 { octets: [u8; 4] },
    /// An IPv6 address, by its eight 16-bit segments, and its scope.
    V6 { segments: [u16; 8], scope_id: u32 },
}

/// The socket address on which the service listens.
#[derive(Clone, Copy, Debug, PartialEq, Eq)]
pub struct ListenerAddr {
    pub host: IpHost,
    pub port: u16,
}

/// Why a configuration is refused.
#[derive(Clone, Copy, Debug, PartialEq, Eq, Structural)]
pub enum ConfigError {
    /// The API key is the empty string, which would let every request in
    /// that presents an empty key.
    EmptyApiKey,
}

/// App configuration: the API key that clients present and the address to
/// listen on. A configuration made by `Config::new` has a key that is not
/// empty.
#[derive(Debug)]
pub struct Config {
    pub apikey: String,
    pub listener_addr: ListenerAddr,
}

impl Config {
    /// Whether the configuration is one that the service starts with.
    pub open spec fn wf(&self) -> bool {
        self.apikey@.len() > 0
    }

    /// Makes a configuration of the two settings, and refuses an empty key.
    pub fn new(apikey: String, listener_addr: ListenerAddr) -> (made: Result<Config, ConfigError>)
        ensures
            apikey@.len() == 0 <==> made == Err::<Config, ConfigError>(ConfigError::EmptyApiKey),
            made matches Ok(config) ==> config.wf() && config.apikey == apikey
                && config.listener_addr == listener_addr,
    {
        if apikey.as_str().is_empty() {
            Err(ConfigError::EmptyApiKey)
        } else {
            Ok(Config { apikey, listener_addr })
        }
    }
}

} // verus!

//! The configuration of the relay, made once at start-up from the values
//! that the environment gives.

use crate::text::{parse_unsigned, unsigned_of};
use vstd::prelude::*;

verus! {

/// The port of the health listener where none is configured.
pub const DEFAULT_PORT: u16 = 8080;

/// The configuration of the relay.
#[derive(Clone, Debug, PartialEq, Eq)]
pub struct Config {
    /// The credential that authenticates the command listener.
    pub credential: String,
    /// The address that queries are posted to.
    pub backend_url: String,
    /// The port of the health listener.
    pub port: u16,
}

/// Mathematical model of a [`Config`].
pub struct ConfigView {
    pub credential: Seq<char>,
    pub backend_url: Seq<char>,
    pub port: u16,
}

impl View for Config {
    type V = ConfigView;

    open spec fn view(&self) -> ConfigView {
        ConfigView {
            credential: self.credential@,
            backend_url: self.backend_url@,
            port: self.port,
        }
    }
}

/// Why there is no configuration.
#[derive(Clone, Copy, Debug, PartialEq, Eq, Structural)]
pub enum ConfigError {
    /// No credential for the chat platform was given.
    MissingCredential,
    /// No address of the query service was given.
    MissingBackendUrl,
    /// The port given is no positive number that a port can be.
    InvalidPort,
}

/// The port that a text names: a decimal number from 1 to 65535, with an
/// optional plus sign before it.
pub open spec fn port_of(text: Seq<char>) -> Option<u16> {
    match unsigned_of(text) {
        Some(n) => if 1 <= n <= 65535 {
            Some(n as u16)
        } else {
            None
        },
        None => None,
    }
}

/// Reads a port number from its text.
pub fn parse_port(text: &str) -> (port: Option<u16>)
    ensures
        port == port_of(text@),
{
    match parse_unsigned(text, 65535) {
        Some(n) => if n >= 1 {
            Some(n as u16)
        } else {
            None
        },
        None => None,
    }
}

/// The configuration that the given values make, or the first thing wrong
/// with them: the credential is looked at first, then the address, then the
/// port. An absent port means the default.
pub open spec fn configured(
    credential: Option<Seq<char>>,
    backend_url: Option<Seq<char>>,
    port: Option<Seq<char>>,
) -> Result<ConfigView, ConfigError> {
    match (credential, backend_url, port) {
        (None, _, _) => Err(ConfigError::MissingCredential),
        (Some(_), None, _) => Err(ConfigError::MissingBackendUrl),
        (Some(c), Some(u), None) => Ok(
            ConfigView { credential: c, backend_url: u, port: DEFAULT_PORT },
        ),
        (Some(c), Some(u), Some(text)) => match port_of(text) {
            Some(p) => Ok(ConfigView { credential: c, backend_url: u, port: p }),
            None => Err(ConfigError::InvalidPort),
        },
    }
}

/// Mathematical model of the result of making a configuration.
pub open spec fn config_result_view(r: Result<Config, ConfigError>) -> Result<
    ConfigView,
    ConfigError,
> {
    match r {
        Ok(config) => Ok(config@),
        Err(e) => Err(e),
    }
}

impl Config {
    /// Makes the configuration from the values as they were found, each
    /// `None` where the environment holds none.
    pub fn from_values(
        credential: Option<String>,
        backend_url: Option<String>,
        port: Option<String>,
    ) -> (r: Result<Config, ConfigError>)
        ensures
            config_result_view(r) == configured(
                credential.deep_view(),
                backend_url.deep_view(),
                port.deep_view(),
            ),
    {
        let credential: String = match credential {
            Some(c) => c,
            None => {
                return Err(ConfigError::MissingCredential);
            },
        };
        let backend_url: String = match backend_url {
            Some(u) => u,
            None => {
                return Err(ConfigError::MissingBackendUrl);
            },
        };
        let port: u16 = match port {
            Some(text) => match parse_port(text.as_str()) {
                Some(p) => p,
                None => {
                    return Err(ConfigError::InvalidPort);
                },
            },
            None => DEFAULT_PORT,
        };
        Ok(Config { credential, backend_url, port })
    }
}

} // verus!

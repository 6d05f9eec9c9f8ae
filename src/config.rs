use vstd::prelude::*;

verus! {

/// The port the service listens on when the configuration names none.
pub const DEFAULT_PORT: u16 = 6064;

/// The service's configuration, read once at start and never changed.
pub struct Config {
    pub backtrace: Option<BacktraceConfig>,
    pub gotify: Gotify,
    pub port: Option<u16>,
}

/// Where crash reports go, if anywhere.
pub struct BacktraceConfig {
    pub token: String,
    pub url: String,
}

/// The notification gateway and its access token.
pub struct Gotify {
    pub uri: String,
    pub token: String,
}

impl Config {
    /// The configured port, or the default one.
    pub fn listen_port(&self) -> (r: u16)
        ensures
            r == match self.port {
                Some(p) => p,
                None => DEFAULT_PORT,
            },
    {
        match self.port {
            Some(p) => p,
            None => DEFAULT_PORT,
        }
    }
}

} // verus!

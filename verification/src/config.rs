//! The two addresses that every connection is bridged between.

use vstd::prelude::*;

verus! {

/// Where clients are listened for and where the SOCKS5 proxy is reached.
///
/// Built once at startup and only read afterwards.
#[derive(Debug, PartialEq, Eq)]
pub struct Config {
    /// The address on which `CONNECT` requests are accepted.
    pub listen_address: String,
    /// The address of the upstream SOCKS5 proxy.
    pub upstream_socks5_address: String,
}

/// A [`Config`] as a mathematical value.
pub struct ConfigView {
    pub listen_address: Seq<char>,
    pub upstream_socks5_address: Seq<char>,
}

impl View for Config {
    type V = ConfigView;

    open spec fn view(&self) -> ConfigView {
        ConfigView {
            listen_address: self.listen_address@,
            upstream_socks5_address: self.upstream_socks5_address@,
        }
    }
}

impl Config {
    /// Puts the two addresses together.
    pub fn new(listen_address: String, upstream_socks5_address: String) -> (config: Config)
        ensures
            config@.listen_address == listen_address@,
            config@.upstream_socks5_address == upstream_socks5_address@,
    {
        Config { listen_address, upstream_socks5_address }
    }
}

} // verus!

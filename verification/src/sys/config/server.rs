//! Where the server listens.

use crate::sys::env::loader::{get_or_default, get_parsed_or_default, parsed_or, value_or};
use crate::sys::env::models::Environment;
use crate::text::{decimal, to_decimal};
use vstd::prelude::*;
use vstd::string::*;

verus! {

/// The address that the server binds to.
#[derive(Debug)]
pub struct ServerConfig {
    pub host: String,
    pub port: u16,
}

/// A [`ServerConfig`] with its host as a sequence of characters.
pub struct ServerConfigView {
    pub host: Seq<char>,
    pub port: u16,
}

impl ServerConfigView {
    /// What the variables `SERVER_HOST` and `SERVER_PORT` of `vars` configure: every
    /// interface and port 3000 where they say nothing that can be used.
    pub open spec fn from_env(vars: Seq<(Seq<char>, Seq<char>)>) -> ServerConfigView {
        ServerConfigView {
            host: value_or(vars, "SERVER_HOST"@, "0.0.0.0"@),
            port: parsed_or::<u16>(vars, "SERVER_PORT"@, 3000u16),
        }
    }

    /// Host and port with a colon between them.
    pub open spec fn address(self) -> Seq<char> {
        self.host + ":"@ + decimal(self.port as nat)
    }
}

impl View for ServerConfig {
    type V = ServerConfigView;

    open spec fn view(&self) -> ServerConfigView {
        ServerConfigView { host: self.host@, port: self.port }
    }
}

impl Clone for ServerConfig {
    fn clone(&self) -> (copy: ServerConfig)
        ensures
            copy@ == self@,
    {
        ServerConfig { host: self.host.clone(), port: self.port }
    }
}

impl ServerConfig {
    /// The configuration that the environment gives.
    pub fn from_env(env: &Environment) -> (config: ServerConfig)
        ensures
            config@ == ServerConfigView::from_env(env@),
    {
        let host = get_or_default(env, "SERVER_HOST", "0.0.0.0");
        let port: u16 = get_parsed_or_default(env, "SERVER_PORT", 3000);
        ServerConfig { host, port }
    }

    /// The address to bind to, as `host:port`.
    pub fn address(&self) -> (address: String)
        ensures
            address@ == self@.address(),
    {
        let mut address = self.host.clone();
        address.append(":");
        let port = to_decimal(self.port as u128);
        address.append(port.as_str());
        address
    }
}

} // verus!

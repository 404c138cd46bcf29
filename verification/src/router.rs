//! The router's configuration: where it listens, the two upstream buses,
//! and the routing rules every session is given.

use vstd::prelude::*;
use crate::config::Config;

verus! {

/// The main router that listens for client connections.
pub struct Router {
    /// Path to the Unix socket to listen on.
    listen_path: String,
    /// Host session bus address.
    host_addr: String,
    /// Sandbox session bus address (default target).
    sandbox_addr: String,
    /// Routing configuration.
    config: Config,
}

impl Router {
    /// Create a new router.
    pub fn new(listen_path: String, host_addr: String, sandbox_addr: String, config: Config) -> (r: Router)
        ensures
            r.listen_path() == listen_path,
            r.host_addr() == host_addr,
            r.sandbox_addr() == sandbox_addr,
            r.config() == config,
    {
        Router { listen_path, host_addr, sandbox_addr, config }
    }

    pub closed spec fn listen_path(&self) -> String {
        self.listen_path
    }

    pub closed spec fn host_addr(&self) -> String {
        self.host_addr
    }

    pub closed spec fn sandbox_addr(&self) -> String {
        self.sandbox_addr
    }

    pub closed spec fn config(&self) -> Config {
        self.config
    }

    /// Path of the socket the router listens on.
    pub fn listen_path_str(&self) -> (r: &str)
        ensures
            r@ == self.listen_path()@,
    {
        self.listen_path.as_str()
    }

    /// Address of the host bus.
    pub fn host_addr_str(&self) -> (r: &str)
        ensures
            r@ == self.host_addr()@,
    {
        self.host_addr.as_str()
    }

    /// Address of the sandbox bus.
    pub fn sandbox_addr_str(&self) -> (r: &str)
        ensures
            r@ == self.sandbox_addr()@,
    {
        self.sandbox_addr.as_str()
    }

    /// The routing configuration every session of this router is given.
    pub fn config_ref(&self) -> (r: &Config)
        ensures
            *r == self.config(),
    {
        &self.config
    }
}

} // verus!

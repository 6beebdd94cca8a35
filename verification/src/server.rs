//! Settings of the HTTP server and of the plugin loader.
use vstd::prelude::*;
use crate::text::{decimal, push_decimal};

verus! {

/// Where the HTTP server listens.
pub struct ServerConfig {
    addr: String,
    port: u16,
}

impl ServerConfig {
    pub closed spec fn spec_addr(&self) -> Seq<char> {
        self.addr@
    }

    pub closed spec fn spec_port(&self) -> u16 {
        self.port
    }

    pub fn new(addr: String, port: u16) -> (r: Self)
        ensures
            r.spec_addr() == addr@,
            r.spec_port() == port,
    {
        ServerConfig { addr, port }
    }

    /// `host:port`, the port in decimal.
    pub fn addr(&self) -> (r: String)
        ensures
            r@ == self.spec_addr() + ":"@ + decimal(self.spec_port() as nat),
    {
        let mut out = self.addr.clone();
        out.append(":");
        push_decimal(&mut out, self.port as u64);
        out
    }

    /// The host part.
    pub fn host(&self) -> (r: &str)
        ensures
            r@ == self.spec_addr(),
    {
        self.addr.as_str()
    }

    /// The port.
    pub fn port(&self) -> (r: u16)
        ensures
            r == self.spec_port(),
    {
        self.port
    }
}

/// Where the plugin loader looks for plugins.
pub struct PluginConfig {
    path: String,
}

impl PluginConfig {
    pub closed spec fn spec_path(&self) -> Seq<char> {
        self.path@
    }

    pub fn new(path: String) -> (r: Self)
        ensures
            r.spec_path() == path@,
    {
        PluginConfig { path }
    }

    /// The directory that holds the plugins.
    pub fn path(&self) -> (r: &str)
        ensures
            r@ == self.spec_path(),
    {
        self.path.as_str()
    }
}

/// The key under which a loaded plugin is kept: the plugin's name.
#[derive(Debug)]
pub struct JimoPluginKey(pub String);

impl Clone for JimoPluginKey {
    fn clone(&self) -> (r: Self)
        ensures
            r.0@ == self.0@,
    {
        JimoPluginKey(self.0.clone())
    }
}

} // verus!

//! The settings of one client.

use vstd::prelude::*;

verus! {

/// The port on which a local Tor daemon listens for SOCKS5 connections, used
/// where the settings name no other.
pub fn default_proxy_port() -> (port: u16)
    ensures
        port == 9050,
{
    9050
}

/// The settings of one client: who it is, where the server is, where its keys
/// are kept and through which proxy it connects. They are fixed once they are
/// loaded: nothing in this crate changes them.
#[derive(Clone, Debug, PartialEq, Eq)]
pub struct Config {
    /// Name of this client, as the server will know it.
    pub name: String,
    /// Onion address of the server.
    pub url: String,
    /// Where the secret key is kept.
    pub secret_key_path: String,
    /// Where the public key of the server is kept.
    pub server_public_key_path: String,
    /// Where the client identifier is kept.
    pub id_path: String,
    /// Port of the local SOCKS5 proxy.
    pub proxy_port: u16,
}

/// A [`Config`] with its texts as sequences.
pub ghost struct ConfigView {
    pub name: Seq<char>,
    pub url: Seq<char>,
    pub secret_key_path: Seq<char>,
    pub server_public_key_path: Seq<char>,
    pub id_path: Seq<char>,
    pub proxy_port: u16,
}

impl View for Config {
    type V = ConfigView;

    open spec fn view(&self) -> ConfigView {
        ConfigView {
            name: self.name@,
            url: self.url@,
            secret_key_path: self.secret_key_path@,
            server_public_key_path: self.server_public_key_path@,
            id_path: self.id_path@,
            proxy_port: self.proxy_port,
        }
    }
}

impl Default for Config {
    /// Settings that name nothing: every text is empty and the port is zero.
    fn default() -> (config: Config)
        ensures
            config@ == (ConfigView {
                name: Seq::empty(),
                url: Seq::empty(),
                secret_key_path: Seq::empty(),
                server_public_key_path: Seq::empty(),
                id_path: Seq::empty(),
                proxy_port: 0,
            }),
    {
        Config {
            name: String::new(),
            url: String::new(),
            secret_key_path: String::new(),
            server_public_key_path: String::new(),
            id_path: String::new(),
            proxy_port: 0,
        }
    }
}

impl Config {
    /// The name of this client.
    pub fn name(&self) -> (name: &str)
        ensures
            name@ == self@.name,
    {
        self.name.as_str()
    }

    /// The onion address of the server.
    pub fn url(&self) -> (url: &str)
        ensures
            url@ == self@.url,
    {
        self.url.as_str()
    }

    /// The port of the local SOCKS5 proxy.
    pub fn proxy_port(&self) -> (port: u16)
        ensures
            port == self@.proxy_port,
    {
        self.proxy_port
    }
}

} // verus!

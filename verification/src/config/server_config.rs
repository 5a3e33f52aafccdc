use vstd::prelude::*;
use vstd::string::*;

use crate::text::{decimal, lemma_concat_parts, push_decimal};

verus! {

/// Address on which the HTTP server listens.
pub struct ServerConfig {
    pub host: String,
    pub port: u16,
}

/// `host:port`.
pub open spec fn server_url(host: Seq<char>, port: u16) -> Seq<char> {
    host + ":"@ + decimal(port as nat)
}

impl Default for ServerConfig {
    /// `localhost:8080`.
    fn default() -> (config: Self)
        ensures
            config.host@ == "localhost"@,
            config.port == 8080,
    {
        ServerConfig { host: String::from_str("localhost"), port: 8080 }
    }
}

impl ServerConfig {
    /// The address to bind, as `host:port`.
    pub fn get_url(&self) -> (url: String)
        ensures
            url@ == server_url(self.host@, self.port),
    {
        let mut url = self.host.clone();
        url.append(":");
        push_decimal(&mut url, self.port as u64);
        assert(url@ =~= server_url(self.host@, self.port));
        url
    }
}

/// The bind address starts with the host and ends with `:` and the port.
pub proof fn lemma_server_url_parts(host: Seq<char>, port: u16)
    ensures
        host.is_prefix_of(server_url(host, port)),
        (":"@ + decimal(port as nat)).is_suffix_of(server_url(host, port)),
{
    assert(server_url(host, port) =~= host + (":"@ + decimal(port as nat)));
    lemma_concat_parts(host, ":"@ + decimal(port as nat));
}

} // verus!

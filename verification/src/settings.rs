//! The parts of the configuration that are plain text, and the address the
//! server binds to.

use vstd::prelude::*;

verus! {

/// Where the database is and where its migrations lie.
#[derive(Debug, Clone, PartialEq)]
pub struct Database {
    pub url: String,
    pub migration: String,
}

/// How the web server is reached.
#[derive(Debug, Clone, PartialEq)]
pub struct WebConfig {
    pub host: String,
    pub port: String,
    pub context_path: String,
    pub cookie_key: String,
    pub login_url: String,
}

/// The address the server binds to: `host:port`.
pub fn bind_address(web_config: &WebConfig) -> (address: String)
    ensures
        address@ == web_config.host@ + ":"@ + web_config.port@,
{
    let mut address = web_config.host.clone();
    address.append(":");
    address.append(web_config.port.as_str());
    address
}

} // verus!

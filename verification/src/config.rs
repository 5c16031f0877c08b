//! The fixed startup parameters of the server and the texts derived from
//! them.

use vstd::prelude::*;
use vstd::string::StringExecFns;
use crate::decimal::dec_str;
use crate::decimal::u16_to_decimal;

verus! {

/// The startup parameters: the host and port the listener binds and the
/// local directory that static assets are served from.
pub struct ServerConfig {
    pub host: String,
    pub port: u16,
    pub static_root: String,
}

/// The configuration the site starts with: the loopback host, port 8081,
/// and the `./static` asset directory.
pub fn default_config() -> (c: ServerConfig)
    ensures
        c.host@ == "127.0.0.1"@,
        c.port == 8081,
        c.static_root@ == "./static"@,
{
    ServerConfig {
        host: String::from_str("127.0.0.1"),
        port: 8081,
        static_root: String::from_str("./static"),
    }
}

/// The socket address `host:port` in the textual form the listener binds.
pub open spec fn bind_address_text(host: Seq<char>, port: u16) -> Seq<char> {
    host + ":"@ + dec_str(port as nat)
}

/// Renders the socket address of `c` as `host:port`.
pub fn bind_address(c: &ServerConfig) -> (r: String)
    ensures
        r@ == bind_address_text(c.host@, c.port),
{
    let mut r = c.host.clone();
    r.append(":");
    let port = u16_to_decimal(c.port);
    r.append(port.as_str());
    proof {
        assert(r@ =~= bind_address_text(c.host@, c.port));
    }
    r
}

/// The one informational line announced on standard output at startup.
pub open spec fn startup_message_text(port: u16) -> Seq<char> {
    "Starting Dadgan Law Firm website on http://localhost:"@ + dec_str(port as nat)
}

/// Renders the startup announcement for the port of `c`.
pub fn startup_message(c: &ServerConfig) -> (r: String)
    ensures
        r@ == startup_message_text(c.port),
{
    let mut r = String::from_str("Starting Dadgan Law Firm website on http://localhost:");
    let port = u16_to_decimal(c.port);
    r.append(port.as_str());
    proof {
        assert(r@ =~= startup_message_text(c.port));
    }
    r
}

} // verus!

//! Assembling the transport-security configuration from the three values the
//! environment may supply; the caller reads the environment and performs the
//! handshake.

use vstd::prelude::*;

verus! {

/// The file locations a secured bus connection needs.
#[derive(Debug, Clone)]
pub struct SslOptions {
    pub ca_location: String,
    pub cert_location: String,
    pub key_location: String,
}

/// Combine the three optional locations: all three present yield a
/// configuration; any absent one yields none.
pub fn get_ssl_options(
    ca_location: Option<String>,
    cert_location: Option<String>,
    key_location: Option<String>,
) -> (r: Option<SslOptions>)
    ensures
        match r {
            Some(o) => {
                &&& match ca_location {
                    Some(s) => o.ca_location@ == s@,
                    None => false,
                }
                &&& match cert_location {
                    Some(s) => o.cert_location@ == s@,
                    None => false,
                }
                &&& match key_location {
                    Some(s) => o.key_location@ == s@,
                    None => false,
                }
            },
            None => ca_location is None || cert_location is None || key_location is None,
        },
{
    match (ca_location, cert_location, key_location) {
        (Some(ca), Some(cert), Some(key)) => Some(
            SslOptions { ca_location: ca, cert_location: cert, key_location: key },
        ),
        _ => None,
    }
}

} // verus!

//! Settings of the tunnelled service.

use vstd::prelude::*;

verus! {

/// Default SSH port.
pub const DEFAULT_PORT: u16 = 22;

/// Default size of the payload served by `GET /get/{file_size}`, in bytes.
pub const DEFAULT_MAX_DATA_SIZE: usize = 100_000_000;

/// The service's command-line settings.
#[derive(Clone, Debug)]
pub struct Config {
    /// SSH host to open the tunnel on.
    pub host: String,
    pub port: u16,
    /// Login name on the SSH host.
    pub username: String,
    /// Path of the private key file.
    pub private_key: String,
    /// Size of the random payload; also the largest accepted posted body.
    pub max_data_size: usize,
    /// Expected SHA-256 fingerprint of the server's host key. Without one,
    /// every host key is trusted: a deliberate, documented default.
    pub server_fingerprint: Option<String>,
}

/// The login name used when none is given.
pub fn default_username() -> (r: String)
    ensures
        r@ == "sandhole-benchmark"@,
{
    "sandhole-benchmark".to_owned()
}

impl Config {
    /// Settings for `host` and `private_key` with every other setting at its
    /// default.
    pub fn new(host: String, private_key: String) -> (r: Self)
        ensures
            r.host == host,
            r.private_key == private_key,
            r.port == DEFAULT_PORT,
            r.username@ == "sandhole-benchmark"@,
            r.max_data_size == DEFAULT_MAX_DATA_SIZE,
            r.server_fingerprint is None,
    {
        Config {
            host,
            port: DEFAULT_PORT,
            username: default_username(),
            private_key,
            max_data_size: DEFAULT_MAX_DATA_SIZE,
            server_fingerprint: None,
        }
    }
}

} // verus!

//! What a node is started with.

use vstd::prelude::*;

verus! {

/// The options of the daemon.
#[derive(Clone, Debug, PartialEq, Eq)]
pub struct Opt {
    pub id: u64,
    /// Network address to bind the server to, such as `127.0.0.1:50051`.
    pub addr: String,
    /// Path to the certificate of the certificate authority.
    pub ca_cert: String,
    /// Path to the server certificate.
    pub server_cert: String,
    /// Path to the server's private key.
    pub server_key: String,
    /// Path to the client certificate.
    pub client_cert: String,
    /// Path to the client's private key.
    pub client_key: String,
    /// Directory for the node's data.
    pub data_dir: String,
}

} // verus!

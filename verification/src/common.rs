//! Details carried through a handshake: the connection randoms, what the
//! server presented, and the client-authentication material.

use vstd::prelude::*;
use crate::sign::{CertifiedKey, Signer};
use crate::util;

verus! {

/// The two hello randoms.
pub struct ConnectionRandoms {
    pub client: Vec<u8>,
    pub server: Vec<u8>,
}

impl ConnectionRandoms {
    /// Pair the client and server randoms.
    pub fn new(client: &Vec<u8>, server: &Vec<u8>) -> (r: ConnectionRandoms)
        ensures
            r.client@ == client@,
            r.server@ == server@,
    {
        ConnectionRandoms { client: util::copy_bytes(client), server: util::copy_bytes(server) }
    }
}

/// What the server's Certificate message provided.
pub struct ServerCertDetails {
    pub cert_chain: Vec<Vec<u8>>,
    pub ocsp_response: Vec<u8>,
    pub scts: Option<Vec<Vec<u8>>>,
}

impl ServerCertDetails {
    /// Bundle a received chain with its stapled data.
    pub fn new(cert_chain: Vec<Vec<u8>>, ocsp_response: Vec<u8>, scts: Option<Vec<Vec<u8>>>) -> (r:
        ServerCertDetails)
        ensures
            r.cert_chain == cert_chain,
            r.ocsp_response == ocsp_response,
            r.scts == scts,
    {
        ServerCertDetails { cert_chain, ocsp_response, scts }
    }
}

/// The client-authentication material gathered from a CertificateRequest.
pub struct ClientAuthDetails {
    pub certkey: Option<CertifiedKey>,
    pub signer: Option<Signer>,
    pub auth_context: Option<Vec<u8>>,
}

impl ClientAuthDetails {
    /// No credential chosen yet.
    pub fn new() -> (r: ClientAuthDetails)
        ensures
            r.certkey is None,
            r.signer is None,
            r.auth_context is None,
    {
        ClientAuthDetails { certkey: None, signer: None, auth_context: None }
    }
}

} // verus!

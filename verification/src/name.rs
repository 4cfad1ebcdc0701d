//! The name a client connects to: a DNS name or an IP literal.
//! Only DNS names are sent in the SNI extension.

use vstd::prelude::*;
use crate::util;

verus! {

/// The server name given when a handshake starts.
#[derive(Clone, Debug)]
pub enum ServerName {
    /// A DNS hostname, as its ASCII bytes.
    Dns(Vec<u8>),
    /// An IP address literal, as its textual ASCII bytes.
    Ip(Vec<u8>),
}

impl ServerName {
    /// The raw bytes of the name, whichever kind it is.
    pub open spec fn spec_bytes(&self) -> Seq<u8> {
        match self {
            ServerName::Dns(b) => b@,
            ServerName::Ip(b) => b@,
        }
    }

    /// The SNI payload: only DNS names are ever sent.
    pub open spec fn spec_for_sni(&self) -> Option<Seq<u8>> {
        match self {
            ServerName::Dns(b) => Some(b@),
            ServerName::Ip(_) => None,
        }
    }

    /// The hostname to place in the SNI extension, if any.
    pub fn for_sni(&self) -> (r: Option<Vec<u8>>)
        ensures
            match r {
                Some(b) => self.spec_for_sni() == Some(b@),
                None => self.spec_for_sni() is None,
            },
    {
        match self {
            ServerName::Dns(b) => Some(util::copy_bytes(b)),
            ServerName::Ip(_) => None,
        }
    }

    /// A copy of the raw name bytes.
    pub fn bytes(&self) -> (r: Vec<u8>)
        ensures
            r@ == self.spec_bytes(),
    {
        match self {
            ServerName::Dns(b) => util::copy_bytes(b),
            ServerName::Ip(b) => util::copy_bytes(b),
        }
    }
}

} // verus!

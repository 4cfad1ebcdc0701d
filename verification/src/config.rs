//! The built client configuration and its capability objects: the server
//! certificate verifier and the client credential resolver.
//!
//! X.509 path validation is an external concern; the verifier here is its
//! observable model: it holds a set of acceptable end-entity certificates
//! and accepts a chain exactly when the end entity is among them, and it
//! accepts a handshake signature exactly when it is the model signature of
//! the presented certificate over the exact verify-message.

use vstd::prelude::*;
use crate::enums::{CipherSuite, ProtocolVersion, SignatureScheme};
use crate::error::{Error, PeerMisbehaved, WebPkiError};
use crate::name::ServerName;
use crate::sign::{self, CertifiedKey, DigitallySignedStruct};
use crate::suites::SupportedCipherSuite;
use crate::util;
use crate::versions::EnabledVersions;

verus! {

/// Witness that the server certificate chain was accepted.
#[derive(Clone, Copy, Debug)]
pub struct ServerCertVerified {
    dummy: (),
}

impl ServerCertVerified {
    /// Make the witness; only verifier code and resumption may do so.
    pub fn assertion() -> ServerCertVerified {
        ServerCertVerified { dummy: () }
    }
}

/// Witness that the handshake signature was accepted.
#[derive(Clone, Copy, Debug)]
pub struct HandshakeSignatureValid {
    dummy: (),
}

impl HandshakeSignatureValid {
    /// Make the witness; only verifier code and resumption may do so.
    pub fn assertion() -> HandshakeSignatureValid {
        HandshakeSignatureValid { dummy: () }
    }
}

/// Witness that the server Finished message verified.
#[derive(Clone, Copy, Debug)]
pub struct FinishedMessageVerified {
    dummy: (),
}

impl FinishedMessageVerified {
    /// Make the witness.
    pub fn assertion() -> FinishedMessageVerified {
        FinishedMessageVerified { dummy: () }
    }
}

/// The server certificate verifier capability.
#[derive(Clone, Debug)]
pub struct CertVerifier {
    /// Signature schemes the verifier can check.
    pub schemes: Vec<SignatureScheme>,
    /// Whether signed certificate timestamps should be requested.
    pub wants_scts: bool,
    /// End-entity certificates the verifier accepts.
    pub trusted: Vec<Vec<u8>>,
}

impl CertVerifier {
    /// The schemes offered in the ClientHello SignatureAlgorithms extension.
    pub fn supported_verify_schemes(&self) -> (r: Vec<SignatureScheme>)
        ensures
            r@ == self.schemes@,
    {
        util::copy_schemes(&self.schemes)
    }

    /// Should the ClientHello solicit SCTs?
    pub fn request_scts(&self) -> (r: bool)
        ensures
            r == self.wants_scts,
    {
        self.wants_scts
    }

    /// The chain is accepted exactly when the end entity is non-empty and
    /// listed as trusted.
    pub open spec fn spec_accepts_cert(&self, end_entity: Seq<u8>) -> bool {
        end_entity.len() > 0 && util::views_of(self.trusted@).contains(end_entity)
    }

    /// Validate the server chain: an empty certificate is a bad encoding,
    /// an untrusted one fails validation.
    pub fn verify_server_cert(
        &self,
        end_entity: &Vec<u8>,
        _intermediates: &Vec<Vec<u8>>,
        _server_name: &ServerName,
        _scts: &Vec<Vec<u8>>,
        _ocsp: &Vec<u8>,
        _now: u64,
    ) -> (r: Result<ServerCertVerified, Error>)
        ensures
            r is Ok <==> self.spec_accepts_cert(end_entity@),
            end_entity@.len() == 0 ==> r == Err::<ServerCertVerified, Error>(
                Error::WebPkiError(WebPkiError::BadEncoding),
            ),
            end_entity@.len() > 0 && !self.spec_accepts_cert(end_entity@) ==> r == Err::<
                ServerCertVerified,
                Error,
            >(Error::WebPkiError(WebPkiError::CertNotTrusted)),
    {
        if end_entity.len() == 0 {
            return Err(Error::WebPkiError(WebPkiError::BadEncoding));
        }
        if util::bytes_list_contains(&self.trusted, end_entity) {
            Ok(ServerCertVerified::assertion())
        } else {
            Err(Error::WebPkiError(WebPkiError::CertNotTrusted))
        }
    }

    /// The signature is accepted exactly when its scheme was advertised
    /// and it is the model signature of `cert` over `message`.
    pub open spec fn spec_accepts_signature(
        &self,
        message: Seq<u8>,
        cert: Seq<u8>,
        dss: DigitallySignedStruct,
    ) -> bool {
        self.schemes@.contains(dss.scheme) && dss.sig@ == sign::spec_signature(cert, message)
    }

    /// Check a TLS 1.3 handshake signature.
    pub fn verify_tls13_signature(
        &self,
        message: &Vec<u8>,
        cert: &Vec<u8>,
        dss: &DigitallySignedStruct,
    ) -> (r: Result<HandshakeSignatureValid, Error>)
        ensures
            r is Ok <==> self.spec_accepts_signature(message@, cert@, *dss),
            !self.schemes@.contains(dss.scheme) ==> r == Err::<HandshakeSignatureValid, Error>(
                Error::PeerMisbehavedError(PeerMisbehaved::SignedHandshakeWithUnadvertisedSigScheme),
            ),
            self.schemes@.contains(dss.scheme) && dss.sig@ != sign::spec_signature(cert@, message@)
                ==> r == Err::<HandshakeSignatureValid, Error>(
                Error::WebPkiError(WebPkiError::InvalidSignature),
            ),
    {
        if !util::schemes_contain(&self.schemes, dss.scheme) {
            return Err(
                Error::PeerMisbehavedError(PeerMisbehaved::SignedHandshakeWithUnadvertisedSigScheme),
            );
        }
        let expected = sign::signature(cert, message);
        if util::bytes_eq(&dss.sig, &expected) {
            Ok(HandshakeSignatureValid::assertion())
        } else {
            Err(Error::WebPkiError(WebPkiError::InvalidSignature))
        }
    }
}

/// The client credential resolver capability: it holds at most one
/// credential and hands it out when asked.
#[derive(Clone, Debug)]
pub struct ClientCertResolver {
    pub credential: Option<CertifiedKey>,
}

impl ClientCertResolver {
    /// Does the resolver hold any credential at all?
    pub fn has_certs(&self) -> (r: bool)
        ensures
            r == (self.credential is Some),
    {
        self.credential.is_some()
    }

    /// Hand out the credential, if one is held.
    pub fn resolve(&self, _ca_hints: &Vec<Vec<u8>>, _schemes: &Vec<SignatureScheme>) -> (r: Option<
        CertifiedKey,
    >)
        ensures
            match r {
                Some(ck) => {
                    &&& self.credential is Some
                    &&& util::views_of(ck.cert@) == util::views_of(self.credential->Some_0.cert@)
                    &&& ck.key.key@ == self.credential->Some_0.key.key@
                    &&& ck.key.schemes@ == self.credential->Some_0.key.schemes@
                },
                None => self.credential is None,
            },
    {
        match &self.credential {
            Some(ck) => Some(
                CertifiedKey {
                    cert: util::copy_bytes_list(&ck.cert),
                    key: crate::sign::SigningKey {
                        key: util::copy_bytes(&ck.key.key),
                        schemes: util::copy_schemes(&ck.key.schemes),
                    },
                },
            ),
            None => None,
        }
    }
}

/// A built, immutable client configuration.
#[derive(Clone, Debug)]
pub struct ClientConfig {
    pub cipher_suites: Vec<SupportedCipherSuite>,
    pub kx_groups: Vec<crate::enums::NamedGroup>,
    pub versions: EnabledVersions,
    pub verifier: CertVerifier,
    pub client_auth_cert_resolver: ClientCertResolver,
    pub alpn_protocols: Vec<Vec<u8>>,
    pub enable_sni: bool,
    pub enable_tickets: bool,
    pub enable_early_data: bool,
}

impl ClientConfig {
    /// Is `v` an enabled protocol version?
    pub fn supports_version(&self, v: ProtocolVersion) -> (r: bool)
        ensures
            r == self.versions.spec_contains(v),
    {
        self.versions.contains(v)
    }

    /// The first configured suite with the given wire identifier, if any.
    pub open spec fn spec_find_cipher_suite(&self, suite: CipherSuite) -> Option<
        SupportedCipherSuite,
    > {
        spec_first_suite(self.cipher_suites@, suite)
    }

    /// Did we offer a suite with this identifier?
    pub open spec fn spec_offers_suite(&self, suite: CipherSuite) -> bool {
        exists|i: int|
            0 <= i < self.cipher_suites@.len() && self.cipher_suites@[i].spec_suite() == suite
    }

    /// Look up a configured suite by its wire identifier; the first match
    /// wins.
    pub fn find_cipher_suite(&self, suite: CipherSuite) -> (r: Option<SupportedCipherSuite>)
        ensures
            r == self.spec_find_cipher_suite(suite),
            match r {
                Some(scs) => {
                    &&& self.spec_offers_suite(suite)
                    &&& self.cipher_suites@.contains(scs)
                    &&& scs.spec_suite() == suite
                },
                None => !self.spec_offers_suite(suite),
            },
    {
        let ghost s = self.cipher_suites@;
        proof {
            assert(s.skip(0) =~= s);
        }
        let mut i: usize = 0;
        while i < self.cipher_suites.len()
            invariant
                i <= s.len(),
                s == self.cipher_suites@,
                spec_first_suite(s, suite) == spec_first_suite(s.skip(i as int), suite),
                forall|j: int| 0 <= j < i ==> self.cipher_suites@[j].spec_suite() != suite,
            decreases s.len() - i,
        {
            let scs = self.cipher_suites[i];
            if scs.suite() == suite {
                proof {
                    assert(s.skip(i as int)[0] == s[i as int]);
                }
                return Some(scs);
            }
            proof {
                assert(s.skip(i as int).drop_first() =~= s.skip(i + 1));
                assert(s.skip(i as int)[0] == s[i as int]);
            }
            i = i + 1;
        }
        proof {
            assert(s.skip(s.len() as int).len() == 0);
        }
        None
    }
}

/// The first suite in the list with the given wire identifier, if any.
pub open spec fn spec_first_suite(s: Seq<SupportedCipherSuite>, suite: CipherSuite) -> Option<
    SupportedCipherSuite,
>
    decreases s.len(),
{
    if s.len() == 0 {
        None
    } else if s[0].spec_suite() == suite {
        Some(s[0])
    } else {
        spec_first_suite(s.drop_first(), suite)
    }
}

} // verus!

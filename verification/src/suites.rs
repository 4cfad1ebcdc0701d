//! Supported cipher suites.  Each suite is tagged with the protocol
//! version it belongs to and the hash algorithm it is built on; resumption
//! is only possible between suites sharing the same hash.

use vstd::prelude::*;
use crate::enums::{CipherSuite, HashAlgorithm, ProtocolVersion};

verus! {

/// A TLS 1.3 cipher suite.
#[derive(Clone, Copy, Debug, PartialEq, Eq, Structural)]
pub struct Tls13CipherSuite {
    pub suite: CipherSuite,
    pub hash: HashAlgorithm,
}

impl Tls13CipherSuite {
    /// Resumption is possible exactly when the previous suite is a 1.3
    /// suite with the same hash algorithm.
    pub open spec fn spec_can_resume_from(&self, prev: SupportedCipherSuite) -> bool {
        match prev {
            SupportedCipherSuite::Tls13(p) => p.hash == self.hash,
            SupportedCipherSuite::Tls12(_) => false,
        }
    }

    /// Can a session made with `prev` resume into this suite?
    #[verifier::when_used_as_spec(spec_can_resume_from)]
    pub fn can_resume_from(&self, prev: SupportedCipherSuite) -> (r: bool)
        ensures
            r == self.spec_can_resume_from(prev),
    {
        match prev {
            SupportedCipherSuite::Tls13(p) => p.hash == self.hash,
            SupportedCipherSuite::Tls12(_) => false,
        }
    }
}

/// A TLS 1.2 cipher suite (its internals are handled elsewhere; only the
/// identifier and hash matter to this core).
#[derive(Clone, Copy, Debug, PartialEq, Eq, Structural)]
pub struct Tls12CipherSuite {
    pub suite: CipherSuite,
    pub hash: HashAlgorithm,
}

/// A cipher suite usable by a built configuration.
#[derive(Clone, Copy, Debug, PartialEq, Eq, Structural)]
pub enum SupportedCipherSuite {
    Tls12(Tls12CipherSuite),
    Tls13(Tls13CipherSuite),
}

impl SupportedCipherSuite {
    pub open spec fn spec_suite(&self) -> CipherSuite {
        match self {
            SupportedCipherSuite::Tls12(s) => s.suite,
            SupportedCipherSuite::Tls13(s) => s.suite,
        }
    }

    /// The suite identifier sent on the wire.
    #[verifier::when_used_as_spec(spec_suite)]
    pub fn suite(&self) -> (s: CipherSuite)
        ensures
            s == self.spec_suite(),
    {
        match self {
            SupportedCipherSuite::Tls12(s) => s.suite,
            SupportedCipherSuite::Tls13(s) => s.suite,
        }
    }

    pub open spec fn spec_version(&self) -> ProtocolVersion {
        match self {
            SupportedCipherSuite::Tls12(_) => ProtocolVersion::Tls12,
            SupportedCipherSuite::Tls13(_) => ProtocolVersion::Tls13,
        }
    }

    /// The protocol version this suite belongs to.
    #[verifier::when_used_as_spec(spec_version)]
    pub fn version(&self) -> (v: ProtocolVersion)
        ensures
            v == self.spec_version(),
    {
        match self {
            SupportedCipherSuite::Tls12(_) => ProtocolVersion::Tls12,
            SupportedCipherSuite::Tls13(_) => ProtocolVersion::Tls13,
        }
    }

    pub open spec fn spec_hash(&self) -> HashAlgorithm {
        match self {
            SupportedCipherSuite::Tls12(s) => s.hash,
            SupportedCipherSuite::Tls13(s) => s.hash,
        }
    }

    /// The hash algorithm the suite is built on.
    #[verifier::when_used_as_spec(spec_hash)]
    pub fn hash_algorithm(&self) -> (h: HashAlgorithm)
        ensures
            h == self.spec_hash(),
    {
        match self {
            SupportedCipherSuite::Tls12(s) => s.hash,
            SupportedCipherSuite::Tls13(s) => s.hash,
        }
    }

    pub open spec fn spec_tls13(&self) -> Option<Tls13CipherSuite> {
        match self {
            SupportedCipherSuite::Tls13(s) => Some(*s),
            SupportedCipherSuite::Tls12(_) => None,
        }
    }

    /// The 1.3 view of the suite, if it is one.
    #[verifier::when_used_as_spec(spec_tls13)]
    pub fn tls13(&self) -> (r: Option<Tls13CipherSuite>)
        ensures
            r == self.spec_tls13(),
    {
        match self {
            SupportedCipherSuite::Tls13(s) => Some(*s),
            SupportedCipherSuite::Tls12(_) => None,
        }
    }
}

/// The default cipher suites, strongest 1.3 suites first.
pub open spec fn spec_default_cipher_suites() -> Seq<SupportedCipherSuite> {
    seq![
        SupportedCipherSuite::Tls13(
            Tls13CipherSuite { suite: CipherSuite::Tls13Aes256GcmSha384, hash: HashAlgorithm::Sha384 },
        ),
        SupportedCipherSuite::Tls13(
            Tls13CipherSuite { suite: CipherSuite::Tls13Aes128GcmSha256, hash: HashAlgorithm::Sha256 },
        ),
        SupportedCipherSuite::Tls13(
            Tls13CipherSuite {
                suite: CipherSuite::Tls13Chacha20Poly1305Sha256,
                hash: HashAlgorithm::Sha256,
            },
        ),
        SupportedCipherSuite::Tls12(
            Tls12CipherSuite { suite: CipherSuite::EcdheEcdsaAes128GcmSha256, hash: HashAlgorithm::Sha256 },
        ),
        SupportedCipherSuite::Tls12(
            Tls12CipherSuite { suite: CipherSuite::EcdheRsaAes128GcmSha256, hash: HashAlgorithm::Sha256 },
        ),
    ]
}

/// Build the default suite list.
pub fn default_cipher_suites() -> (r: Vec<SupportedCipherSuite>)
    ensures
        r@ == spec_default_cipher_suites(),
{
    let mut v: Vec<SupportedCipherSuite> = Vec::new();
    v.push(
        SupportedCipherSuite::Tls13(
            Tls13CipherSuite { suite: CipherSuite::Tls13Aes256GcmSha384, hash: HashAlgorithm::Sha384 },
        ),
    );
    v.push(
        SupportedCipherSuite::Tls13(
            Tls13CipherSuite { suite: CipherSuite::Tls13Aes128GcmSha256, hash: HashAlgorithm::Sha256 },
        ),
    );
    v.push(
        SupportedCipherSuite::Tls13(
            Tls13CipherSuite {
                suite: CipherSuite::Tls13Chacha20Poly1305Sha256,
                hash: HashAlgorithm::Sha256,
            },
        ),
    );
    v.push(
        SupportedCipherSuite::Tls12(
            Tls12CipherSuite { suite: CipherSuite::EcdheEcdsaAes128GcmSha256, hash: HashAlgorithm::Sha256 },
        ),
    );
    v.push(
        SupportedCipherSuite::Tls12(
            Tls12CipherSuite { suite: CipherSuite::EcdheRsaAes128GcmSha256, hash: HashAlgorithm::Sha256 },
        ),
    );
    proof {
        assert(v@ =~= spec_default_cipher_suites());
    }
    v
}

/// The default key exchange groups.
pub open spec fn spec_default_kx_groups() -> Seq<crate::enums::NamedGroup> {
    seq![
        crate::enums::NamedGroup::X25519,
        crate::enums::NamedGroup::Secp256r1,
        crate::enums::NamedGroup::Secp384r1,
    ]
}

/// Build the default group list.
pub fn default_kx_groups() -> (r: Vec<crate::enums::NamedGroup>)
    ensures
        r@ == spec_default_kx_groups(),
{
    let mut v: Vec<crate::enums::NamedGroup> = Vec::new();
    v.push(crate::enums::NamedGroup::X25519);
    v.push(crate::enums::NamedGroup::Secp256r1);
    v.push(crate::enums::NamedGroup::Secp384r1);
    proof {
        assert(v@ =~= spec_default_kx_groups());
    }
    v
}

} // verus!

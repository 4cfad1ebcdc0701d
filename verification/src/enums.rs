//! Protocol-level enumerations: versions, message and extension types,
//! alerts, groups, schemes and the hash algorithms the suites carry.

use vstd::prelude::*;

verus! {

/// A TLS protocol version.  `code` gives the wire value.
#[derive(Clone, Copy, Debug, PartialEq, Eq, Structural)]
pub enum ProtocolVersion {
    Tls10,
    Tls12,
    Tls13,
    Unknown(u16),
}

impl ProtocolVersion {
    pub open spec fn spec_code(&self) -> u16 {
        match self {
            ProtocolVersion::Tls10 => 0x0301,
            ProtocolVersion::Tls12 => 0x0303,
            ProtocolVersion::Tls13 => 0x0304,
            ProtocolVersion::Unknown(v) => *v,
        }
    }

    /// The two-byte value this version has on the wire.
    #[verifier::when_used_as_spec(spec_code)]
    pub fn code(&self) -> (c: u16)
        ensures
            c == self.spec_code(),
    {
        match self {
            ProtocolVersion::Tls10 => 0x0301,
            ProtocolVersion::Tls12 => 0x0303,
            ProtocolVersion::Tls13 => 0x0304,
            ProtocolVersion::Unknown(v) => *v,
        }
    }
}

/// Content type of a record.
#[derive(Clone, Copy, Debug, PartialEq, Eq, Structural)]
pub enum ContentType {
    ChangeCipherSpec,
    Alert,
    Handshake,
    ApplicationData,
}

/// Handshake message type.
#[derive(Clone, Copy, Debug, PartialEq, Eq, Structural)]
pub enum HandshakeType {
    ClientHello,
    ServerHello,
    HelloRetryRequest,
    NewSessionTicket,
    EndOfEarlyData,
    EncryptedExtensions,
    Certificate,
    CertificateRequest,
    CertificateVerify,
    Finished,
    KeyUpdate,
    MessageHash,
}

/// Alert descriptions the client can emit.
#[derive(Clone, Copy, Debug, PartialEq, Eq, Structural)]
pub enum AlertDescription {
    UnexpectedMessage,
    HandshakeFailure,
    BadCertificate,
    IllegalParameter,
    DecodeError,
    DecryptError,
    ProtocolVersion,
    MissingExtension,
    UnsupportedExtension,
}

/// Extension type tags, used to detect duplicates and unsolicited
/// extensions without looking at payloads.
#[derive(Clone, Copy, Debug, PartialEq, Eq, Structural)]
pub enum ExtensionType {
    ServerName,
    StatusRequest,
    SupportedGroups,
    ECPointFormats,
    SignatureAlgorithms,
    ALProtocolNegotiation,
    SCT,
    ExtendedMasterSecret,
    SessionTicket,
    PreSharedKey,
    EarlyData,
    SupportedVersions,
    Cookie,
    PSKKeyExchangeModes,
    KeyShare,
    RenegotiationInfo,
    TransportParameters,
    Unknown(u16),
}

/// Key exchange groups.
#[derive(Clone, Copy, Debug, PartialEq, Eq, Structural)]
pub enum NamedGroup {
    X25519,
    Secp256r1,
    Secp384r1,
    Unknown(u16),
}

/// Cipher suite identifiers.  `Scsv` is the renegotiation-refusal
/// pseudo-suite appended to every ClientHello.
#[derive(Clone, Copy, Debug, PartialEq, Eq, Structural)]
pub enum CipherSuite {
    Tls13Aes128GcmSha256,
    Tls13Aes256GcmSha384,
    Tls13Chacha20Poly1305Sha256,
    EcdheEcdsaAes128GcmSha256,
    EcdheRsaAes128GcmSha256,
    Scsv,
    Unknown(u16),
}

/// Signature schemes relevant to the TLS 1.3 client.
#[derive(Clone, Copy, Debug, PartialEq, Eq, Structural)]
pub enum SignatureScheme {
    EcdsaNistp256Sha256,
    EcdsaNistp384Sha384,
    Ed25519,
    RsaPssSha256,
    RsaPkcs1Sha256,
    Unknown(u16),
}

/// Compression methods; only the null method is acceptable.
#[derive(Clone, Copy, Debug, PartialEq, Eq, Structural)]
pub enum Compression {
    Null,
    Deflate,
    Unknown(u8),
}

/// EC point formats; only uncompressed points are usable.
#[derive(Clone, Copy, Debug, PartialEq, Eq, Structural)]
pub enum ECPointFormat {
    Uncompressed,
    Unknown(u8),
}

/// PSK key exchange modes offered in a ClientHello.
#[derive(Clone, Copy, Debug, PartialEq, Eq, Structural)]
pub enum PskKeyExchangeMode {
    PskKe,
    PskDheKe,
}

/// Payload of a KeyUpdate message.
#[derive(Clone, Copy, Debug, PartialEq, Eq, Structural)]
pub enum KeyUpdateRequest {
    UpdateNotRequested,
    UpdateRequested,
    Unknown(u8),
}

/// Hash algorithm a cipher suite is built on.
#[derive(Clone, Copy, Debug, PartialEq, Eq, Structural)]
pub enum HashAlgorithm {
    Sha256,
    Sha384,
}

impl HashAlgorithm {
    pub open spec fn spec_output_len(&self) -> usize {
        match self {
            HashAlgorithm::Sha256 => 32,
            HashAlgorithm::Sha384 => 48,
        }
    }

    /// Digest size in bytes.
    #[verifier::when_used_as_spec(spec_output_len)]
    pub fn output_len(&self) -> (n: usize)
        ensures
            n == self.spec_output_len(),
    {
        match self {
            HashAlgorithm::Sha256 => 32,
            HashAlgorithm::Sha384 => 48,
        }
    }
}

} // verus!

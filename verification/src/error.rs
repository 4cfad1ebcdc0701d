//! Error kinds returned by the handshake core.  Protocol violations carry
//! a precise reason so that contracts can say exactly which input produced
//! which error.

use vstd::prelude::*;
use crate::enums::{ContentType, HandshakeType};

verus! {

/// Ways in which a server can violate the protocol.
#[derive(Clone, Copy, Debug, PartialEq, Eq, Structural)]
pub enum PeerMisbehaved {
    ServerChoseV12WhenOfferingEarlyData,
    ServerChoseV12UsingV13Extension,
    SelectedNonNullCompression,
    DuplicateServerHelloExtensions,
    UnsolicitedServerHelloExtension,
    ServerRejectedUncompressedPoints,
    SelectedUnofferedCipherSuite,
    SelectedUnusableCipherSuiteForVersion,
    SelectedDifferentCipherSuiteAfterRetry,
    UnexpectedCleartextExtension,
    MissingKeyShare,
    WrongGroupForKeyShare,
    KeyExchangeFailed,
    ResumptionOfferedWithIncompatibleSuite,
    ResumptionSuiteVariedWithEarlyData,
    SelectedInvalidPsk,
    SelectedUnofferedPsk,
    IllegalHelloRetryWithOfferedGroup,
    IllegalHelloRetryWithEmptyCookie,
    IllegalHelloRetryWithNoChanges,
    IllegalHelloRetryWithWrongVersion,
    IllegalHelloRetryWithUnofferedSuite,
    DuplicateHelloRetryExtensions,
    DuplicateEncryptedExtensions,
    UnsolicitedEncryptedExtension,
    DisallowedEncryptedExtension,
    EarlyDataExtensionWithoutResumption,
    BadCertChainExtensions,
    InvalidSctList,
    UnsolicitedSctList,
    SelectedUnofferedApplicationProtocol,
    KeyEpochWithPendingFragment,
    InvalidKeyUpdateRequest,
    SignedHandshakeWithUnadvertisedSigScheme,
}

/// Ways in which a server can fail to satisfy the client's offer.
#[derive(Clone, Copy, Debug, PartialEq, Eq, Structural)]
pub enum PeerIncompatible {
    UnsupportedVersion,
    HelloRetryUnhandledExtension,
    NoCertificateRequestSignatureSchemesInCommon,
}

/// Certificate-chain failures reported by the verifier.
#[derive(Clone, Copy, Debug, PartialEq, Eq, Structural)]
pub enum WebPkiError {
    BadEncoding,
    CertNotTrusted,
    InvalidSignature,
}

/// The error type of the handshake core.
#[derive(Clone, Debug)]
pub enum Error {
    /// A record of an unexpected content type arrived.
    InappropriateMessage { expected: Vec<ContentType>, got: ContentType },
    /// A handshake message of an unexpected type arrived.
    InappropriateHandshakeMessage { expected: Vec<HandshakeType>, got: HandshakeType },
    /// A handshake message was structurally malformed.
    CorruptMessagePayload(ContentType),
    /// The server presented an empty certificate chain.
    NoCertificatesPresented,
    /// The server's Finished verify-data did not match.
    DecryptError,
    /// The server cannot satisfy our offer.
    PeerIncompatibleError(PeerIncompatible),
    /// The server violated the protocol.
    PeerMisbehavedError(PeerMisbehaved),
    /// Certificate validation failed.
    WebPkiError(WebPkiError),
    /// The configuration rejects every possible negotiation.
    General(GeneralErrorKind),
    /// The system random source failed.
    FailedToGetRandomBytes,
    /// Keying material was requested before the handshake completed.
    HandshakeNotComplete,
}

/// Configuration errors raised when a builder is validated.
#[derive(Clone, Copy, Debug, PartialEq, Eq, Structural)]
pub enum GeneralErrorKind {
    NoUsableCipherSuitesConfigured,
    NoKxGroupsConfigured,
}

} // verus!

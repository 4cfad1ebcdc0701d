//! Structured handshake messages.
//!
//! The byte-level wire codec is an external concern: messages cross this
//! core as structured values.  Every accessor a handler relies on is
//! specified against a first-match spec function over the extension list.

use vstd::prelude::*;
use crate::enums::{
    AlertDescription, CipherSuite, Compression, ContentType, ECPointFormat, ExtensionType,
    HandshakeType, KeyUpdateRequest, NamedGroup, ProtocolVersion, PskKeyExchangeMode,
    SignatureScheme,
};
use crate::error::Error;
use crate::sign::DigitallySignedStruct;
use crate::util;

verus! {

/// A session identifier: up to 32 opaque bytes.
#[derive(Clone, Debug)]
pub struct SessionId {
    pub bytes: Vec<u8>,
}

impl SessionId {
    /// The empty session id.
    pub fn empty() -> (r: SessionId)
        ensures
            r.bytes@.len() == 0,
    {
        SessionId { bytes: Vec::new() }
    }

    /// A copy of this id.
    pub fn duplicate(&self) -> (r: SessionId)
        ensures
            r.bytes@ == self.bytes@,
    {
        SessionId { bytes: util::copy_bytes(&self.bytes) }
    }
}

/// One key-share entry: a group and its public share.
#[derive(Clone, Debug)]
pub struct KeyShareEntry {
    pub group: NamedGroup,
    pub payload: Vec<u8>,
}

/// One offered PSK identity: the ticket and its obfuscated age.
#[derive(Clone, Debug)]
pub struct PresharedKeyIdentity {
    pub identity: Vec<u8>,
    pub obfuscated_ticket_age: u32,
}

/// The PreSharedKey extension payload of a ClientHello.
#[derive(Clone, Debug)]
pub struct PresharedKeyOffer {
    pub identities: Vec<PresharedKeyIdentity>,
    pub binders: Vec<Vec<u8>>,
}

/// An extension offered in a ClientHello.
#[derive(Clone, Debug)]
pub enum ClientExtension {
    SupportedVersions(Vec<ProtocolVersion>),
    ServerName(Vec<u8>),
    EcPointFormats(Vec<ECPointFormat>),
    NamedGroups(Vec<NamedGroup>),
    SignatureAlgorithms(Vec<SignatureScheme>),
    ExtendedMasterSecretRequest,
    CertificateStatusRequest,
    SignedCertificateTimestampRequest,
    KeyShare(Vec<KeyShareEntry>),
    Cookie(Vec<u8>),
    PresharedKeyModes(Vec<PskKeyExchangeMode>),
    Protocols(Vec<Vec<u8>>),
    SessionTicketRequest,
    SessionTicketOffer(Vec<u8>),
    EarlyData,
    PresharedKey(PresharedKeyOffer),
    Unknown(u16),
}

impl ClientExtension {
    pub open spec fn spec_get_type(&self) -> ExtensionType {
        match self {
            ClientExtension::SupportedVersions(_) => ExtensionType::SupportedVersions,
            ClientExtension::ServerName(_) => ExtensionType::ServerName,
            ClientExtension::EcPointFormats(_) => ExtensionType::ECPointFormats,
            ClientExtension::NamedGroups(_) => ExtensionType::SupportedGroups,
            ClientExtension::SignatureAlgorithms(_) => ExtensionType::SignatureAlgorithms,
            ClientExtension::ExtendedMasterSecretRequest => ExtensionType::ExtendedMasterSecret,
            ClientExtension::CertificateStatusRequest => ExtensionType::StatusRequest,
            ClientExtension::SignedCertificateTimestampRequest => ExtensionType::SCT,
            ClientExtension::KeyShare(_) => ExtensionType::KeyShare,
            ClientExtension::Cookie(_) => ExtensionType::Cookie,
            ClientExtension::PresharedKeyModes(_) => ExtensionType::PSKKeyExchangeModes,
            ClientExtension::Protocols(_) => ExtensionType::ALProtocolNegotiation,
            ClientExtension::SessionTicketRequest => ExtensionType::SessionTicket,
            ClientExtension::SessionTicketOffer(_) => ExtensionType::SessionTicket,
            ClientExtension::EarlyData => ExtensionType::EarlyData,
            ClientExtension::PresharedKey(_) => ExtensionType::PreSharedKey,
            ClientExtension::Unknown(t) => ExtensionType::Unknown(*t),
        }
    }

    /// The type tag this extension carries on the wire.
    #[verifier::when_used_as_spec(spec_get_type)]
    pub fn get_type(&self) -> (t: ExtensionType)
        ensures
            t == self.spec_get_type(),
    {
        match self {
            ClientExtension::SupportedVersions(_) => ExtensionType::SupportedVersions,
            ClientExtension::ServerName(_) => ExtensionType::ServerName,
            ClientExtension::EcPointFormats(_) => ExtensionType::ECPointFormats,
            ClientExtension::NamedGroups(_) => ExtensionType::SupportedGroups,
            ClientExtension::SignatureAlgorithms(_) => ExtensionType::SignatureAlgorithms,
            ClientExtension::ExtendedMasterSecretRequest => ExtensionType::ExtendedMasterSecret,
            ClientExtension::CertificateStatusRequest => ExtensionType::StatusRequest,
            ClientExtension::SignedCertificateTimestampRequest => ExtensionType::SCT,
            ClientExtension::KeyShare(_) => ExtensionType::KeyShare,
            ClientExtension::Cookie(_) => ExtensionType::Cookie,
            ClientExtension::PresharedKeyModes(_) => ExtensionType::PSKKeyExchangeModes,
            ClientExtension::Protocols(_) => ExtensionType::ALProtocolNegotiation,
            ClientExtension::SessionTicketRequest => ExtensionType::SessionTicket,
            ClientExtension::SessionTicketOffer(_) => ExtensionType::SessionTicket,
            ClientExtension::EarlyData => ExtensionType::EarlyData,
            ClientExtension::PresharedKey(_) => ExtensionType::PreSharedKey,
            ClientExtension::Unknown(t) => ExtensionType::Unknown(*t),
        }
    }
}

/// The types of a client extension list, in order.
pub open spec fn spec_client_ext_types(s: Seq<ClientExtension>) -> Seq<ExtensionType> {
    s.map_values(|e: ClientExtension| e.spec_get_type())
}

/// An extension of a ServerHello or of EncryptedExtensions.
#[derive(Clone, Debug)]
pub enum ServerExtension {
    ServerNameAck,
    EcPointFormats(Vec<ECPointFormat>),
    RenegotiationInfo(Vec<u8>),
    Protocols(Vec<Vec<u8>>),
    KeyShare(KeyShareEntry),
    PresharedKey(u16),
    SupportedVersions(ProtocolVersion),
    ExtendedMasterSecretAck,
    SessionTicketAck,
    EarlyData,
    Unknown(u16),
}

impl ServerExtension {
    pub open spec fn spec_get_type(&self) -> ExtensionType {
        match self {
            ServerExtension::ServerNameAck => ExtensionType::ServerName,
            ServerExtension::EcPointFormats(_) => ExtensionType::ECPointFormats,
            ServerExtension::RenegotiationInfo(_) => ExtensionType::RenegotiationInfo,
            ServerExtension::Protocols(_) => ExtensionType::ALProtocolNegotiation,
            ServerExtension::KeyShare(_) => ExtensionType::KeyShare,
            ServerExtension::PresharedKey(_) => ExtensionType::PreSharedKey,
            ServerExtension::SupportedVersions(_) => ExtensionType::SupportedVersions,
            ServerExtension::ExtendedMasterSecretAck => ExtensionType::ExtendedMasterSecret,
            ServerExtension::SessionTicketAck => ExtensionType::SessionTicket,
            ServerExtension::EarlyData => ExtensionType::EarlyData,
            ServerExtension::Unknown(t) => ExtensionType::Unknown(*t),
        }
    }

    /// The type tag this extension carries on the wire.
    #[verifier::when_used_as_spec(spec_get_type)]
    pub fn get_type(&self) -> (t: ExtensionType)
        ensures
            t == self.spec_get_type(),
    {
        match self {
            ServerExtension::ServerNameAck => ExtensionType::ServerName,
            ServerExtension::EcPointFormats(_) => ExtensionType::ECPointFormats,
            ServerExtension::RenegotiationInfo(_) => ExtensionType::RenegotiationInfo,
            ServerExtension::Protocols(_) => ExtensionType::ALProtocolNegotiation,
            ServerExtension::KeyShare(_) => ExtensionType::KeyShare,
            ServerExtension::PresharedKey(_) => ExtensionType::PreSharedKey,
            ServerExtension::SupportedVersions(_) => ExtensionType::SupportedVersions,
            ServerExtension::ExtendedMasterSecretAck => ExtensionType::ExtendedMasterSecret,
            ServerExtension::SessionTicketAck => ExtensionType::SessionTicket,
            ServerExtension::EarlyData => ExtensionType::EarlyData,
            ServerExtension::Unknown(t) => ExtensionType::Unknown(*t),
        }
    }
}

/// The types of a server extension list, in order.
pub open spec fn spec_server_ext_types(s: Seq<ServerExtension>) -> Seq<ExtensionType> {
    s.map_values(|e: ServerExtension| e.spec_get_type())
}

/// The first extension of the given type, if any.
pub open spec fn spec_first_server_ext(s: Seq<ServerExtension>, t: ExtensionType) -> Option<
    ServerExtension,
>
    decreases s.len(),
{
    if s.len() == 0 {
        None
    } else if s[0].spec_get_type() == t {
        Some(s[0])
    } else {
        spec_first_server_ext(s.drop_first(), t)
    }
}

/// The list of extension types of a server extension list.
pub fn server_ext_types(exts: &Vec<ServerExtension>) -> (r: Vec<ExtensionType>)
    ensures
        r@ == spec_server_ext_types(exts@),
{
    let mut out: Vec<ExtensionType> = Vec::new();
    let mut i: usize = 0;
    while i < exts.len()
        invariant
            i <= exts@.len(),
            out@ == spec_server_ext_types(exts@).take(i as int),
        decreases exts@.len() - i,
    {
        out.push(exts[i].get_type());
        proof {
            assert(spec_server_ext_types(exts@).take(i + 1) =~= spec_server_ext_types(
                exts@,
            ).take(i as int).push(exts@[i as int].spec_get_type()));
        }
        i = i + 1;
    }
    proof {
        assert(spec_server_ext_types(exts@).take(exts@.len() as int) =~= spec_server_ext_types(
            exts@,
        ));
    }
    out
}

/// Find the first extension of type `t`, as an index.
fn find_server_ext(exts: &Vec<ServerExtension>, t: ExtensionType) -> (r: Option<usize>)
    ensures
        match r {
            Some(i) => {
                &&& i < exts@.len()
                &&& exts@[i as int].spec_get_type() == t
                &&& spec_first_server_ext(exts@, t) == Some(exts@[i as int])
            },
            None => spec_first_server_ext(exts@, t) is None,
        },
{
    let ghost s = exts@;
    proof {
        assert(s.skip(0) =~= s);
    }
    let mut i: usize = 0;
    while i < exts.len()
        invariant
            i <= s.len(),
            s == exts@,
            spec_first_server_ext(s, t) == spec_first_server_ext(s.skip(i as int), t),
        decreases s.len() - i,
    {
        if exts[i].get_type() == t {
            proof {
                assert(s.skip(i as int)[0] == s[i as int]);
            }
            return Some(i);
        }
        proof {
            assert(s.skip(i as int).drop_first() =~= s.skip(i + 1));
            assert(s.skip(i as int)[0] == s[i as int]);
        }
        i = i + 1;
    }
    proof {
        assert(s.skip(s.len() as int).len() == 0);
    }
    None
}

/// Accessors shared by ServerHello and EncryptedExtensions extension lists.
pub fn server_exts_has_duplicate(exts: &Vec<ServerExtension>) -> (r: bool)
    ensures
        r == util::spec_has_duplicates(spec_server_ext_types(exts@)),
{
    let types = server_ext_types(exts);
    util::ext_types_have_duplicates(&types)
}

/// The ALPN protocol a server selected, if any.
pub fn server_exts_alpn_protocol(exts: &Vec<ServerExtension>) -> (r: Option<Vec<u8>>)
    ensures
        match r {
            Some(p) => {
                &&& spec_first_server_ext(exts@, ExtensionType::ALProtocolNegotiation) matches Some(
                    e,
                )
                &&& e matches ServerExtension::Protocols(list)
                &&& list@.len() == 1
                &&& list@[0]@ == p@
            },
            None => match spec_first_server_ext(exts@, ExtensionType::ALProtocolNegotiation) {
                Some(e) => !(e matches ServerExtension::Protocols(list) && list@.len() == 1),
                None => true,
            },
        },
{
    match find_server_ext(exts, ExtensionType::ALProtocolNegotiation) {
        Some(i) => match &exts[i] {
            ServerExtension::Protocols(list) => {
                if list.len() == 1 {
                    Some(util::copy_bytes(&list[0]))
                } else {
                    None
                }
            },
            _ => None,
        },
        None => None,
    }
}

/// Did the server include an EarlyData extension?
pub fn server_exts_early_data_offered(exts: &Vec<ServerExtension>) -> (r: bool)
    ensures
        r == (spec_first_server_ext(exts@, ExtensionType::EarlyData) is Some),
{
    match find_server_ext(exts, ExtensionType::EarlyData) {
        Some(_) => true,
        None => false,
    }
}

/// The payload of a ServerHello.
#[derive(Clone, Debug)]
pub struct ServerHelloPayload {
    pub legacy_version: ProtocolVersion,
    pub random: Vec<u8>,
    pub session_id: SessionId,
    pub cipher_suite: CipherSuite,
    pub compression_method: Compression,
    pub extensions: Vec<ServerExtension>,
}

impl ServerHelloPayload {
    /// The version in a SupportedVersions extension, if present.
    pub open spec fn spec_supported_versions(&self) -> Option<ProtocolVersion> {
        match spec_first_server_ext(self.extensions@, ExtensionType::SupportedVersions) {
            Some(ServerExtension::SupportedVersions(v)) => Some(v),
            _ => None,
        }
    }

    /// Read the SupportedVersions extension.
    pub fn get_supported_versions(&self) -> (r: Option<ProtocolVersion>)
        ensures
            r == self.spec_supported_versions(),
    {
        match find_server_ext(&self.extensions, ExtensionType::SupportedVersions) {
            Some(i) => match &self.extensions[i] {
                ServerExtension::SupportedVersions(v) => Some(*v),
                _ => None,
            },
            None => None,
        }
    }

    /// The server key share, if present.
    pub open spec fn spec_key_share(&self) -> Option<KeyShareEntry> {
        match spec_first_server_ext(self.extensions@, ExtensionType::KeyShare) {
            Some(ServerExtension::KeyShare(e)) => Some(e),
            _ => None,
        }
    }

    /// Read the KeyShare extension.
    pub fn get_key_share(&self) -> (r: Option<KeyShareEntry>)
        ensures
            match r {
                Some(e) => {
                    &&& self.spec_key_share() is Some
                    &&& e.group == self.spec_key_share()->Some_0.group
                    &&& e.payload@ == self.spec_key_share()->Some_0.payload@
                },
                None => self.spec_key_share() is None,
            },
    {
        match find_server_ext(&self.extensions, ExtensionType::KeyShare) {
            Some(i) => match &self.extensions[i] {
                ServerExtension::KeyShare(e) => Some(
                    KeyShareEntry { group: e.group, payload: util::copy_bytes(&e.payload) },
                ),
                _ => None,
            },
            None => None,
        }
    }

    /// The selected PSK index, if present.
    pub open spec fn spec_psk_index(&self) -> Option<u16> {
        match spec_first_server_ext(self.extensions@, ExtensionType::PreSharedKey) {
            Some(ServerExtension::PresharedKey(i)) => Some(i),
            _ => None,
        }
    }

    /// Read the PreSharedKey extension.
    pub fn get_psk_index(&self) -> (r: Option<u16>)
        ensures
            r == self.spec_psk_index(),
    {
        match find_server_ext(&self.extensions, ExtensionType::PreSharedKey) {
            Some(i) => match &self.extensions[i] {
                ServerExtension::PresharedKey(idx) => Some(*idx),
                _ => None,
            },
            None => None,
        }
    }

    /// The EC point formats the server supports, if stated.
    pub open spec fn spec_ecpoints(&self) -> Option<Seq<ECPointFormat>> {
        match spec_first_server_ext(self.extensions@, ExtensionType::ECPointFormats) {
            Some(ServerExtension::EcPointFormats(f)) => Some(f@),
            _ => None,
        }
    }

    /// Read the ECPointFormats extension.
    pub fn get_ecpoints_extension(&self) -> (r: Option<Vec<ECPointFormat>>)
        ensures
            match r {
                Some(f) => self.spec_ecpoints() == Some(f@),
                None => self.spec_ecpoints() is None,
            },
    {
        match find_server_ext(&self.extensions, ExtensionType::ECPointFormats) {
            Some(i) => match &self.extensions[i] {
                ServerExtension::EcPointFormats(f) => {
                    let mut out: Vec<ECPointFormat> = Vec::new();
                    let mut k: usize = 0;
                    while k < f.len()
                        invariant
                            k <= f@.len(),
                            out@ == f@.take(k as int),
                        decreases f@.len() - k,
                    {
                        out.push(f[k]);
                        proof {
                            assert(f@.take(k + 1) =~= f@.take(k as int).push(f@[k as int]));
                        }
                        k = k + 1;
                    }
                    proof {
                        assert(f@.take(f@.len() as int) =~= f@);
                    }
                    Some(out)
                },
                _ => None,
            },
            None => None,
        }
    }

    /// Some extension type occurs twice.
    pub fn has_duplicate_extension(&self) -> (r: bool)
        ensures
            r == util::spec_has_duplicates(spec_server_ext_types(self.extensions@)),
    {
        server_exts_has_duplicate(&self.extensions)
    }

    /// The ALPN protocol the server selected, if any.
    pub fn get_alpn_protocol(&self) -> (r: Option<Vec<u8>>)
        ensures
            match r {
                Some(p) => {
                    &&& spec_first_server_ext(
                        self.extensions@,
                        ExtensionType::ALProtocolNegotiation,
                    ) matches Some(e)
                    &&& e matches ServerExtension::Protocols(list)
                    &&& list@.len() == 1
                    &&& list@[0]@ == p@
                },
                None => match spec_first_server_ext(
                    self.extensions@,
                    ExtensionType::ALProtocolNegotiation,
                ) {
                    Some(e) => !(e matches ServerExtension::Protocols(list) && list@.len() == 1),
                    None => true,
                },
            },
    {
        server_exts_alpn_protocol(&self.extensions)
    }
}

/// An extension of a HelloRetryRequest.
#[derive(Clone, Debug)]
pub enum HrrExtension {
    KeyShare(NamedGroup),
    Cookie(Vec<u8>),
    SupportedVersions(ProtocolVersion),
    Unknown(u16),
}

impl HrrExtension {
    pub open spec fn spec_get_type(&self) -> ExtensionType {
        match self {
            HrrExtension::KeyShare(_) => ExtensionType::KeyShare,
            HrrExtension::Cookie(_) => ExtensionType::Cookie,
            HrrExtension::SupportedVersions(_) => ExtensionType::SupportedVersions,
            HrrExtension::Unknown(t) => ExtensionType::Unknown(*t),
        }
    }

    /// The type tag this extension carries on the wire.
    #[verifier::when_used_as_spec(spec_get_type)]
    pub fn get_type(&self) -> (t: ExtensionType)
        ensures
            t == self.spec_get_type(),
    {
        match self {
            HrrExtension::KeyShare(_) => ExtensionType::KeyShare,
            HrrExtension::Cookie(_) => ExtensionType::Cookie,
            HrrExtension::SupportedVersions(_) => ExtensionType::SupportedVersions,
            HrrExtension::Unknown(t) => ExtensionType::Unknown(*t),
        }
    }
}

/// The types of an HRR extension list, in order.
pub open spec fn spec_hrr_ext_types(s: Seq<HrrExtension>) -> Seq<ExtensionType> {
    s.map_values(|e: HrrExtension| e.spec_get_type())
}

/// The first HRR extension of the given type, if any.
pub open spec fn spec_first_hrr_ext(s: Seq<HrrExtension>, t: ExtensionType) -> Option<HrrExtension>
    decreases s.len(),
{
    if s.len() == 0 {
        None
    } else if s[0].spec_get_type() == t {
        Some(s[0])
    } else {
        spec_first_hrr_ext(s.drop_first(), t)
    }
}

/// Find the first HRR extension of type `t`, as an index.
fn find_hrr_ext(exts: &Vec<HrrExtension>, t: ExtensionType) -> (r: Option<usize>)
    ensures
        match r {
            Some(i) => {
                &&& i < exts@.len()
                &&& exts@[i as int].spec_get_type() == t
                &&& spec_first_hrr_ext(exts@, t) == Some(exts@[i as int])
            },
            None => spec_first_hrr_ext(exts@, t) is None,
        },
{
    let ghost s = exts@;
    proof {
        assert(s.skip(0) =~= s);
    }
    let mut i: usize = 0;
    while i < exts.len()
        invariant
            i <= s.len(),
            s == exts@,
            spec_first_hrr_ext(s, t) == spec_first_hrr_ext(s.skip(i as int), t),
        decreases s.len() - i,
    {
        if exts[i].get_type() == t {
            proof {
                assert(s.skip(i as int)[0] == s[i as int]);
            }
            return Some(i);
        }
        proof {
            assert(s.skip(i as int).drop_first() =~= s.skip(i + 1));
            assert(s.skip(i as int)[0] == s[i as int]);
        }
        i = i + 1;
    }
    proof {
        assert(s.skip(s.len() as int).len() == 0);
    }
    None
}

/// A HelloRetryRequest.
#[derive(Clone, Debug)]
pub struct HelloRetryRequest {
    pub legacy_version: ProtocolVersion,
    pub session_id: SessionId,
    pub cipher_suite: CipherSuite,
    pub extensions: Vec<HrrExtension>,
}

impl HelloRetryRequest {
    /// The cookie, if present.
    pub open spec fn spec_cookie(&self) -> Option<Seq<u8>> {
        match spec_first_hrr_ext(self.extensions@, ExtensionType::Cookie) {
            Some(HrrExtension::Cookie(c)) => Some(c@),
            _ => None,
        }
    }

    /// Read the Cookie extension.
    pub fn get_cookie(&self) -> (r: Option<Vec<u8>>)
        ensures
            match r {
                Some(c) => self.spec_cookie() == Some(c@),
                None => self.spec_cookie() is None,
            },
    {
        match find_hrr_ext(&self.extensions, ExtensionType::Cookie) {
            Some(i) => match &self.extensions[i] {
                HrrExtension::Cookie(c) => Some(util::copy_bytes(c)),
                _ => None,
            },
            None => None,
        }
    }

    /// The group the server asks us to re-offer, if present.
    pub open spec fn spec_requested_key_share_group(&self) -> Option<NamedGroup> {
        match spec_first_hrr_ext(self.extensions@, ExtensionType::KeyShare) {
            Some(HrrExtension::KeyShare(g)) => Some(g),
            _ => None,
        }
    }

    /// Read the KeyShare extension.
    pub fn get_requested_key_share_group(&self) -> (r: Option<NamedGroup>)
        ensures
            r == self.spec_requested_key_share_group(),
    {
        match find_hrr_ext(&self.extensions, ExtensionType::KeyShare) {
            Some(i) => match &self.extensions[i] {
                HrrExtension::KeyShare(g) => Some(*g),
                _ => None,
            },
            None => None,
        }
    }

    /// The version in a SupportedVersions extension, if present.
    pub open spec fn spec_supported_versions(&self) -> Option<ProtocolVersion> {
        match spec_first_hrr_ext(self.extensions@, ExtensionType::SupportedVersions) {
            Some(HrrExtension::SupportedVersions(v)) => Some(v),
            _ => None,
        }
    }

    /// Read the SupportedVersions extension.
    pub fn get_supported_versions(&self) -> (r: Option<ProtocolVersion>)
        ensures
            r == self.spec_supported_versions(),
    {
        match find_hrr_ext(&self.extensions, ExtensionType::SupportedVersions) {
            Some(i) => match &self.extensions[i] {
                HrrExtension::SupportedVersions(v) => Some(*v),
                _ => None,
            },
            None => None,
        }
    }

    /// Does the request carry a type this client does not handle?
    pub open spec fn spec_has_unknown_extension(&self) -> bool {
        exists|i: int|
            0 <= i < self.extensions@.len() && (#[trigger] self.extensions@[i].spec_get_type()
                matches ExtensionType::Unknown(_))
    }

    /// Check for extension types this client does not handle.
    pub fn has_unknown_extension(&self) -> (r: bool)
        ensures
            r == self.spec_has_unknown_extension(),
    {
        let mut i: usize = 0;
        while i < self.extensions.len()
            invariant
                i <= self.extensions@.len(),
                forall|j: int|
                    0 <= j < i ==> !(#[trigger] self.extensions@[j].spec_get_type()
                        matches ExtensionType::Unknown(_)),
            decreases self.extensions@.len() - i,
        {
            match self.extensions[i].get_type() {
                ExtensionType::Unknown(_) => {
                    return true;
                },
                _ => {},
            }
            i = i + 1;
        }
        false
    }

    /// Some extension type occurs twice.
    pub fn has_duplicate_extension(&self) -> (r: bool)
        ensures
            r == util::spec_has_duplicates(spec_hrr_ext_types(self.extensions@)),
    {
        let mut types: Vec<ExtensionType> = Vec::new();
        let mut i: usize = 0;
        while i < self.extensions.len()
            invariant
                i <= self.extensions@.len(),
                types@ == spec_hrr_ext_types(self.extensions@).take(i as int),
            decreases self.extensions@.len() - i,
        {
            types.push(self.extensions[i].get_type());
            proof {
                assert(spec_hrr_ext_types(self.extensions@).take(i + 1) =~= spec_hrr_ext_types(
                    self.extensions@,
                ).take(i as int).push(self.extensions@[i as int].spec_get_type()));
            }
            i = i + 1;
        }
        proof {
            assert(spec_hrr_ext_types(self.extensions@).take(self.extensions@.len() as int)
                =~= spec_hrr_ext_types(self.extensions@));
        }
        util::ext_types_have_duplicates(&types)
    }
}

/// The payload of a ClientHello.
#[derive(Clone, Debug)]
pub struct ClientHelloPayload {
    pub client_version: ProtocolVersion,
    pub random: Vec<u8>,
    pub session_id: SessionId,
    pub cipher_suites: Vec<CipherSuite>,
    pub compression_methods: Vec<Compression>,
    pub extensions: Vec<ClientExtension>,
}

impl ClientHelloPayload {
    /// Does the hello end with a PSK offer (as RFC 8446 requires)?
    pub open spec fn spec_ends_with_psk_offer(&self) -> bool {
        self.extensions@.len() > 0 && (self.extensions@.last()
            matches ClientExtension::PresharedKey(_))
    }

    /// Overwrite the single binder of the trailing PSK offer.
    /// Returns true exactly when a trailing PSK offer was there.
    pub fn set_psk_binder(&mut self, binder: &Vec<u8>) -> (r: bool)
        ensures
            r == old(self).spec_ends_with_psk_offer(),
            final(self).client_version == old(self).client_version,
            final(self).random@ == old(self).random@,
            final(self).session_id.bytes@ == old(self).session_id.bytes@,
            final(self).cipher_suites@ == old(self).cipher_suites@,
            final(self).compression_methods@ == old(self).compression_methods@,
            final(self).extensions@.len() == old(self).extensions@.len(),
            forall|i: int|
                0 <= i < old(self).extensions@.len() - 1 ==> final(self).extensions@[i] == old(
                    self,
                ).extensions@[i],
            !r ==> final(self).extensions@ == old(self).extensions@,
            r ==> {
                &&& old(self).extensions@.last() matches ClientExtension::PresharedKey(offer)
                &&& final(self).extensions@.last() matches ClientExtension::PresharedKey(new_offer)
                &&& new_offer.identities@ == offer.identities@
                &&& new_offer.binders@.len() == 1
                &&& new_offer.binders@[0]@ == binder@
            },
    {
        let n = self.extensions.len();
        if n == 0 {
            return false;
        }
        let is_psk = match &self.extensions[n - 1] {
            ClientExtension::PresharedKey(_) => true,
            _ => false,
        };
        if !is_psk {
            return false;
        }
        let last = self.extensions.remove(n - 1);
        match last {
            ClientExtension::PresharedKey(offer) => {
                let mut binders: Vec<Vec<u8>> = Vec::new();
                binders.push(util::copy_bytes(binder));
                self.extensions.push(
                    ClientExtension::PresharedKey(
                        PresharedKeyOffer { identities: offer.identities, binders },
                    ),
                );
                proof {
                    assert(self.extensions@.last() == self.extensions@[self.extensions@.len() - 1]);
                }
                true
            },
            _ => {
                proof {
                    assert(false);
                }
                false
            },
        }
    }
}

/// Appending one extension appends exactly its type.
pub broadcast proof fn lemma_client_ext_types_push(s: Seq<ClientExtension>, e: ClientExtension)
    ensures
        #[trigger] spec_client_ext_types(s.push(e)) == spec_client_ext_types(s).push(
            e.spec_get_type(),
        ),
{
    assert(spec_client_ext_types(s.push(e)) =~= spec_client_ext_types(s).push(e.spec_get_type()));
}

/// The list of extension types of a client extension list.
pub fn client_ext_types(exts: &Vec<ClientExtension>) -> (r: Vec<ExtensionType>)
    ensures
        r@ == spec_client_ext_types(exts@),
{
    let mut out: Vec<ExtensionType> = Vec::new();
    let mut i: usize = 0;
    while i < exts.len()
        invariant
            i <= exts@.len(),
            out@ == spec_client_ext_types(exts@).take(i as int),
        decreases exts@.len() - i,
    {
        out.push(exts[i].get_type());
        proof {
            assert(spec_client_ext_types(exts@).take(i + 1) =~= spec_client_ext_types(
                exts@,
            ).take(i as int).push(exts@[i as int].spec_get_type()));
        }
        i = i + 1;
    }
    proof {
        assert(spec_client_ext_types(exts@).take(exts@.len() as int) =~= spec_client_ext_types(
            exts@,
        ));
    }
    out
}

/// Two client extensions agree: same kind, and payloads equal view for
/// view.
pub open spec fn spec_client_ext_matches(a: ClientExtension, b: ClientExtension) -> bool {
    &&& a.spec_get_type() == b.spec_get_type()
    &&& match a {
        ClientExtension::SupportedVersions(av) => b matches ClientExtension::SupportedVersions(bv)
            && av@ == bv@,
        ClientExtension::ServerName(av) => b matches ClientExtension::ServerName(bv) && av@ == bv@,
        ClientExtension::EcPointFormats(av) => b matches ClientExtension::EcPointFormats(bv) && av@
            == bv@,
        ClientExtension::NamedGroups(av) => b matches ClientExtension::NamedGroups(bv) && av@
            == bv@,
        ClientExtension::SignatureAlgorithms(av) => b matches ClientExtension::SignatureAlgorithms(
            bv,
        ) && av@ == bv@,
        ClientExtension::ExtendedMasterSecretRequest => b
            is ExtendedMasterSecretRequest,
        ClientExtension::CertificateStatusRequest => b is CertificateStatusRequest,
        ClientExtension::SignedCertificateTimestampRequest => b
            is SignedCertificateTimestampRequest,
        ClientExtension::KeyShare(av) => b matches ClientExtension::KeyShare(bv) && av@.len()
            == bv@.len() && (forall|i: int|
            0 <= i < av@.len() ==> (#[trigger] av@[i]).group == bv@[i].group && av@[i].payload@
                == bv@[i].payload@),
        ClientExtension::Cookie(av) => b matches ClientExtension::Cookie(bv) && av@ == bv@,
        ClientExtension::PresharedKeyModes(av) => b matches ClientExtension::PresharedKeyModes(bv)
            && av@ == bv@,
        ClientExtension::Protocols(av) => b matches ClientExtension::Protocols(bv)
            && util::views_of(av@) == util::views_of(bv@),
        ClientExtension::SessionTicketRequest => b is SessionTicketRequest,
        ClientExtension::SessionTicketOffer(av) => b matches ClientExtension::SessionTicketOffer(
            bv,
        ) && av@ == bv@,
        ClientExtension::EarlyData => b is EarlyData,
        ClientExtension::PresharedKey(av) => b matches ClientExtension::PresharedKey(bv)
            && av.identities@.len() == bv.identities@.len() && (forall|i: int|
            0 <= i < av.identities@.len() ==> (#[trigger] av.identities@[i]).identity@
                == bv.identities@[i].identity@ && av.identities@[i].obfuscated_ticket_age
                == bv.identities@[i].obfuscated_ticket_age) && util::views_of(av.binders@)
            == util::views_of(bv.binders@),
        ClientExtension::Unknown(at) => b matches ClientExtension::Unknown(bt) && at == bt,
    }
}

/// An element-wise copy of one client extension.
pub fn copy_client_ext(e: &ClientExtension) -> (r: ClientExtension)
    ensures
        spec_client_ext_matches(*e, r),
{
    match e {
        ClientExtension::SupportedVersions(v) => {
            let mut out: Vec<ProtocolVersion> = Vec::new();
            let mut i: usize = 0;
            while i < v.len()
                invariant
                    i <= v@.len(),
                    out@ == v@.take(i as int),
                decreases v@.len() - i,
            {
                out.push(v[i]);
                proof {
                    assert(v@.take(i + 1) =~= v@.take(i as int).push(v@[i as int]));
                }
                i = i + 1;
            }
            proof {
                assert(v@.take(v@.len() as int) =~= v@);
            }
            ClientExtension::SupportedVersions(out)
        },
        ClientExtension::ServerName(v) => ClientExtension::ServerName(util::copy_bytes(v)),
        ClientExtension::EcPointFormats(v) => {
            let mut out: Vec<ECPointFormat> = Vec::new();
            let mut i: usize = 0;
            while i < v.len()
                invariant
                    i <= v@.len(),
                    out@ == v@.take(i as int),
                decreases v@.len() - i,
            {
                out.push(v[i]);
                proof {
                    assert(v@.take(i + 1) =~= v@.take(i as int).push(v@[i as int]));
                }
                i = i + 1;
            }
            proof {
                assert(v@.take(v@.len() as int) =~= v@);
            }
            ClientExtension::EcPointFormats(out)
        },
        ClientExtension::NamedGroups(v) => {
            let mut out: Vec<NamedGroup> = Vec::new();
            let mut i: usize = 0;
            while i < v.len()
                invariant
                    i <= v@.len(),
                    out@ == v@.take(i as int),
                decreases v@.len() - i,
            {
                out.push(v[i]);
                proof {
                    assert(v@.take(i + 1) =~= v@.take(i as int).push(v@[i as int]));
                }
                i = i + 1;
            }
            proof {
                assert(v@.take(v@.len() as int) =~= v@);
            }
            ClientExtension::NamedGroups(out)
        },
        ClientExtension::SignatureAlgorithms(v) => ClientExtension::SignatureAlgorithms(
            util::copy_schemes(v),
        ),
        ClientExtension::ExtendedMasterSecretRequest => ClientExtension::ExtendedMasterSecretRequest,
        ClientExtension::CertificateStatusRequest => ClientExtension::CertificateStatusRequest,
        ClientExtension::SignedCertificateTimestampRequest => ClientExtension::SignedCertificateTimestampRequest,
        ClientExtension::KeyShare(v) => {
            let mut out: Vec<KeyShareEntry> = Vec::new();
            let mut i: usize = 0;
            while i < v.len()
                invariant
                    i <= v@.len(),
                    out@.len() == i,
                    forall|j: int|
                        0 <= j < i ==> (#[trigger] out@[j]).group == v@[j].group && out@[j].payload@
                            == v@[j].payload@,
                decreases v@.len() - i,
            {
                out.push(
                    KeyShareEntry { group: v[i].group, payload: util::copy_bytes(&v[i].payload) },
                );
                i = i + 1;
            }
            ClientExtension::KeyShare(out)
        },
        ClientExtension::Cookie(v) => ClientExtension::Cookie(util::copy_bytes(v)),
        ClientExtension::PresharedKeyModes(v) => {
            let mut out: Vec<PskKeyExchangeMode> = Vec::new();
            let mut i: usize = 0;
            while i < v.len()
                invariant
                    i <= v@.len(),
                    out@ == v@.take(i as int),
                decreases v@.len() - i,
            {
                out.push(v[i]);
                proof {
                    assert(v@.take(i + 1) =~= v@.take(i as int).push(v@[i as int]));
                }
                i = i + 1;
            }
            proof {
                assert(v@.take(v@.len() as int) =~= v@);
            }
            ClientExtension::PresharedKeyModes(out)
        },
        ClientExtension::Protocols(v) => ClientExtension::Protocols(util::copy_bytes_list(v)),
        ClientExtension::SessionTicketRequest => ClientExtension::SessionTicketRequest,
        ClientExtension::SessionTicketOffer(v) => ClientExtension::SessionTicketOffer(
            util::copy_bytes(v),
        ),
        ClientExtension::EarlyData => ClientExtension::EarlyData,
        ClientExtension::PresharedKey(offer) => {
            let mut ids: Vec<PresharedKeyIdentity> = Vec::new();
            let mut i: usize = 0;
            while i < offer.identities.len()
                invariant
                    i <= offer.identities@.len(),
                    ids@.len() == i,
                    forall|j: int|
                        0 <= j < i ==> (#[trigger] ids@[j]).identity@
                            == offer.identities@[j].identity@ && ids@[j].obfuscated_ticket_age
                            == offer.identities@[j].obfuscated_ticket_age,
                decreases offer.identities@.len() - i,
            {
                ids.push(
                    PresharedKeyIdentity {
                        identity: util::copy_bytes(&offer.identities[i].identity),
                        obfuscated_ticket_age: offer.identities[i].obfuscated_ticket_age,
                    },
                );
                i = i + 1;
            }
            ClientExtension::PresharedKey(
                PresharedKeyOffer {
                    identities: ids,
                    binders: util::copy_bytes_list(&offer.binders),
                },
            )
        },
        ClientExtension::Unknown(t) => ClientExtension::Unknown(*t),
    }
}

/// An element-wise copy of a client extension list.
pub fn copy_client_exts(v: &Vec<ClientExtension>) -> (r: Vec<ClientExtension>)
    ensures
        r@.len() == v@.len(),
        forall|i: int| 0 <= i < v@.len() ==> spec_client_ext_matches(v@[i], #[trigger] r@[i]),
{
    let mut out: Vec<ClientExtension> = Vec::new();
    let mut i: usize = 0;
    while i < v.len()
        invariant
            i <= v@.len(),
            out@.len() == i,
            forall|j: int| 0 <= j < i ==> spec_client_ext_matches(v@[j], #[trigger] out@[j]),
        decreases v@.len() - i,
    {
        out.push(copy_client_ext(&v[i]));
        i = i + 1;
    }
    out
}

/// An extension attached to one certificate entry.
#[derive(Clone, Debug)]
pub enum CertificateExtension {
    /// An OCSP response for this certificate.
    CertificateStatus(Vec<u8>),
    /// A list of signed certificate timestamps.
    Sct(Vec<Vec<u8>>),
    Unknown(u16),
}

impl CertificateExtension {
    pub open spec fn spec_get_type(&self) -> ExtensionType {
        match self {
            CertificateExtension::CertificateStatus(_) => ExtensionType::StatusRequest,
            CertificateExtension::Sct(_) => ExtensionType::SCT,
            CertificateExtension::Unknown(t) => ExtensionType::Unknown(*t),
        }
    }

    /// The type tag this extension carries on the wire.
    #[verifier::when_used_as_spec(spec_get_type)]
    pub fn get_type(&self) -> (t: ExtensionType)
        ensures
            t == self.spec_get_type(),
    {
        match self {
            CertificateExtension::CertificateStatus(_) => ExtensionType::StatusRequest,
            CertificateExtension::Sct(_) => ExtensionType::SCT,
            CertificateExtension::Unknown(t) => ExtensionType::Unknown(*t),
        }
    }
}

/// The types of a certificate-entry extension list, in order.
pub open spec fn spec_cert_ext_types(s: Seq<CertificateExtension>) -> Seq<ExtensionType> {
    s.map_values(|e: CertificateExtension| e.spec_get_type())
}

/// The first certificate-entry extension of the given type, if any.
pub open spec fn spec_first_cert_ext(s: Seq<CertificateExtension>, t: ExtensionType) -> Option<
    CertificateExtension,
>
    decreases s.len(),
{
    if s.len() == 0 {
        None
    } else if s[0].spec_get_type() == t {
        Some(s[0])
    } else {
        spec_first_cert_ext(s.drop_first(), t)
    }
}

/// Find the first certificate-entry extension of type `t`, as an index.
fn find_cert_ext(exts: &Vec<CertificateExtension>, t: ExtensionType) -> (r: Option<usize>)
    ensures
        match r {
            Some(i) => {
                &&& i < exts@.len()
                &&& exts@[i as int].spec_get_type() == t
                &&& spec_first_cert_ext(exts@, t) == Some(exts@[i as int])
            },
            None => spec_first_cert_ext(exts@, t) is None,
        },
{
    let ghost s = exts@;
    proof {
        assert(s.skip(0) =~= s);
    }
    let mut i: usize = 0;
    while i < exts.len()
        invariant
            i <= s.len(),
            s == exts@,
            spec_first_cert_ext(s, t) == spec_first_cert_ext(s.skip(i as int), t),
        decreases s.len() - i,
    {
        if exts[i].get_type() == t {
            proof {
                assert(s.skip(i as int)[0] == s[i as int]);
            }
            return Some(i);
        }
        proof {
            assert(s.skip(i as int).drop_first() =~= s.skip(i + 1));
            assert(s.skip(i as int)[0] == s[i as int]);
        }
        i = i + 1;
    }
    proof {
        assert(s.skip(s.len() as int).len() == 0);
    }
    None
}

/// One certificate of a TLS 1.3 Certificate message, with its extensions.
#[derive(Clone, Debug)]
pub struct CertificateEntry {
    pub cert: Vec<u8>,
    pub exts: Vec<CertificateExtension>,
}

impl CertificateEntry {
    /// An entry carrying a bare certificate and no extensions.
    pub fn new(cert: Vec<u8>) -> (r: CertificateEntry)
        ensures
            r.cert@ == cert@,
            r.exts@.len() == 0,
    {
        CertificateEntry { cert, exts: Vec::new() }
    }

    pub open spec fn spec_has_duplicate_extension(&self) -> bool {
        util::spec_has_duplicates(spec_cert_ext_types(self.exts@))
    }

    pub open spec fn spec_has_unknown_extension(&self) -> bool {
        exists|i: int|
            0 <= i < self.exts@.len() && (#[trigger] self.exts@[i].spec_get_type()
                matches ExtensionType::Unknown(_))
    }

    /// Some extension type occurs twice on this entry.
    pub fn has_duplicate_extension(&self) -> (r: bool)
        ensures
            r == self.spec_has_duplicate_extension(),
    {
        let mut types: Vec<ExtensionType> = Vec::new();
        let mut i: usize = 0;
        while i < self.exts.len()
            invariant
                i <= self.exts@.len(),
                types@ == spec_cert_ext_types(self.exts@).take(i as int),
            decreases self.exts@.len() - i,
        {
            types.push(self.exts[i].get_type());
            proof {
                assert(spec_cert_ext_types(self.exts@).take(i + 1) =~= spec_cert_ext_types(
                    self.exts@,
                ).take(i as int).push(self.exts@[i as int].spec_get_type()));
            }
            i = i + 1;
        }
        proof {
            assert(spec_cert_ext_types(self.exts@).take(self.exts@.len() as int)
                =~= spec_cert_ext_types(self.exts@));
        }
        util::ext_types_have_duplicates(&types)
    }

    /// Does this entry carry an extension type the client does not know?
    pub fn has_unknown_extension(&self) -> (r: bool)
        ensures
            r == self.spec_has_unknown_extension(),
    {
        let mut i: usize = 0;
        while i < self.exts.len()
            invariant
                i <= self.exts@.len(),
                forall|j: int|
                    0 <= j < i ==> !(#[trigger] self.exts@[j].spec_get_type()
                        matches ExtensionType::Unknown(_)),
            decreases self.exts@.len() - i,
        {
            match self.exts[i].get_type() {
                ExtensionType::Unknown(_) => {
                    return true;
                },
                _ => {},
            }
            i = i + 1;
        }
        false
    }
}

/// The payload of a TLS 1.3 Certificate message.
#[derive(Clone, Debug)]
pub struct CertificatePayloadTls13 {
    pub context: Vec<u8>,
    pub entries: Vec<CertificateEntry>,
}

impl CertificatePayloadTls13 {
    pub open spec fn spec_any_entry_has_duplicate_extension(&self) -> bool {
        exists|i: int|
            0 <= i < self.entries@.len()
                && #[trigger] self.entries@[i].spec_has_duplicate_extension()
    }

    pub open spec fn spec_any_entry_has_unknown_extension(&self) -> bool {
        exists|i: int|
            0 <= i < self.entries@.len() && #[trigger] self.entries@[i].spec_has_unknown_extension()
    }

    /// Does any entry carry a duplicate extension type?
    pub fn any_entry_has_duplicate_extension(&self) -> (r: bool)
        ensures
            r == self.spec_any_entry_has_duplicate_extension(),
    {
        let mut i: usize = 0;
        while i < self.entries.len()
            invariant
                i <= self.entries@.len(),
                forall|j: int|
                    0 <= j < i ==> !#[trigger] self.entries@[j].spec_has_duplicate_extension(),
            decreases self.entries@.len() - i,
        {
            if self.entries[i].has_duplicate_extension() {
                return true;
            }
            i = i + 1;
        }
        false
    }

    /// Does any entry carry an unknown extension type?
    pub fn any_entry_has_unknown_extension(&self) -> (r: bool)
        ensures
            r == self.spec_any_entry_has_unknown_extension(),
    {
        let mut i: usize = 0;
        while i < self.entries.len()
            invariant
                i <= self.entries@.len(),
                forall|j: int|
                    0 <= j < i ==> !#[trigger] self.entries@[j].spec_has_unknown_extension(),
            decreases self.entries@.len() - i,
        {
            if self.entries[i].has_unknown_extension() {
                return true;
            }
            i = i + 1;
        }
        false
    }

    /// The certificate chain: each entry's certificate bytes, in order.
    pub open spec fn spec_chain(&self) -> Seq<Seq<u8>> {
        self.entries@.map_values(|e: CertificateEntry| e.cert@)
    }

    /// Collect the bare certificate chain.
    pub fn convert(&self) -> (r: Vec<Vec<u8>>)
        ensures
            util::views_of(r@) == self.spec_chain(),
            r@.len() == self.entries@.len(),
    {
        let mut out: Vec<Vec<u8>> = Vec::new();
        let mut i: usize = 0;
        while i < self.entries.len()
            invariant
                i <= self.entries@.len(),
                out@.len() == i,
                forall|j: int| 0 <= j < i ==> out@[j]@ == self.entries@[j].cert@,
            decreases self.entries@.len() - i,
        {
            out.push(util::copy_bytes(&self.entries[i].cert));
            i = i + 1;
        }
        proof {
            assert(util::views_of(out@) =~= self.spec_chain());
        }
        out
    }

    /// The OCSP response attached to the end entity, if any.
    pub open spec fn spec_end_entity_ocsp(&self) -> Seq<u8> {
        if self.entries@.len() == 0 {
            Seq::empty()
        } else {
            match spec_first_cert_ext(self.entries@[0].exts@, ExtensionType::StatusRequest) {
                Some(CertificateExtension::CertificateStatus(ocsp)) => ocsp@,
                _ => Seq::empty(),
            }
        }
    }

    /// Extract the end entity's OCSP response; empty when absent.
    pub fn get_end_entity_ocsp(&self) -> (r: Vec<u8>)
        ensures
            r@ == self.spec_end_entity_ocsp(),
    {
        if self.entries.len() == 0 {
            return Vec::new();
        }
        match find_cert_ext(&self.entries[0].exts, ExtensionType::StatusRequest) {
            Some(i) => match &self.entries[0].exts[i] {
                CertificateExtension::CertificateStatus(ocsp) => util::copy_bytes(ocsp),
                _ => Vec::new(),
            },
            None => Vec::new(),
        }
    }

    /// The SCT list attached to the end entity, if any.
    pub open spec fn spec_end_entity_scts(&self) -> Option<Seq<Seq<u8>>> {
        if self.entries@.len() == 0 {
            None
        } else {
            match spec_first_cert_ext(self.entries@[0].exts@, ExtensionType::SCT) {
                Some(CertificateExtension::Sct(scts)) => Some(util::views_of(scts@)),
                _ => None,
            }
        }
    }

    /// Extract the end entity's SCT list, if present.
    pub fn get_end_entity_scts(&self) -> (r: Option<Vec<Vec<u8>>>)
        ensures
            match r {
                Some(scts) => self.spec_end_entity_scts() == Some(util::views_of(scts@)),
                None => self.spec_end_entity_scts() is None,
            },
    {
        if self.entries.len() == 0 {
            return None;
        }
        match find_cert_ext(&self.entries[0].exts, ExtensionType::SCT) {
            Some(i) => match &self.entries[0].exts[i] {
                CertificateExtension::Sct(scts) => Some(util::copy_bytes_list(scts)),
                _ => None,
            },
            None => None,
        }
    }
}

/// The payload of a TLS 1.3 CertificateRequest.
#[derive(Clone, Debug)]
pub struct CertificateRequestPayloadTls13 {
    pub context: Vec<u8>,
    pub sigalgs: Option<Vec<SignatureScheme>>,
    pub authorities: Option<Vec<Vec<u8>>>,
}

impl CertificateRequestPayloadTls13 {
    /// The signature schemes the server will accept, if stated.
    pub fn get_sigalgs_extension(&self) -> (r: Option<Vec<SignatureScheme>>)
        ensures
            match r {
                Some(s) => self.sigalgs matches Some(mine) && mine@ == s@,
                None => self.sigalgs is None,
            },
    {
        match &self.sigalgs {
            Some(s) => Some(util::copy_schemes(s)),
            None => None,
        }
    }

    /// The certificate authorities the server hints at, if stated.
    pub fn get_authorities_extension(&self) -> (r: Option<Vec<Vec<u8>>>)
        ensures
            match r {
                Some(a) => self.authorities matches Some(mine) && util::views_of(mine@)
                    == util::views_of(a@),
                None => self.authorities is None,
            },
    {
        match &self.authorities {
            Some(a) => Some(util::copy_bytes_list(a)),
            None => None,
        }
    }
}

/// The payload of a TLS 1.3 NewSessionTicket.
#[derive(Clone, Debug)]
pub struct NewSessionTicketPayloadTls13 {
    pub lifetime: u32,
    pub age_add: u32,
    pub nonce: Vec<u8>,
    pub ticket: Vec<u8>,
    pub max_early_data_size: Option<u32>,
}

impl NewSessionTicketPayloadTls13 {
    /// The early-data limit the ticket allows, if any.
    pub fn get_max_early_data_size(&self) -> (r: Option<u32>)
        ensures
            r == self.max_early_data_size,
    {
        self.max_early_data_size
    }
}

/// A handshake message's payload; its type is determined by the variant.
#[derive(Clone, Debug)]
pub enum HandshakePayload {
    ClientHello(ClientHelloPayload),
    ServerHello(ServerHelloPayload),
    HelloRetryRequest(HelloRetryRequest),
    EncryptedExtensions(Vec<ServerExtension>),
    CertificateTls13(CertificatePayloadTls13),
    CertificateRequestTls13(CertificateRequestPayloadTls13),
    CertificateVerify(DigitallySignedStruct),
    Finished(Vec<u8>),
    NewSessionTicketTls13(NewSessionTicketPayloadTls13),
    KeyUpdate(KeyUpdateRequest),
    EndOfEarlyData,
    /// The synthetic message-hash entry a HelloRetryRequest puts at the
    /// front of the restarted transcript.
    MessageHash(Vec<u8>),
}

impl HandshakePayload {
    pub open spec fn spec_handshake_type(&self) -> HandshakeType {
        match self {
            HandshakePayload::ClientHello(_) => HandshakeType::ClientHello,
            HandshakePayload::ServerHello(_) => HandshakeType::ServerHello,
            HandshakePayload::HelloRetryRequest(_) => HandshakeType::HelloRetryRequest,
            HandshakePayload::EncryptedExtensions(_) => HandshakeType::EncryptedExtensions,
            HandshakePayload::CertificateTls13(_) => HandshakeType::Certificate,
            HandshakePayload::CertificateRequestTls13(_) => HandshakeType::CertificateRequest,
            HandshakePayload::CertificateVerify(_) => HandshakeType::CertificateVerify,
            HandshakePayload::Finished(_) => HandshakeType::Finished,
            HandshakePayload::NewSessionTicketTls13(_) => HandshakeType::NewSessionTicket,
            HandshakePayload::KeyUpdate(_) => HandshakeType::KeyUpdate,
            HandshakePayload::EndOfEarlyData => HandshakeType::EndOfEarlyData,
            HandshakePayload::MessageHash(_) => HandshakeType::MessageHash,
        }
    }

    /// The handshake type tag of this payload.
    #[verifier::when_used_as_spec(spec_handshake_type)]
    pub fn handshake_type(&self) -> (t: HandshakeType)
        ensures
            t == self.spec_handshake_type(),
    {
        match self {
            HandshakePayload::ClientHello(_) => HandshakeType::ClientHello,
            HandshakePayload::ServerHello(_) => HandshakeType::ServerHello,
            HandshakePayload::HelloRetryRequest(_) => HandshakeType::HelloRetryRequest,
            HandshakePayload::EncryptedExtensions(_) => HandshakeType::EncryptedExtensions,
            HandshakePayload::CertificateTls13(_) => HandshakeType::Certificate,
            HandshakePayload::CertificateRequestTls13(_) => HandshakeType::CertificateRequest,
            HandshakePayload::CertificateVerify(_) => HandshakeType::CertificateVerify,
            HandshakePayload::Finished(_) => HandshakeType::Finished,
            HandshakePayload::NewSessionTicketTls13(_) => HandshakeType::NewSessionTicket,
            HandshakePayload::KeyUpdate(_) => HandshakeType::KeyUpdate,
            HandshakePayload::EndOfEarlyData => HandshakeType::EndOfEarlyData,
            HandshakePayload::MessageHash(_) => HandshakeType::MessageHash,
        }
    }
}

/// A record's payload.
#[derive(Clone, Debug)]
pub enum MessagePayload {
    ChangeCipherSpec,
    Alert(AlertDescription),
    Handshake(HandshakePayload),
    ApplicationData(Vec<u8>),
}

impl MessagePayload {
    pub open spec fn spec_content_type(&self) -> ContentType {
        match self {
            MessagePayload::ChangeCipherSpec => ContentType::ChangeCipherSpec,
            MessagePayload::Alert(_) => ContentType::Alert,
            MessagePayload::Handshake(_) => ContentType::Handshake,
            MessagePayload::ApplicationData(_) => ContentType::ApplicationData,
        }
    }

    /// The content type of this payload.
    #[verifier::when_used_as_spec(spec_content_type)]
    pub fn content_type(&self) -> (t: ContentType)
        ensures
            t == self.spec_content_type(),
    {
        match self {
            MessagePayload::ChangeCipherSpec => ContentType::ChangeCipherSpec,
            MessagePayload::Alert(_) => ContentType::Alert,
            MessagePayload::Handshake(_) => ContentType::Handshake,
            MessagePayload::ApplicationData(_) => ContentType::ApplicationData,
        }
    }
}

/// One message as the record layer hands it to the state machine.
#[derive(Clone, Debug)]
pub struct Message {
    /// The legacy record version the message is framed under.
    pub version: ProtocolVersion,
    pub payload: MessagePayload,
}

impl Message {
    /// Is this a handshake message of type `t`?
    pub open spec fn spec_is_handshake_type(&self, t: HandshakeType) -> bool {
        match self.payload {
            MessagePayload::Handshake(hs) => hs.spec_handshake_type() == t,
            _ => false,
        }
    }

    /// Check the handshake type tag.
    #[verifier::when_used_as_spec(spec_is_handshake_type)]
    pub fn is_handshake_type(&self, t: HandshakeType) -> (r: bool)
        ensures
            r == self.spec_is_handshake_type(t),
    {
        match &self.payload {
            MessagePayload::Handshake(hs) => hs.handshake_type() == t,
            _ => false,
        }
    }
}

/// Reject a message whose content type, or handshake type, is not among
/// those a state accepts.
pub fn check_message(
    m: &Message,
    content_types: &Vec<ContentType>,
    handshake_types: &Vec<HandshakeType>,
) -> (r: Result<(), Error>)
    ensures
        r is Ok <==> content_types@.contains(m.payload.spec_content_type()) && (
        handshake_types@.len() == 0 || (m.payload matches MessagePayload::Handshake(hs)
            && handshake_types@.contains(hs.spec_handshake_type()))),
{
    if !util::content_types_contain(content_types, m.payload.content_type()) {
        return Err(
            Error::InappropriateMessage {
                expected: util::copy_content_types(content_types),
                got: m.payload.content_type(),
            },
        );
    }
    if handshake_types.len() > 0 {
        match &m.payload {
            MessagePayload::Handshake(hs) => {
                if !util::handshake_types_contain(handshake_types, hs.handshake_type()) {
                    return Err(
                        Error::InappropriateHandshakeMessage {
                            expected: util::copy_handshake_types(handshake_types),
                            got: hs.handshake_type(),
                        },
                    );
                }
            },
            _ => {
                return Err(
                    Error::InappropriateMessage {
                        expected: util::copy_content_types(content_types),
                        got: m.payload.content_type(),
                    },
                );
            },
        }
    }
    Ok(())
}

/// What the client remembers about its own hello: the extension types it
/// sent, so unsolicited server extensions can be recognised.
#[derive(Clone, Debug)]
pub struct ClientHelloDetails {
    pub sent_extensions: Vec<ExtensionType>,
}

impl ClientHelloDetails {
    /// No extensions sent yet.
    pub fn new() -> (r: ClientHelloDetails)
        ensures
            r.sent_extensions@.len() == 0,
    {
        ClientHelloDetails { sent_extensions: Vec::new() }
    }

    /// Did we solicit SCTs in the last hello?
    pub fn server_may_send_sct_list(&self) -> (r: bool)
        ensures
            r == self.sent_extensions@.contains(ExtensionType::SCT),
    {
        util::ext_types_contain(&self.sent_extensions, ExtensionType::SCT)
    }

    /// Some received extension was neither offered nor allowed unsolicited.
    pub open spec fn spec_unsolicited(
        &self,
        received: Seq<ServerExtension>,
        allowed_unsolicited: Seq<ExtensionType>,
    ) -> bool {
        exists|i: int|
            0 <= i < received.len() && !self.sent_extensions@.contains(
                #[trigger] received[i].spec_get_type(),
            ) && !allowed_unsolicited.contains(received[i].spec_get_type())
    }

    /// Scan received extensions for one we never offered.
    pub fn server_sent_unsolicited_extensions(
        &self,
        received: &Vec<ServerExtension>,
        allowed_unsolicited: &Vec<ExtensionType>,
    ) -> (r: bool)
        ensures
            r == self.spec_unsolicited(received@, allowed_unsolicited@),
    {
        let mut i: usize = 0;
        while i < received.len()
            invariant
                i <= received@.len(),
                forall|j: int|
                    0 <= j < i ==> self.sent_extensions@.contains(
                        #[trigger] received@[j].spec_get_type(),
                    ) || allowed_unsolicited@.contains(received@[j].spec_get_type()),
            decreases received@.len() - i,
        {
            let t = received[i].get_type();
            if !util::ext_types_contain(&self.sent_extensions, t) && !util::ext_types_contain(
                allowed_unsolicited,
                t,
            ) {
                return true;
            }
            i = i + 1;
        }
        false
    }
}

} // verus!

//! The handshake entry points and the first states: looking up a cached
//! session, emitting the ClientHello (first and post-retry), and
//! processing the ServerHello or HelloRetryRequest.

use vstd::prelude::*;
use crate::config::ClientConfig;
use crate::conn::{ClientConnectionData, ConnectionCommon, Protocol};
use crate::enums::{AlertDescription, ContentType, ExtensionType, HandshakeType, ProtocolVersion};
use crate::error::{Error, PeerIncompatible, PeerMisbehaved, WebPkiError};
use crate::hash_hs::HandshakeHashBuffer;
use crate::key_schedule::KeyScheduleEarly;
use crate::kx::KeyExchange;
use crate::msgs::{ClientExtension, ClientHelloDetails, HandshakePayload, HelloRetryRequest, Message, MessagePayload, SessionId};
use crate::name::ServerName;
use crate::persist::{self, ClientSessionKey, ResolvedSession, SessionStorage, StoredValue};
use crate::suites::SupportedCipherSuite;
use crate::tls13;
use crate::util;

verus! {

/// Expecting a ServerHello.
pub struct ExpectServerHello {
    pub config: ClientConfig,
    pub resuming_session: Option<ResolvedSession>,
    pub server_name: ServerName,
    pub random: Vec<u8>,
    pub using_ems: bool,
    pub transcript_buffer: HandshakeHashBuffer,
    pub early_key_schedule: Option<KeyScheduleEarly>,
    pub hello: ClientHelloDetails,
    pub offered_key_share: Option<KeyExchange>,
    pub session_id: SessionId,
    pub sent_tls13_fake_ccs: bool,
    pub suite: Option<SupportedCipherSuite>,
}

/// Expecting a ServerHello or, on the first flight, a HelloRetryRequest.
pub struct ExpectServerHelloOrHelloRetryRequest {
    pub next: ExpectServerHello,
    pub extra_exts: Vec<ClientExtension>,
}

/// The TLS 1.2 path taken over: what the version-agnostic processing had
/// established when it handed off.  The TLS 1.2 handshake internals are
/// an external concern.
pub struct Tls12Handoff {
    pub config: ClientConfig,
    pub resuming_session: Option<ResolvedSession>,
    pub server_name: ServerName,
    pub using_ems: bool,
    pub suite: crate::suites::Tls12CipherSuite,
    pub session_id: SessionId,
}

/// Every state a client connection can be in.
pub enum NextState {
    ExpectServerHello(ExpectServerHello),
    ExpectServerHelloOrHelloRetryRequest(ExpectServerHelloOrHelloRetryRequest),
    ExpectEncryptedExtensions(tls13::ExpectEncryptedExtensions),
    ExpectCertificateOrCertReq(tls13::ExpectCertificateOrCertReq),
    ExpectCertificateRequest(tls13::ExpectCertificateRequest),
    ExpectCertificate(tls13::ExpectCertificate),
    ExpectCertificateVerify(tls13::ExpectCertificateVerify),
    ExpectFinished(tls13::ExpectFinished),
    ExpectTraffic(tls13::ExpectTraffic),
    ExpectQuicTraffic(tls13::ExpectQuicTraffic),
    Tls12(Tls12Handoff),
}

/// The fixed head of the offered extension types: versions, SNI, point
/// formats, groups, signature schemes, EMS, OCSP, then the optional SCT
/// request, key share, cookie, PSK modes and ALPN.
pub open spec fn spec_offered_base_types(
    support_versions: bool,
    sni: bool,
    sct: bool,
    has_key_share: bool,
    has_cookie: bool,
    psk_modes: bool,
    alpn: bool,
) -> Seq<ExtensionType> {
    (if support_versions {
        seq![ExtensionType::SupportedVersions]
    } else {
        Seq::empty()
    }) + (if sni {
        seq![ExtensionType::ServerName]
    } else {
        Seq::empty()
    }) + seq![
        ExtensionType::ECPointFormats,
        ExtensionType::SupportedGroups,
        ExtensionType::SignatureAlgorithms,
        ExtensionType::ExtendedMasterSecret,
        ExtensionType::StatusRequest,
    ] + (if sct {
        seq![ExtensionType::SCT]
    } else {
        Seq::empty()
    }) + (if has_key_share {
        seq![ExtensionType::KeyShare]
    } else {
        Seq::empty()
    }) + (if has_cookie {
        seq![ExtensionType::Cookie]
    } else {
        Seq::empty()
    }) + (if psk_modes {
        seq![ExtensionType::PSKKeyExchangeModes]
    } else {
        Seq::empty()
    }) + (if alpn {
        seq![ExtensionType::ALProtocolNegotiation]
    } else {
        Seq::empty()
    })
}

/// The extension types that close a ClientHello: the resumption pair
/// (EarlyData when 0-RTT applies, then PreSharedKey), or a
/// session-ticket request or offer, or nothing.
pub open spec fn spec_offered_tail_types(resume: bool, early: bool, ticket_fallback: bool) -> Seq<
    ExtensionType,
> {
    if resume {
        (if early {
            seq![ExtensionType::EarlyData]
        } else {
            Seq::empty()
        }) + seq![ExtensionType::PreSharedKey]
    } else if ticket_fallback {
        seq![ExtensionType::SessionTicket]
    } else {
        Seq::empty()
    }
}

/// The extension types a ClientHello offers, in their fixed order: the
/// head, then caller extras, and last either the resumption pair, a
/// session-ticket request or offer, or nothing.
pub open spec fn spec_offered_ext_types(
    support_versions: bool,
    sni: bool,
    sct: bool,
    has_key_share: bool,
    has_cookie: bool,
    psk_modes: bool,
    alpn: bool,
    extra: Seq<ExtensionType>,
    resume: bool,
    early: bool,
    ticket_fallback: bool,
) -> Seq<ExtensionType> {
    spec_offered_base_types(support_versions, sni, sct, has_key_share, has_cookie, psk_modes, alpn)
        + extra + spec_offered_tail_types(resume, early, ticket_fallback)
}

/// What each offered extension must carry, by kind.  Caller extras are
/// opaque and unconstrained.
#[verifier::opaque]
pub open spec fn spec_offered_payload_ok(
    e: ClientExtension,
    config: &ClientConfig,
    server_name: &ServerName,
    support_tls13: bool,
    support_tls12: bool,
    key_share: &Option<KeyExchange>,
    cookie: Option<Seq<u8>>,
    ticket: Seq<u8>,
    age: u32,
) -> bool {
    match e {
        ClientExtension::SupportedVersions(v) => v@ == (if support_tls13 {
            seq![ProtocolVersion::Tls13]
        } else {
            Seq::empty()
        }) + (if support_tls12 {
            seq![ProtocolVersion::Tls12]
        } else {
            Seq::empty()
        }),
        ClientExtension::ServerName(b) => server_name.spec_for_sni() == Some(b@),
        ClientExtension::EcPointFormats(f) => f@ == seq![crate::enums::ECPointFormat::Uncompressed],
        ClientExtension::NamedGroups(g) => g@ == config.kx_groups@,
        ClientExtension::SignatureAlgorithms(s) => s@ == config.verifier.schemes@,
        ClientExtension::ExtendedMasterSecretRequest => true,
        ClientExtension::CertificateStatusRequest => true,
        ClientExtension::SignedCertificateTimestampRequest => true,
        ClientExtension::KeyShare(entries) => {
            &&& *key_share is Some
            &&& entries@.len() == 1
            &&& entries@[0].group == key_share->Some_0.group
            &&& entries@[0].payload@ == key_share->Some_0.pubkey@
        },
        ClientExtension::Cookie(c) => cookie == Some(c@),
        ClientExtension::PresharedKeyModes(m) => m@ == seq![
            crate::enums::PskKeyExchangeMode::PskDheKe,
        ],
        ClientExtension::Protocols(p) => util::views_of(p@) == util::views_of(
            config.alpn_protocols@,
        ),
        ClientExtension::SessionTicketRequest => ticket.len() == 0,
        ClientExtension::SessionTicketOffer(t) => t@ == ticket && ticket.len() > 0,
        ClientExtension::EarlyData => true,
        ClientExtension::PresharedKey(offer) => {
            &&& offer.identities@.len() == 1
            &&& offer.identities@[0].identity@ == ticket
            &&& offer.identities@[0].obfuscated_ticket_age == age
            &&& offer.binders@.len() == 1
        },
        ClientExtension::Unknown(_) => true,
    }
}

/// The resumption suite a binder would be computed for: the cached
/// session's own TLS 1.3 suite, provided any suite fixed by a prior
/// HelloRetryRequest can resume from it.
pub open spec fn spec_fill_suite(
    resuming: &Option<ResolvedSession>,
    suite: &Option<SupportedCipherSuite>,
) -> Option<crate::suites::Tls13CipherSuite> {
    match *resuming {
        Some(rs) => match rs.supported_suite.spec_tls13() {
            Some(prev13) => match *suite {
                Some(s) => match s.spec_tls13() {
                    Some(s13) => if s13.spec_can_resume_from(rs.supported_suite) {
                        Some(prev13)
                    } else {
                        None
                    },
                    None => None,
                },
                None => Some(prev13),
            },
            None => None,
        },
        None => None,
    }
}

/// The per-variant invariants of a connection state.
pub open spec fn spec_next_state_wf(st: NextState) -> bool {
    match st {
        NextState::ExpectServerHello(s) => s.wf(),
        NextState::ExpectServerHelloOrHelloRetryRequest(s) => s.wf(),
        NextState::ExpectEncryptedExtensions(s) => s.wf(),
        NextState::ExpectCertificateOrCertReq(s) => s.wf(),
        NextState::ExpectCertificateRequest(s) => s.wf(),
        NextState::ExpectCertificate(s) => s.wf(),
        NextState::ExpectCertificateVerify(s) => s.wf(),
        NextState::ExpectFinished(s) => s.wf(),
        NextState::ExpectTraffic(s) => s.wf(),
        NextState::ExpectQuicTraffic(s) => s.wf(),
        NextState::Tls12(_) => true,
    }
}

/// Drive the state machine: each accepted message consumes the current
/// state and yields its successor; an error consumes the connection.
/// The TLS 1.2 state is a hand-off boundary: its handshake internals are
/// an external concern and no message is processed here.
pub fn handle(
    state: NextState,
    common: &mut ConnectionCommon,
    data: &mut ClientConnectionData,
    storage: &mut SessionStorage,
    m: Message,
    now: u64,
) -> (r: Result<NextState, Error>)
    requires
        spec_next_state_wf(state),
    ensures
        ({
            let quic = old(common).protocol == crate::conn::Protocol::Quic;
            let aligned = old(common).aligned;
            let early_enabled = old(data).early_data.spec_is_enabled();
            let early_traffic = old(common).early_traffic;
            match state {
                NextState::ExpectServerHello(s) => s.spec_accepts(
                    m,
                    early_enabled,
                    early_traffic,
                    aligned,
                ) ==> r is Ok,
                NextState::ExpectServerHelloOrHelloRetryRequest(s) => (
                m.spec_is_handshake_type(HandshakeType::ServerHello) && s.next.spec_accepts(
                    m,
                    early_enabled,
                    early_traffic,
                    aligned,
                ) ==> r is Ok) && (s.spec_accepts_hrr(m, aligned) ==> r is Ok || (
                s.spec_hrr_draws_fresh_share(m) && r == Err::<NextState, Error>(
                    Error::FailedToGetRandomBytes,
                ))),
                NextState::ExpectEncryptedExtensions(s) => s.spec_accepts(m) ==> r is Ok,
                NextState::ExpectCertificateOrCertReq(s) => s.spec_accepts(m) ==> r is Ok,
                NextState::ExpectCertificateRequest(s) => s.spec_accepts(m) ==> r is Ok,
                NextState::ExpectCertificate(s) => s.spec_accepts(m) ==> r is Ok,
                NextState::ExpectCertificateVerify(s) => s.spec_accepts(m) ==> r is Ok,
                NextState::ExpectFinished(s) => s.spec_accepts(m, aligned) ==> r is Ok,
                NextState::ExpectTraffic(s) => (s.spec_accepts(m, quic, aligned) ==> r is Ok)
                    && (r is Ok ==> r->Ok_0 is ExpectTraffic),
                NextState::ExpectQuicTraffic(_) => (m.spec_is_handshake_type(
                    HandshakeType::NewSessionTicket,
                ) ==> r is Ok) && (r is Ok ==> r->Ok_0 is ExpectQuicTraffic),
                NextState::Tls12(_) => r == Err::<NextState, Error>(Error::HandshakeNotComplete),
            }
        }),
{
    match state {
        NextState::ExpectServerHello(s) => s.handle(common, data, storage, m),
        NextState::ExpectServerHelloOrHelloRetryRequest(s) => s.handle(
            common,
            data,
            storage,
            m,
            now,
        ),
        NextState::ExpectEncryptedExtensions(s) => s.handle(common, data, m),
        NextState::ExpectCertificateOrCertReq(s) => s.handle(common, data, m),
        NextState::ExpectCertificateRequest(s) => s.handle(common, data, m),
        NextState::ExpectCertificate(s) => s.handle(common, data, m),
        NextState::ExpectCertificateVerify(s) => s.handle(common, data, m, now),
        NextState::ExpectFinished(s) => s.handle(common, data, m),
        NextState::ExpectTraffic(s) => {
            let mut s = s;
            match s.handle(common, data, storage, m, now) {
                Ok(_) => Ok(NextState::ExpectTraffic(s)),
                Err(e) => Err(e),
            }
        },
        NextState::ExpectQuicTraffic(s) => {
            let mut s = s;
            match s.handle(data, storage, m, now) {
                Ok(_) => Ok(NextState::ExpectQuicTraffic(s)),
                Err(e) => Err(e),
            }
        },
        NextState::Tls12(_) => Err(Error::HandshakeNotComplete),
    }
}

/// Did the cache entry under this server name expire by `now`?
pub open spec fn spec_session_expired(v: &persist::ClientSessionValue, now: u64) -> bool {
    v.lifetime != 0 && v.epoch + v.lifetime < now
}

/// Look up an unexpired cached session for `server_name` whose suite is
/// still configured.
pub fn find_session(
    server_name: &ServerName,
    config: &ClientConfig,
    storage: &SessionStorage,
    now: u64,
) -> (r: Option<ResolvedSession>)
    ensures
        ({
            let looked = persist::spec_lookup(
                storage.entries@,
                persist::spec_key_encoding(persist::KEY_TAG_SESSION, server_name),
            );
            match r {
                Some(rs) => {
                    &&& looked matches Some(StoredValue::Session(v))
                    &&& rs.wf()
                    &&& config.cipher_suites@.contains(rs.supported_suite)
                    &&& rs.value.cipher_suite == v.cipher_suite
                    &&& rs.value.version == v.version
                    &&& rs.value.ticket@ == v.ticket@
                    &&& rs.value.master_secret@ == v.master_secret@
                    &&& rs.value.session_id.bytes@ == v.session_id.bytes@
                    &&& util::views_of(rs.value.server_cert_chain@) == util::views_of(
                        v.server_cert_chain@,
                    )
                    &&& rs.value.epoch == v.epoch
                    &&& rs.value.lifetime == v.lifetime
                    &&& rs.value.age_add == v.age_add
                    &&& rs.value.max_early_data_size == v.max_early_data_size
                    &&& rs.time_retrieved == now
                    &&& !rs.spec_has_expired()
                },
                None => match looked {
                    Some(StoredValue::Session(v)) => spec_session_expired(&v, now) || (forall|
                        i: int,
                    |
                        0 <= i < config.cipher_suites@.len() ==> !(
                        #[trigger] config.cipher_suites@[i].spec_suite() == v.cipher_suite
                            && config.cipher_suites@[i].spec_version() == v.version)),
                    Some(StoredValue::KxHint(_)) => true,
                    None => true,
                },
            }
        }),
{
    let key = ClientSessionKey::session_for_server_name(server_name);
    let key_buf = key.get_encoding();

    let value = match storage.get(&key_buf) {
        Some(StoredValue::Session(v)) => v,
        _ => {
            return None;
        },
    };

    match ResolvedSession::resolve_cipher_suite(value, &config.cipher_suites, now) {
        Some(resolved) => {
            if resolved.has_expired() {
                None
            } else {
                Some(resolved)
            }
        },
        None => None,
    }
}

/// Assemble the fixed head of the extension list: versions, SNI, point
/// formats, groups, signature schemes, EMS, OCSP, and the optional SCT
/// request, key share, cookie, PSK modes and ALPN.
#[verifier::rlimit(100)]
#[verifier::spinoff_prover]
fn build_base_extensions(
    config: &ClientConfig,
    server_name: &ServerName,
    key_share: &Option<KeyExchange>,
    cookie: Option<Vec<u8>>,
    may_send_sct_list: bool,
    support_tls13: bool,
    support_tls12: bool,
    tkt: Ghost<Seq<u8>>,
    age: Ghost<u32>,
) -> (r: Vec<ClientExtension>)
    ensures
        crate::msgs::spec_client_ext_types(r@) == spec_offered_base_types(
            support_tls13 || support_tls12,
            server_name.spec_for_sni() is Some && config.enable_sni,
            may_send_sct_list,
            *key_share is Some,
            cookie is Some,
            support_tls13 && config.enable_tickets,
            config.alpn_protocols@.len() > 0,
        ),
        forall|j: int|
            0 <= j < r@.len() ==> spec_offered_payload_ok(
                #[trigger] r@[j],
                config,
                server_name,
                support_tls13,
                support_tls12,
                key_share,
                match cookie {
                    Some(c) => Some(c@),
                    None => None::<Seq<u8>>,
                },
                tkt@,
                age@,
            ),
{
    broadcast use crate::msgs::lemma_client_ext_types_push;
    broadcast use util::lemma_seq_add_empty_right;
    broadcast use util::lemma_seq_add_empty_left;
    broadcast use util::lemma_seq_add_singleton;

    let ghost cookie_spec = match &cookie {
        Some(c) => Some(c@),
        None => None::<Seq<u8>>,
    };
    let ghost ticket_spec = tkt@;
    let ghost age_spec = age@;
    proof {
        assert(crate::msgs::spec_client_ext_types(Seq::<ClientExtension>::empty())
            =~= Seq::<ExtensionType>::empty());
    }

    let mut supported_versions: Vec<ProtocolVersion> = Vec::new();
    if support_tls13 {
        supported_versions.push(ProtocolVersion::Tls13);
    }
    if support_tls12 {
        supported_versions.push(ProtocolVersion::Tls12);
    }
    proof {
        assert(supported_versions@ =~= (if support_tls13 {
            seq![ProtocolVersion::Tls13]
        } else {
            Seq::<ProtocolVersion>::empty()
        }) + (if support_tls12 {
            seq![ProtocolVersion::Tls12]
        } else {
            Seq::<ProtocolVersion>::empty()
        }));
    }

    let mut exts: Vec<ClientExtension> = Vec::new();
    let ghost mut ts: Seq<ExtensionType> = Seq::empty();

    let offer_versions = supported_versions.len() > 0;
    proof {
        assert(offer_versions == (support_tls13 || support_tls12));
    }
    if offer_versions {
        exts.push(ClientExtension::SupportedVersions(supported_versions));
    }
    proof {
        ts = ts + (if support_tls13 || support_tls12 {
            seq![ExtensionType::SupportedVersions]
        } else {
            Seq::<ExtensionType>::empty()
        });
        assert(crate::msgs::spec_client_ext_types(exts@) == ts);
        assert(forall|j: int|
            0 <= j < exts@.len() ==> spec_offered_payload_ok(
                #[trigger] exts@[j],
                config,
                server_name,
                support_tls13,
                support_tls12,
                key_share,
                cookie_spec,
                ticket_spec,
                age_spec,
            )) by {
            reveal(spec_offered_payload_ok);
        }
    }

    let sni_name = server_name.for_sni();
    let use_sni = config.enable_sni && match &sni_name {
        Some(_) => true,
        None => false,
    };
    if use_sni {
        match sni_name {
            Some(name_bytes) => {
                exts.push(ClientExtension::ServerName(name_bytes));
            },
            None => {
                proof {
                    assert(false);
                }
            },
        }
    }
    proof {
        ts = ts + (if server_name.spec_for_sni() is Some && config.enable_sni {
            seq![ExtensionType::ServerName]
        } else {
            Seq::<ExtensionType>::empty()
        });
        assert(crate::msgs::spec_client_ext_types(exts@) == ts);
        assert(forall|j: int|
            0 <= j < exts@.len() ==> spec_offered_payload_ok(
                #[trigger] exts@[j],
                config,
                server_name,
                support_tls13,
                support_tls12,
                key_share,
                cookie_spec,
                ticket_spec,
                age_spec,
            )) by {
            reveal(spec_offered_payload_ok);
        }
    }

    let mut point_formats: Vec<crate::enums::ECPointFormat> = Vec::new();
    point_formats.push(crate::enums::ECPointFormat::Uncompressed);
    exts.push(ClientExtension::EcPointFormats(point_formats));

    let mut groups: Vec<crate::enums::NamedGroup> = Vec::new();
    let mut gi: usize = 0;
    while gi < config.kx_groups.len()
        invariant
            gi <= config.kx_groups@.len(),
            groups@ == config.kx_groups@.take(gi as int),
        decreases config.kx_groups@.len() - gi,
    {
        groups.push(config.kx_groups[gi]);
        proof {
            assert(config.kx_groups@.take(gi + 1) =~= config.kx_groups@.take(gi as int).push(
                config.kx_groups@[gi as int],
            ));
        }
        gi = gi + 1;
    }
    proof {
        assert(config.kx_groups@.take(config.kx_groups@.len() as int) =~= config.kx_groups@);
    }
    exts.push(ClientExtension::NamedGroups(groups));

    exts.push(ClientExtension::SignatureAlgorithms(config.verifier.supported_verify_schemes()));
    exts.push(ClientExtension::ExtendedMasterSecretRequest);
    exts.push(ClientExtension::CertificateStatusRequest);
    proof {
        ts = ts + seq![
            ExtensionType::ECPointFormats,
            ExtensionType::SupportedGroups,
            ExtensionType::SignatureAlgorithms,
            ExtensionType::ExtendedMasterSecret,
            ExtensionType::StatusRequest,
        ];
        assert(crate::msgs::spec_client_ext_types(exts@) =~= ts);
        assert(forall|j: int|
            0 <= j < exts@.len() ==> spec_offered_payload_ok(
                #[trigger] exts@[j],
                config,
                server_name,
                support_tls13,
                support_tls12,
                key_share,
                cookie_spec,
                ticket_spec,
                age_spec,
            )) by {
            reveal(spec_offered_payload_ok);
        }
    }

    if may_send_sct_list {
        exts.push(ClientExtension::SignedCertificateTimestampRequest);
    }
    proof {
        ts = ts + (if may_send_sct_list {
            seq![ExtensionType::SCT]
        } else {
            Seq::<ExtensionType>::empty()
        });
        assert(crate::msgs::spec_client_ext_types(exts@) == ts);
        assert(forall|j: int|
            0 <= j < exts@.len() ==> spec_offered_payload_ok(
                #[trigger] exts@[j],
                config,
                server_name,
                support_tls13,
                support_tls12,
                key_share,
                cookie_spec,
                ticket_spec,
                age_spec,
            )) by {
            reveal(spec_offered_payload_ok);
        }
    }

    match key_share {
        Some(ks) => {
            let mut entries: Vec<crate::msgs::KeyShareEntry> = Vec::new();
            entries.push(
                crate::msgs::KeyShareEntry {
                    group: ks.group,
                    payload: util::copy_bytes(&ks.pubkey),
                },
            );
            exts.push(ClientExtension::KeyShare(entries));
        },
        None => {},
    }
    proof {
        ts = ts + (if *key_share is Some {
            seq![ExtensionType::KeyShare]
        } else {
            Seq::<ExtensionType>::empty()
        });
        assert(crate::msgs::spec_client_ext_types(exts@) == ts);
        assert(forall|j: int|
            0 <= j < exts@.len() ==> spec_offered_payload_ok(
                #[trigger] exts@[j],
                config,
                server_name,
                support_tls13,
                support_tls12,
                key_share,
                cookie_spec,
                ticket_spec,
                age_spec,
            )) by {
            reveal(spec_offered_payload_ok);
        }
    }

    match cookie {
        Some(c) => {
            exts.push(ClientExtension::Cookie(c));
        },
        None => {},
    }
    proof {
        ts = ts + (if cookie_spec is Some {
            seq![ExtensionType::Cookie]
        } else {
            Seq::<ExtensionType>::empty()
        });
        assert(crate::msgs::spec_client_ext_types(exts@) == ts);
        assert(forall|j: int|
            0 <= j < exts@.len() ==> spec_offered_payload_ok(
                #[trigger] exts@[j],
                config,
                server_name,
                support_tls13,
                support_tls12,
                key_share,
                cookie_spec,
                ticket_spec,
                age_spec,
            )) by {
            reveal(spec_offered_payload_ok);
        }
    }

    let offer_psk_modes = support_tls13 && config.enable_tickets;
    if offer_psk_modes {
        let mut modes: Vec<crate::enums::PskKeyExchangeMode> = Vec::new();
        modes.push(crate::enums::PskKeyExchangeMode::PskDheKe);
        proof {
            assert(modes@ =~= seq![crate::enums::PskKeyExchangeMode::PskDheKe]);
        }
        exts.push(ClientExtension::PresharedKeyModes(modes));
    }
    proof {
        ts = ts + (if support_tls13 && config.enable_tickets {
            seq![ExtensionType::PSKKeyExchangeModes]
        } else {
            Seq::<ExtensionType>::empty()
        });
        assert(crate::msgs::spec_client_ext_types(exts@) == ts);
        assert(forall|j: int|
            0 <= j < exts@.len() ==> spec_offered_payload_ok(
                #[trigger] exts@[j],
                config,
                server_name,
                support_tls13,
                support_tls12,
                key_share,
                cookie_spec,
                ticket_spec,
                age_spec,
            )) by {
            reveal(spec_offered_payload_ok);
        }
    }

    let offer_alpn = config.alpn_protocols.len() > 0;
    if offer_alpn {
        exts.push(ClientExtension::Protocols(util::copy_bytes_list(&config.alpn_protocols)));
    }
    proof {
        ts = ts + (if config.alpn_protocols@.len() > 0 {
            seq![ExtensionType::ALProtocolNegotiation]
        } else {
            Seq::<ExtensionType>::empty()
        });
        assert(crate::msgs::spec_client_ext_types(exts@) == ts);
        assert(forall|j: int|
            0 <= j < exts@.len() ==> spec_offered_payload_ok(
                #[trigger] exts@[j],
                config,
                server_name,
                support_tls13,
                support_tls12,
                key_share,
                cookie_spec,
                ticket_spec,
                age_spec,
            )) by {
            reveal(spec_offered_payload_ok);
        }
        assert(ts == spec_offered_base_types(
            support_tls13 || support_tls12,
            server_name.spec_for_sni() is Some && config.enable_sni,
            may_send_sct_list,
            *key_share is Some,
            cookie_spec is Some,
            support_tls13 && config.enable_tickets,
            config.alpn_protocols@.len() > 0,
        ));
    }
    exts
}

/// Assemble the offered extension list in its fixed order, including any
/// resumption offer (whose binder is still zeroed), and decide the
/// resumption suite.
#[verifier::rlimit(100)]
#[verifier::spinoff_prover]
fn build_hello_extensions(
    config: &ClientConfig,
    data: &mut ClientConnectionData,
    resuming_session: &Option<ResolvedSession>,
    ticket: Vec<u8>,
    resume_version: ProtocolVersion,
    support_tls13: bool,
    support_tls12: bool,
    server_name: &ServerName,
    key_share: &Option<KeyExchange>,
    cookie: Option<Vec<u8>>,
    extra_exts: &Vec<ClientExtension>,
    may_send_sct_list: bool,
    suite: &Option<SupportedCipherSuite>,
    doing_retry: bool,
    now: u64,
) -> (r: (Vec<ClientExtension>, Option<crate::suites::Tls13CipherSuite>))
    requires
        match *resuming_session {
            Some(rs) => ticket@ == rs.value.ticket@ && resume_version == rs.value.version,
            None => ticket@.len() == 0,
        },
        forall|i: int|
            0 <= i < extra_exts@.len() ==> (#[trigger] extra_exts@[i]) matches
                ClientExtension::Unknown(_),
    ensures
        ({
            let sni = server_name.spec_for_sni() is Some && config.enable_sni;
            let cookie_spec = match cookie {
                Some(c) => Some(c@),
                None => None::<Seq<u8>>,
            };
            let psk_modes = support_tls13 && config.enable_tickets;
            let alpn = config.alpn_protocols@.len() > 0;
            let ticket_view = match *resuming_session {
                Some(rs) => rs.value.ticket@,
                None => Seq::<u8>::empty(),
            };
            let age = match *resuming_session {
                Some(rs) => rs.spec_obfuscated_ticket_age(now),
                None => 0u32,
            };
            let rs_ok = support_tls13 && config.enable_tickets && *resuming_session is Some
                && resuming_session->Some_0.value.version == ProtocolVersion::Tls13
                && ticket_view.len() > 0;
            let fill_suite = spec_fill_suite(resuming_session, suite);
            let resume = rs_ok && fill_suite is Some;
            let early = resume && tls13::spec_enables_early_data(
                config,
                &resuming_session->Some_0,
                doing_retry,
            );
            &&& r.1 == fill_suite
            &&& crate::msgs::spec_client_ext_types(r.0@) == spec_offered_ext_types(
                support_tls13 || support_tls12,
                sni,
                may_send_sct_list,
                *key_share is Some,
                cookie is Some,
                psk_modes,
                alpn,
                crate::msgs::spec_client_ext_types(extra_exts@),
                resume,
                early,
                config.enable_tickets && !resume,
            )
            &&& forall|j: int|
                0 <= j < r.0@.len() ==> spec_offered_payload_ok(
                    #[trigger] r.0@[j],
                    config,
                    server_name,
                    support_tls13,
                    support_tls12,
                    key_share,
                    cookie_spec,
                    ticket_view,
                    age,
                )
            &&& resume ==> ({
                &&& r.0@.len() > 0
                &&& r.0@.last() matches ClientExtension::PresharedKey(_)
            })
            &&& *final(data) == (ClientConnectionData {
                early_data: final(data).early_data,
                resumption_ciphersuite: final(data).resumption_ciphersuite,
                ..*old(data)
            })
            &&& resume ==> final(data).resumption_ciphersuite == Some(
                SupportedCipherSuite::Tls13(fill_suite->Some_0),
            )
            &&& !resume ==> *final(data) == *old(data)
            &&& early ==> final(data).early_data.state == crate::conn::EarlyDataState::Ready
                && final(data).early_data.max_size
                == resuming_session->Some_0.value.max_early_data_size
            &&& !early ==> final(data).early_data == old(data).early_data
        }),
{
    broadcast use crate::msgs::lemma_client_ext_types_push;

    let ghost cookie_spec = match &cookie {
        Some(c) => Some(c@),
        None => None::<Seq<u8>>,
    };
    let ghost ticket_spec = ticket@;
    let ghost age_spec = match resuming_session {
        Some(rs) => rs.spec_obfuscated_ticket_age(now),
        None => 0u32,
    };

    let ghost base_ts = spec_offered_base_types(
        support_tls13 || support_tls12,
        server_name.spec_for_sni() is Some && config.enable_sni,
        may_send_sct_list,
        *key_share is Some,
        cookie is Some,
        support_tls13 && config.enable_tickets,
        config.alpn_protocols@.len() > 0,
    );
    let mut exts: Vec<ClientExtension> = build_base_extensions(
        config,
        server_name,
        key_share,
        cookie,
        may_send_sct_list,
        support_tls13,
        support_tls12,
        Ghost(ticket_spec),
        Ghost(age_spec),
    );
    let ghost mut ts: Seq<ExtensionType> = base_ts;

    let extra_copy = crate::msgs::copy_client_exts(extra_exts);
    let ghost pre_extra_ts = ts;
    proof {
        assert(pre_extra_ts + crate::msgs::spec_client_ext_types(extra_exts@).take(0)
            =~= pre_extra_ts);
    }
    let mut xi: usize = 0;
    while xi < extra_copy.len()
        invariant
            xi <= extra_copy@.len(),
            extra_copy@.len() == extra_exts@.len(),
            forall|i: int|
                0 <= i < extra_exts@.len() ==> crate::msgs::spec_client_ext_matches(
                    extra_exts@[i],
                    #[trigger] extra_copy@[i],
                ),
            forall|i: int|
                0 <= i < extra_exts@.len() ==> (#[trigger] extra_exts@[i]) matches
                    ClientExtension::Unknown(_),
            ts == pre_extra_ts + crate::msgs::spec_client_ext_types(extra_exts@).take(xi as int),
            crate::msgs::spec_client_ext_types(exts@) == ts,
            forall|j: int|
                0 <= j < exts@.len() ==> spec_offered_payload_ok(
                    #[trigger] exts@[j],
                    config,
                    server_name,
                    support_tls13,
                    support_tls12,
                    key_share,
                    cookie_spec,
                    ticket_spec,
                    age_spec,
                ),
        decreases extra_copy@.len() - xi,
    {
        proof {
            assert(extra_exts@[xi as int] matches ClientExtension::Unknown(_));
            assert(crate::msgs::spec_client_ext_matches(
                extra_exts@[xi as int],
                extra_copy@[xi as int],
            ));
        }
        let e = crate::msgs::copy_client_ext(&extra_copy[xi]);
        exts.push(e);
        proof {
            ts = ts.push(extra_copy@[xi as int].spec_get_type());
            assert(crate::msgs::spec_client_ext_types(exts@) == ts);
            assert(exts@.last() matches ClientExtension::Unknown(_));
            assert(spec_offered_payload_ok(
                exts@.last(),
                config,
                server_name,
                support_tls13,
                support_tls12,
                key_share,
                cookie_spec,
                ticket_spec,
                age_spec,
            )) by {
                reveal(spec_offered_payload_ok);
            }
            assert(crate::msgs::spec_client_ext_types(extra_exts@).take(xi + 1)
                =~= crate::msgs::spec_client_ext_types(extra_exts@).take(xi as int).push(
                extra_exts@[xi as int].spec_get_type(),
            ));
        }
        xi = xi + 1;
    }
    proof {
        assert(crate::msgs::spec_client_ext_types(extra_exts@).take(extra_exts@.len() as int)
            =~= crate::msgs::spec_client_ext_types(extra_exts@));
    }

    let rs_ok = support_tls13 && config.enable_tickets && ticket.len() > 0 && (
    resume_version == ProtocolVersion::Tls13);

    let mut fill_suite_opt: Option<crate::suites::Tls13CipherSuite> = None;
    match resuming_session {
        Some(rs) => {
            match rs.supported_cipher_suite().tls13() {
                Some(prev13) => {
                    match suite {
                        Some(s) => {
                            match s.tls13() {
                                Some(s13) => {
                                    if s13.can_resume_from(rs.supported_cipher_suite()) {
                                        fill_suite_opt = Some(prev13);
                                    }
                                },
                                None => {},
                            }
                        },
                        None => {
                            fill_suite_opt = Some(prev13);
                        },
                    }
                },
                None => {},
            }
        },
        None => {},
    }
    proof {
        assert(fill_suite_opt == spec_fill_suite(resuming_session, suite));
    }

    let resume = rs_ok && match fill_suite_opt {
        Some(_) => true,
        None => false,
    };

    let ghost enables_early = match resuming_session {
        Some(rs) => tls13::spec_enables_early_data(config, rs, doing_retry),
        None => false,
    };

    if resume {
        match (resuming_session, fill_suite_opt) {
            (Some(rs), Some(fill_suite)) => {
                tls13::prepare_resumption(
                    config,
                    data,
                    ticket,
                    rs,
                    fill_suite,
                    &mut exts,
                    doing_retry,
                    now,
                );
                proof {
                    if enables_early {
                        ts = ts.push(ExtensionType::EarlyData).push(ExtensionType::PreSharedKey);
                    } else {
                        ts = ts.push(ExtensionType::PreSharedKey);
                    }
                    assert(crate::msgs::spec_client_ext_types(exts@) =~= ts);
                    if enables_early {
                        assert(spec_offered_payload_ok(
                            exts@[exts@.len() - 2],
                            config,
                            server_name,
                            support_tls13,
                            support_tls12,
                            key_share,
                            cookie_spec,
                            ticket_spec,
                            age_spec,
                        )) by {
                            reveal(spec_offered_payload_ok);
                        }
                    }
                    assert(spec_offered_payload_ok(
                        exts@.last(),
                        config,
                        server_name,
                        support_tls13,
                        support_tls12,
                        key_share,
                        cookie_spec,
                        ticket_spec,
                        age_spec,
                    )) by {
                        reveal(spec_offered_payload_ok);
                    }
                    assert(forall|j: int|
                        0 <= j < exts@.len() ==> spec_offered_payload_ok(
                            #[trigger] exts@[j],
                            config,
                            server_name,
                            support_tls13,
                            support_tls12,
                            key_share,
                            cookie_spec,
                            ticket_spec,
                            age_spec,
                        ));
                }
            },
            _ => {
                proof {
                    assert(false);
                }
            },
        }
    } else if config.enable_tickets {
        if ticket.len() == 0 {
            exts.push(ClientExtension::SessionTicketRequest);
        } else {
            exts.push(ClientExtension::SessionTicketOffer(ticket));
        }
        proof {
            ts = ts.push(ExtensionType::SessionTicket);
            assert(crate::msgs::spec_client_ext_types(exts@) == ts);
            assert(forall|j: int|
                0 <= j < exts@.len() ==> spec_offered_payload_ok(
                    #[trigger] exts@[j],
                    config,
                    server_name,
                    support_tls13,
                    support_tls12,
                    key_share,
                    cookie_spec,
                    ticket_spec,
                    age_spec,
                )) by {
                reveal(spec_offered_payload_ok);
            }
        }
    }

    proof {
        assert(forall|j: int|
            0 <= j < exts@.len() ==> spec_offered_payload_ok(
                #[trigger] exts@[j],
                config,
                server_name,
                support_tls13,
                support_tls12,
                key_share,
                cookie_spec,
                ticket_spec,
                age_spec,
            ));
        assert(ts =~= spec_offered_ext_types(
            support_tls13 || support_tls12,
            server_name.spec_for_sni() is Some && config.enable_sni,
            may_send_sct_list,
            *key_share is Some,
            cookie_spec is Some,
            support_tls13 && config.enable_tickets,
            config.alpn_protocols@.len() > 0,
            crate::msgs::spec_client_ext_types(extra_exts@),
            resume,
            resume && enables_early,
            config.enable_tickets && !resume,
        ));
    }


    proof {
        if resuming_session is None {
            assert(ticket_spec =~= Seq::<u8>::empty());
        }
    }
    (exts, fill_suite_opt)
}

/// Assemble the ClientHello payload from the prepared extension list and
/// fill in the trailing PSK binder when resuming.
#[verifier::rlimit(100)]
#[verifier::spinoff_prover]
fn build_client_hello_payload(
    config: &ClientConfig,
    resuming_session: &Option<ResolvedSession>,
    server_name: &ServerName,
    key_share: &Option<KeyExchange>,
    random: &Vec<u8>,
    session_id_val: &SessionId,
    exts: Vec<ClientExtension>,
    fill_suite_opt: Option<crate::suites::Tls13CipherSuite>,
    resume: bool,
    transcript_buffer: &HandshakeHashBuffer,
    support_tls13: bool,
    support_tls12: bool,
    cookie_spec: Ghost<Option<Seq<u8>>>,
    now: u64,
) -> (r: (crate::msgs::ClientHelloPayload, Option<KeyScheduleEarly>))
    requires
        transcript_buffer.wf(),
        resume ==> *resuming_session is Some && fill_suite_opt is Some,
        resume ==> exts@.len() > 0 && exts@.last() matches ClientExtension::PresharedKey(_),
        forall|j: int|
            0 <= j < exts@.len() ==> spec_offered_payload_ok(
                #[trigger] exts@[j],
                config,
                server_name,
                support_tls13,
                support_tls12,
                key_share,
                cookie_spec@,
                match *resuming_session {
                    Some(rs) => rs.value.ticket@,
                    None => Seq::<u8>::empty(),
                },
                match *resuming_session {
                    Some(rs) => rs.spec_obfuscated_ticket_age(now),
                    None => 0u32,
                },
            ),
    ensures
        ({
            let chp = r.0;
            &&& chp.client_version == ProtocolVersion::Tls12
            &&& chp.random@ == random@
            &&& chp.session_id.bytes@ == session_id_val.bytes@
            &&& chp.cipher_suites@ == config.cipher_suites@.map_values(
                |s: SupportedCipherSuite| s.spec_suite(),
            ).push(crate::enums::CipherSuite::Scsv)
            &&& chp.compression_methods@ == seq![crate::enums::Compression::Null]
            &&& crate::msgs::spec_client_ext_types(chp.extensions@)
                == crate::msgs::spec_client_ext_types(exts@)
            &&& forall|j: int|
                0 <= j < chp.extensions@.len() ==> spec_offered_payload_ok(
                    #[trigger] chp.extensions@[j],
                    config,
                    server_name,
                    support_tls13,
                    support_tls12,
                    key_share,
                    cookie_spec@,
                    match *resuming_session {
                        Some(rs) => rs.value.ticket@,
                        None => Seq::<u8>::empty(),
                    },
                    match *resuming_session {
                        Some(rs) => rs.spec_obfuscated_ticket_age(now),
                        None => 0u32,
                    },
                )
            &&& resume ==> ({
                &&& chp.extensions@.len() > 0
                &&& chp.extensions@.last() matches ClientExtension::PresharedKey(offer)
                    && offer.binders@.len() == 1 && offer.binders@[0]@ == tls13::spec_psk_binder(
                    resuming_session->Some_0.value.master_secret@,
                    fill_suite_opt->Some_0,
                    transcript_buffer.msgs@,
                )
            })
            &&& !resume ==> chp.extensions@ == exts@
            &&& resume ==> ({
                &&& r.1 matches Some(ks) && ks.secret@ == crate::key_schedule::spec_early_secret(
                    resuming_session->Some_0.value.master_secret@,
                )
            })
            &&& !resume ==> r.1 is None
        }),
{
    let mut cipher_suites: Vec<crate::enums::CipherSuite> = Vec::new();
    let mut ci: usize = 0;
    while ci < config.cipher_suites.len()
        invariant
            ci <= config.cipher_suites@.len(),
            cipher_suites@ == config.cipher_suites@.map_values(
                |s: SupportedCipherSuite| s.spec_suite(),
            ).take(ci as int),
        decreases config.cipher_suites@.len() - ci,
    {
        cipher_suites.push(config.cipher_suites[ci].suite());
        proof {
            assert(config.cipher_suites@.map_values(
                |s: SupportedCipherSuite| s.spec_suite(),
            ).take(ci + 1) =~= config.cipher_suites@.map_values(
                |s: SupportedCipherSuite| s.spec_suite(),
            ).take(ci as int).push(config.cipher_suites@[ci as int].spec_suite()));
        }
        ci = ci + 1;
    }
    proof {
        assert(config.cipher_suites@.map_values(|s: SupportedCipherSuite| s.spec_suite()).take(
            config.cipher_suites@.len() as int,
        ) =~= config.cipher_suites@.map_values(|s: SupportedCipherSuite| s.spec_suite()));
    }
    cipher_suites.push(crate::enums::CipherSuite::Scsv);

    let mut compressions: Vec<crate::enums::Compression> = Vec::new();
    compressions.push(crate::enums::Compression::Null);

    let ghost pre_fill_exts = exts@;
    let mut chp = crate::msgs::ClientHelloPayload {
        client_version: ProtocolVersion::Tls12,
        random: util::copy_bytes(random),
        session_id: session_id_val.duplicate(),
        cipher_suites,
        compression_methods: compressions,
        extensions: exts,
    };

    let mut early_key_schedule: Option<KeyScheduleEarly> = None;
    if resume {
        match (resuming_session, fill_suite_opt) {
            (Some(rs), Some(fill_suite)) => {
                let schedule = tls13::fill_in_psk_binder(
                    rs,
                    fill_suite,
                    &transcript_buffer,
                    &mut chp,
                );
                early_key_schedule = Some(schedule);
                proof {
                    assert(crate::msgs::spec_client_ext_types(chp.extensions@)
                        =~= crate::msgs::spec_client_ext_types(pre_fill_exts));
                    assert(forall|j: int|
                        0 <= j < chp.extensions@.len() - 1 ==> #[trigger] chp.extensions@[j]
                            == pre_fill_exts[j]);
                    assert(spec_offered_payload_ok(
                        pre_fill_exts.last(),
                        config,
                        server_name,
                        support_tls13,
                        support_tls12,
                        key_share,
                        cookie_spec@,
                        match *resuming_session {
                            Some(rs2) => rs2.value.ticket@,
                            None => Seq::<u8>::empty(),
                        },
                        match *resuming_session {
                            Some(rs2) => rs2.spec_obfuscated_ticket_age(now),
                            None => 0u32,
                        },
                    ));
                    assert(spec_offered_payload_ok(
                        chp.extensions@.last(),
                        config,
                        server_name,
                        support_tls13,
                        support_tls12,
                        key_share,
                        cookie_spec@,
                        match *resuming_session {
                            Some(rs2) => rs2.value.ticket@,
                            None => Seq::<u8>::empty(),
                        },
                        match *resuming_session {
                            Some(rs2) => rs2.spec_obfuscated_ticket_age(now),
                            None => 0u32,
                        },
                    )) by {
                        reveal(spec_offered_payload_ok);
                    }
                    assert(forall|j: int|
                        0 <= j < chp.extensions@.len() ==> spec_offered_payload_ok(
                            #[trigger] chp.extensions@[j],
                            config,
                            server_name,
                            support_tls13,
                            support_tls12,
                            key_share,
                            cookie_spec@,
                            match *resuming_session {
                                Some(rs2) => rs2.value.ticket@,
                                None => Seq::<u8>::empty(),
                            },
                            match *resuming_session {
                                Some(rs2) => rs2.spec_obfuscated_ticket_age(now),
                                None => 0u32,
                            },
                        ));
                }
            },
            _ => {
                proof {
                    assert(false);
                }
            },
        }
    }


    (chp, early_key_schedule)
}

/// Send the assembled ClientHello: on a retry the fake ChangeCipherSpec
/// goes first if still owed; the hello enters the transcript; and when
/// 0-RTT applies the early traffic key is derived and installed (the
/// fake ChangeCipherSpec then follows the hello if still owed).  Returns
/// the grown transcript and the ChangeCipherSpec flag.
#[verifier::rlimit(100)]
#[verifier::spinoff_prover]
fn send_client_hello_flight(
    common: &mut ConnectionCommon,
    data: &mut ClientConnectionData,
    transcript_buffer: HandshakeHashBuffer,
    chp: crate::msgs::ClientHelloPayload,
    doing_retry: bool,
    sent_tls13_fake_ccs: bool,
    early_key_schedule: &Option<KeyScheduleEarly>,
    fill_suite_opt: Option<crate::suites::Tls13CipherSuite>,
) -> (r: (HandshakeHashBuffer, bool))
    requires
        transcript_buffer.wf(),
        *early_key_schedule is Some ==> fill_suite_opt is Some,
    ensures
        ({
            let quic = old(common).protocol == Protocol::Quic;
            let early_now = *early_key_schedule is Some && old(data).early_data.spec_is_enabled();
            let flag1 = if doing_retry && !quic {
                true
            } else {
                sent_tls13_fake_ccs
            };
            let ccs_pre = doing_retry && !quic && !sent_tls13_fake_ccs;
            let ccs_post = early_now && !quic && !flag1;
            let flag2 = if early_now && !quic {
                true
            } else {
                flag1
            };
            let ch_idx = old(common).sent@.len() + (if ccs_pre {
                1int
            } else {
                0int
            });
            let ch_msg = Message {
                version: if doing_retry {
                    ProtocolVersion::Tls12
                } else {
                    ProtocolVersion::Tls10
                },
                payload: MessagePayload::Handshake(HandshakePayload::ClientHello(chp)),
            };
            &&& r.0.wf()
            &&& r.0.msgs@ == transcript_buffer.msgs@.push(HandshakePayload::ClientHello(chp))
            &&& r.1 == flag2
            &&& final(common).sent@.len() == ch_idx + 1 + (if ccs_post {
                1int
            } else {
                0int
            })
            &&& forall|i: int|
                0 <= i < old(common).sent@.len() ==> final(common).sent@[i] == old(common).sent@[i]
            &&& ccs_pre ==> final(common).sent@[old(common).sent@.len() as int].msg
                == tls13::spec_fake_ccs_message() && !final(common).sent@[old(common).sent@.len() as int].encrypted
            &&& ccs_post ==> final(common).sent@[ch_idx + 1].msg == tls13::spec_fake_ccs_message()
                && !final(common).sent@[ch_idx + 1].encrypted
            &&& final(common).sent@[ch_idx].msg == ch_msg
            &&& !final(common).sent@[ch_idx].encrypted
            &&& *final(data) == *old(data)
            &&& *final(common) == (ConnectionCommon {
                sent: final(common).sent,
                record_layer: final(common).record_layer,
                early_traffic: final(common).early_traffic,
                ..*old(common)
            })
            &&& final(common).record_layer.decrypter == old(common).record_layer.decrypter
            &&& early_now ==> final(common).early_traffic && (
            final(common).record_layer.encrypter matches Some(k) && k.suite == fill_suite_opt->Some_0
                && k.secret@ == tls13::spec_early_traffic_secret(
                early_key_schedule->Some_0.secret@,
                fill_suite_opt->Some_0,
                r.0.msgs@,
            ))
            &&& !early_now ==> final(common).early_traffic == old(common).early_traffic && final(common).record_layer == old(common).record_layer
        }),
{
    let ch = Message {
        version: if doing_retry {
            ProtocolVersion::Tls12
        } else {
            ProtocolVersion::Tls10
        },
        payload: MessagePayload::Handshake(HandshakePayload::ClientHello(chp)),
    };

    let mut ccs_flag = sent_tls13_fake_ccs;
    if doing_retry {
        tls13::emit_fake_ccs(&mut ccs_flag, common);
    }

    let mut transcript_buffer = transcript_buffer;
    transcript_buffer.add_message(&ch);
    common.send_msg(ch, false);

    match (early_key_schedule, fill_suite_opt) {
        (Some(schedule), Some(fill_suite)) => {
            if data.early_data.is_enabled() {
                tls13::derive_early_traffic_secret(
                    common,
                    fill_suite,
                    schedule,
                    &mut ccs_flag,
                    &transcript_buffer,
                );
            }
        },
        _ => {},
    }

    (transcript_buffer, ccs_flag)
}

/// Assemble and send a ClientHello — the first, or the one a
/// HelloRetryRequest asked for — and move to waiting for the server.
///
/// The offered extensions follow the fixed order of
/// `spec_offered_ext_types`; the suite list ends with the
/// renegotiation-refusal pseudo-suite; the legacy client version is
/// always TLS 1.2, the record version TLS 1.0 for a first hello and TLS
/// 1.2 after a retry.  On a retry the fake ChangeCipherSpec precedes the
/// hello if still owed.  A resumption offer ends the extension list with
/// a PSK whose binder signs the transcript plus the truncated hello, and
/// 0-RTT, when enabled, installs the early traffic key.
#[verifier::rlimit(100)]
#[verifier::spinoff_prover]
pub fn emit_client_hello_for_retry(
    config: ClientConfig,
    common: &mut ConnectionCommon,
    data: &mut ClientConnectionData,
    resuming_session: Option<ResolvedSession>,
    random: Vec<u8>,
    using_ems: bool,
    transcript_buffer: HandshakeHashBuffer,
    sent_tls13_fake_ccs: bool,
    hello: ClientHelloDetails,
    session_id: Option<SessionId>,
    retryreq: Option<&HelloRetryRequest>,
    server_name: ServerName,
    key_share: Option<KeyExchange>,
    extra_exts: Vec<ClientExtension>,
    may_send_sct_list: bool,
    suite: Option<SupportedCipherSuite>,
    now: u64,
) -> (r: NextState)
    requires
        transcript_buffer.wf(),
        forall|i: int|
            0 <= i < extra_exts@.len() ==> (#[trigger] extra_exts@[i]) matches
                ClientExtension::Unknown(_),
    ensures
        ({
            let retry = retryreq is Some;
            let quic = old(common).protocol == Protocol::Quic;
            let support_tls12 = config.versions.spec_contains(ProtocolVersion::Tls12) && !quic;
            let support_tls13 = config.versions.spec_contains(ProtocolVersion::Tls13);
            let sni = server_name.spec_for_sni() is Some && config.enable_sni;
            let cookie = match retryreq {
                Some(hrr) => hrr.spec_cookie(),
                None => None,
            };
            let psk_modes = support_tls13 && config.enable_tickets;
            let alpn = config.alpn_protocols@.len() > 0;
            let ticket = match resuming_session {
                Some(rs) => rs.value.ticket@,
                None => Seq::empty(),
            };
            let rs_ok = support_tls13 && config.enable_tickets && resuming_session is Some
                && resuming_session->Some_0.value.version == ProtocolVersion::Tls13
                && ticket.len() > 0;
            let fill_suite = spec_fill_suite(&resuming_session, &suite);
            let resume = rs_ok && fill_suite is Some;
            let ticket_fallback = config.enable_tickets && !resume;
            let early = resume && tls13::spec_enables_early_data(
                &config,
                &resuming_session->Some_0,
                retry,
            );
            let early_now = resume && (early || old(data).early_data.spec_is_enabled());
            let age = match resuming_session {
                Some(rs) => rs.spec_obfuscated_ticket_age(now),
                None => 0u32,
            };
            let flag1 = if retry && !quic {
                true
            } else {
                sent_tls13_fake_ccs
            };
            let ccs_pre = retry && !quic && !sent_tls13_fake_ccs;
            let ccs_post = early_now && !quic && !flag1;
            let flag2 = if early_now && !quic {
                true
            } else {
                flag1
            };
            let ch_idx = old(common).sent@.len() + (if ccs_pre {
                1int
            } else {
                0int
            });
            let is_hrr_wait = support_tls13 && !retry;
            let inner = match r {
                NextState::ExpectServerHello(st) => st,
                NextState::ExpectServerHelloOrHelloRetryRequest(st) => st.next,
                _ => arbitrary(),
            };
            &&& is_hrr_wait ==> r is ExpectServerHelloOrHelloRetryRequest
                && r->ExpectServerHelloOrHelloRetryRequest_0.extra_exts == extra_exts
            &&& !is_hrr_wait ==> r is ExpectServerHello
            &&& final(common).sent@.len() == ch_idx + 1 + (if ccs_post {
                1int
            } else {
                0int
            })
            &&& forall|i: int|
                0 <= i < old(common).sent@.len() ==> final(common).sent@[i] == old(common).sent@[i]
            &&& ccs_pre ==> final(common).sent@[old(common).sent@.len() as int].msg
                == tls13::spec_fake_ccs_message() && !final(common).sent@[old(common).sent@.len() as int].encrypted
            &&& ccs_post ==> final(common).sent@[ch_idx + 1].msg == tls13::spec_fake_ccs_message()
                && !final(common).sent@[ch_idx + 1].encrypted
            &&& ({
                let rec = final(common).sent@[ch_idx];
                &&& !rec.encrypted
                &&& rec.msg.version == if retry {
                    ProtocolVersion::Tls12
                } else {
                    ProtocolVersion::Tls10
                }
                &&& rec.msg.payload matches MessagePayload::Handshake(hs) && ({
                    &&& hs matches HandshakePayload::ClientHello(chp) && ({
                        &&& chp.client_version == ProtocolVersion::Tls12
                        &&& chp.random@ == random@
                        &&& chp.session_id.bytes@ == match session_id {
                            Some(s) => s.bytes@,
                            None => Seq::<u8>::empty(),
                        }
                        &&& chp.cipher_suites@ == config.cipher_suites@.map_values(
                            |s: SupportedCipherSuite| s.spec_suite(),
                        ).push(crate::enums::CipherSuite::Scsv)
                        &&& chp.compression_methods@ == seq![crate::enums::Compression::Null]
                        &&& crate::msgs::spec_client_ext_types(chp.extensions@)
                            == spec_offered_ext_types(
                            support_tls13 || support_tls12,
                            sni,
                            may_send_sct_list,
                            key_share is Some,
                            cookie is Some,
                            psk_modes,
                            alpn,
                            crate::msgs::spec_client_ext_types(extra_exts@),
                            resume,
                            early,
                            ticket_fallback,
                        )
                        &&& forall|i: int|
                            0 <= i < chp.extensions@.len() ==> spec_offered_payload_ok(
                                #[trigger] chp.extensions@[i],
                                &config,
                                &server_name,
                                support_tls13,
                                support_tls12,
                                &key_share,
                                cookie,
                                ticket,
                                age,
                            )
                        &&& resume ==> chp.extensions@.len() > 0 && (chp.extensions@.last()
                            matches ClientExtension::PresharedKey(offer) && offer.binders@.len()
                            == 1 && offer.binders@[0]@ == tls13::spec_psk_binder(
                            resuming_session->Some_0.value.master_secret@,
                            fill_suite->Some_0,
                            transcript_buffer.msgs@,
                        ))
                        &&& inner.transcript_buffer.wf()
                        &&& inner.transcript_buffer.msgs@ == transcript_buffer.msgs@.push(
                            HandshakePayload::ClientHello(chp),
                        )
                    })
                })
            })
            &&& inner.config == config
            &&& inner.resuming_session == resuming_session
            &&& inner.server_name == server_name
            &&& inner.random@ == random@
            &&& inner.using_ems == using_ems
            &&& inner.hello.sent_extensions@ == spec_offered_ext_types(
                support_tls13 || support_tls12,
                sni,
                may_send_sct_list,
                key_share is Some,
                cookie is Some,
                psk_modes,
                alpn,
                crate::msgs::spec_client_ext_types(extra_exts@),
                resume,
                early,
                ticket_fallback,
            )
            &&& inner.offered_key_share == key_share
            &&& inner.session_id.bytes@ == match session_id {
                Some(s) => s.bytes@,
                None => Seq::<u8>::empty(),
            }
            &&& inner.sent_tls13_fake_ccs == flag2
            &&& inner.suite == suite
            &&& resume ==> ({
                &&& inner.early_key_schedule matches Some(ks) && ks.secret@
                    == crate::key_schedule::spec_early_secret(
                    resuming_session->Some_0.value.master_secret@,
                )
            })
            &&& !resume ==> inner.early_key_schedule is None
            &&& *final(data) == (ClientConnectionData {
                early_data: final(data).early_data,
                resumption_ciphersuite: final(data).resumption_ciphersuite,
                ..*old(data)
            })
            &&& resume ==> final(data).resumption_ciphersuite == Some(
                SupportedCipherSuite::Tls13(fill_suite->Some_0),
            )
            &&& !resume ==> final(data).resumption_ciphersuite == old(data).resumption_ciphersuite
            &&& early ==> final(data).early_data.state == crate::conn::EarlyDataState::Ready
                && final(data).early_data.max_size
                == resuming_session->Some_0.value.max_early_data_size
            &&& !early ==> final(data).early_data == old(data).early_data
            &&& *final(common) == (ConnectionCommon {
                sent: final(common).sent,
                record_layer: final(common).record_layer,
                early_traffic: final(common).early_traffic,
                ..*old(common)
            })
            &&& final(common).record_layer.decrypter == old(common).record_layer.decrypter
            &&& early_now ==> final(common).early_traffic && (
            final(common).record_layer.encrypter matches Some(k) && k.suite == fill_suite->Some_0
                && k.secret@ == tls13::spec_early_traffic_secret(
                crate::key_schedule::spec_early_secret(
                    resuming_session->Some_0.value.master_secret@,
                ),
                fill_suite->Some_0,
                inner.transcript_buffer.msgs@,
            ))
            &&& !early_now ==> final(common).early_traffic == old(common).early_traffic && final(common).record_layer == old(common).record_layer
        }),
{
    let (ticket, resume_version) = match &resuming_session {
        Some(resuming) => (util::copy_bytes(&resuming.value.ticket), resuming.value.version),
        None => (Vec::new(), ProtocolVersion::Unknown(0)),
    };
    let have_ticket = ticket.len() > 0;

    let support_tls12 = config.supports_version(ProtocolVersion::Tls12) && !common.is_quic();
    let support_tls13 = config.supports_version(ProtocolVersion::Tls13);

    let doing_retry = match retryreq {
        Some(_) => true,
        None => false,
    };
    let cookie = match retryreq {
        Some(hrr) => hrr.get_cookie(),
        None => None,
    };
    proof {
        assert(match cookie {
            Some(c) => Some(c@),
            None => None::<Seq<u8>>,
        } == match retryreq {
            Some(hrr) => hrr.spec_cookie(),
            None => None::<Seq<u8>>,
        });
    }

    let ghost cookie_view = match &cookie {
        Some(c) => Some(c@),
        None => None::<Seq<u8>>,
    };
    let (exts, fill_suite_opt) = build_hello_extensions(
        &config,
        data,
        &resuming_session,
        ticket,
        resume_version,
        support_tls13,
        support_tls12,
        &server_name,
        &key_share,
        cookie,
        &extra_exts,
        may_send_sct_list,
        &suite,
        doing_retry,
        now,
    );

    let rs_ok = support_tls13 && config.enable_tickets && have_ticket && (resume_version
        == ProtocolVersion::Tls13);
    let resume = rs_ok && match fill_suite_opt {
        Some(_) => true,
        None => false,
    };

    let mut hello = hello;
    hello.sent_extensions = crate::msgs::client_ext_types(&exts);

    let session_id_val = match session_id {
        Some(s) => s,
        None => SessionId::empty(),
    };

    let (chp, early_key_schedule) = build_client_hello_payload(
        &config,
        &resuming_session,
        &server_name,
        &key_share,
        &random,
        &session_id_val,
        exts,
        fill_suite_opt,
        resume,
        &transcript_buffer,
        support_tls13,
        support_tls12,
        Ghost(cookie_view),
        now,
    );

    let (transcript_buffer, ccs_flag) = send_client_hello_flight(
        common,
        data,
        transcript_buffer,
        chp,
        doing_retry,
        sent_tls13_fake_ccs,
        &early_key_schedule,
        fill_suite_opt,
    );

    let next = ExpectServerHello {
        config,
        resuming_session,
        server_name,
        random,
        using_ems,
        transcript_buffer,
        early_key_schedule,
        hello,
        offered_key_share: key_share,
        session_id: session_id_val,
        sent_tls13_fake_ccs: ccs_flag,
        suite,
    };

    if support_tls13 && !doing_retry {
        NextState::ExpectServerHelloOrHelloRetryRequest(
            ExpectServerHelloOrHelloRetryRequest { next, extra_exts },
        )
    } else {
        NextState::ExpectServerHello(next)
    }
}

/// Begin a handshake: look up a cached session, draw the randoms and the
/// initial key share, and send the first ClientHello.  The first hello is
/// framed under record version TLS 1.0 and is never preceded by a
/// ChangeCipherSpec.  Fails only when the system random source does.
pub fn start_handshake(
    server_name: ServerName,
    extra_exts: Vec<ClientExtension>,
    config: ClientConfig,
    common: &mut ConnectionCommon,
    data: &mut ClientConnectionData,
    storage: &SessionStorage,
    now: u64,
) -> (r: Result<NextState, Error>)
    requires
        config.kx_groups@.len() > 0,
        forall|i: int|
            0 <= i < extra_exts@.len() ==> (#[trigger] extra_exts@[i]) matches
                ClientExtension::Unknown(_),
    ensures
        r is Err ==> r == Err::<NextState, Error>(Error::FailedToGetRandomBytes),
        r matches Ok(st) ==> ({
            let support_tls13 = config.versions.spec_contains(ProtocolVersion::Tls13);
            let inner = match st {
                NextState::ExpectServerHello(s) => s,
                NextState::ExpectServerHelloOrHelloRetryRequest(s) => s.next,
                _ => arbitrary(),
            };
            &&& support_tls13 ==> st is ExpectServerHelloOrHelloRetryRequest
            &&& !support_tls13 ==> st is ExpectServerHello
            &&& final(common).sent@.len() >= old(common).sent@.len() + 1
            &&& forall|i: int|
                0 <= i < old(common).sent@.len() ==> final(common).sent@[i] == old(common).sent@[i]
            &&& ({
                let rec = final(common).sent@[old(common).sent@.len() as int];
                &&& !rec.encrypted
                &&& rec.msg.version == ProtocolVersion::Tls10
                &&& rec.msg.payload matches MessagePayload::Handshake(hs) && hs matches
                    HandshakePayload::ClientHello(chp) && ({
                    &&& chp.client_version == ProtocolVersion::Tls12
                    &&& chp.random@.len() == 32
                    &&& inner.transcript_buffer.wf()
                    &&& inner.transcript_buffer.msgs@ == seq![HandshakePayload::ClientHello(chp)]
                })
            })
            &&& inner.config == config
            &&& inner.server_name == server_name
            &&& support_tls13 ==> ({
                &&& inner.offered_key_share matches Some(kx) && kx.wf()
            })
            &&& !support_tls13 ==> inner.offered_key_share is None
            &&& inner.suite is None
        }),
{
    let transcript_buffer = HandshakeHashBuffer::new();
    proof {
        assert(transcript_buffer.msgs@ =~= Seq::<HandshakePayload>::empty());
    }

    let support_tls13 = config.supports_version(ProtocolVersion::Tls13);

    let resuming_found = find_session(&server_name, &config, storage, now);

    let key_share = if support_tls13 {
        match tls13::initial_key_share(&config, &server_name, storage) {
            Ok(kx) => Some(kx),
            Err(e) => {
                return Err(e);
            },
        }
    } else {
        None
    };

    let mut session_id: Option<SessionId> = None;
    let resuming_session = match resuming_found {
        Some(mut resuming) => {
            if resuming.value.version == ProtocolVersion::Tls12 {
                // A ticket is offered through a fresh random session id: its
                // echo signals an abbreviated handshake (RFC 5077).
                if resuming.value.ticket.len() > 0 {
                    let fresh = match crate::rand::random_vec(32) {
                        Ok(b) => SessionId { bytes: b },
                        Err(e) => {
                            return Err(e);
                        },
                    };
                    resuming.set_session_id(fresh);
                }
                session_id = Some(resuming.value.session_id.duplicate());
            }
            Some(resuming)
        },
        None => None,
    };

    if session_id.is_none() && !common.is_quic() {
        let fresh = match crate::rand::random_vec(32) {
            Ok(b) => SessionId { bytes: b },
            Err(e) => {
                return Err(e);
            },
        };
        session_id = Some(fresh);
    }

    let random = match crate::rand::random_vec(32) {
        Ok(b) => b,
        Err(e) => {
            return Err(e);
        },
    };
    let hello = ClientHelloDetails::new();
    let may_send_sct_list = config.verifier.request_scts();

    Ok(
        emit_client_hello_for_retry(
            config,
            common,
            data,
            resuming_session,
            random,
            false,
            transcript_buffer,
            false,
            hello,
            session_id,
            None,
            server_name,
            key_share,
            extra_exts,
            may_send_sct_list,
            None,
            now,
        ),
    )
}

/// Record the protocol the server selected; it must be one we offered.
pub fn process_alpn_protocol(
    common: &mut ConnectionCommon,
    config: &ClientConfig,
    proto: Option<Vec<u8>>,
) -> (r: Result<(), Error>)
    ensures
        *final(common) == (ConnectionCommon {
            alpn_protocol: final(common).alpn_protocol,
            sent_alerts: final(common).sent_alerts,
            ..*old(common)
        }),
        ({
            match proto {
                Some(p) => {
                    &&& final(common).alpn_protocol matches Some(stored) && stored@ == p@
                    &&& r is Ok <==> util::views_of(config.alpn_protocols@).contains(p@)
                    &&& r is Ok ==> final(common).sent_alerts@ == old(common).sent_alerts@
                    &&& r is Err ==> r == Err::<(), Error>(
                        Error::PeerMisbehavedError(
                            PeerMisbehaved::SelectedUnofferedApplicationProtocol,
                        ),
                    ) && final(common).sent_alerts@ == old(common).sent_alerts@.push(
                        AlertDescription::IllegalParameter,
                    )
                },
                None => {
                    &&& final(common).alpn_protocol is None
                    &&& r is Ok
                    &&& final(common).sent_alerts@ == old(common).sent_alerts@
                },
            }
        }),
{
    match proto {
        Some(p) => {
            let offered = util::bytes_list_contains(&config.alpn_protocols, &p);
            common.alpn_protocol = Some(p);
            if !offered {
                return Err(
                    common.illegal_param(PeerMisbehaved::SelectedUnofferedApplicationProtocol),
                );
            }
            Ok(())
        },
        None => {
            common.alpn_protocol = None;
            Ok(())
        },
    }
}

/// The ALPN answer in a server extension list is acceptable: either no
/// single selected protocol is announced, or the selected one was offered.
pub open spec fn spec_alpn_ok(exts: Seq<crate::msgs::ServerExtension>, config: &ClientConfig) -> bool {
    match crate::msgs::spec_first_server_ext(exts, ExtensionType::ALProtocolNegotiation) {
        Some(e) => match e {
            crate::msgs::ServerExtension::Protocols(list) => if list@.len() == 1 {
                util::views_of(config.alpn_protocols@).contains(list@[0]@)
            } else {
                true
            },
            _ => true,
        },
        None => true,
    }
}

impl ExpectServerHello {
    /// The state's own invariants: a well-formed transcript buffer and
    /// key share, and a usable configuration.
    pub open spec fn wf(&self) -> bool {
        &&& self.transcript_buffer.wf()
        &&& match self.offered_key_share {
            Some(kx) => kx.wf(),
            None => true,
        }
    }

    /// The inputs this state accepts: a ServerHello that resolves to an
    /// enabled version, passes every policy check of the acceptance
    /// table, names an offered suite of the negotiated version (the same
    /// one any retry fixed), and — for TLS 1.3 — carries a usable key
    /// share and an honourable PSK choice at a message boundary.
    pub open spec fn spec_accepts(
        &self,
        m: Message,
        early_enabled: bool,
        early_traffic: bool,
        aligned: bool,
    ) -> bool {
        m.payload matches MessagePayload::Handshake(HandshakePayload::ServerHello(sh)) && {
            let tls13_supported = self.config.versions.spec_contains(ProtocolVersion::Tls13);
            let tls12_supported = self.config.versions.spec_contains(ProtocolVersion::Tls12);
            let server_version = if sh.legacy_version == ProtocolVersion::Tls12
                && sh.spec_supported_versions() is Some {
                sh.spec_supported_versions()->Some_0
            } else {
                sh.legacy_version
            };
            let v13_taken = server_version == ProtocolVersion::Tls13 && tls13_supported;
            let v12_taken = !v13_taken && server_version == ProtocolVersion::Tls12
                && tls12_supported;
            let found = crate::config::spec_first_suite(
                self.config.cipher_suites@,
                sh.cipher_suite,
            );
            &&& v13_taken || v12_taken
            &&& v12_taken ==> !(early_enabled && early_traffic) && sh.spec_supported_versions()
                is None
            &&& sh.compression_method == crate::enums::Compression::Null
            &&& !util::spec_has_duplicates(crate::msgs::spec_server_ext_types(sh.extensions@))
            &&& !self.hello.spec_unsolicited(
                sh.extensions@,
                seq![ExtensionType::RenegotiationInfo],
            )
            &&& v12_taken ==> spec_alpn_ok(sh.extensions@, &self.config)
            &&& (sh.spec_ecpoints() matches Some(fmts) ==> fmts.contains(
                crate::enums::ECPointFormat::Uncompressed,
            ))
            &&& found matches Some(scs) && scs.spec_version() == server_version
            &&& (self.suite matches Some(prev) ==> prev == found->Some_0)
            &&& v13_taken ==> ({
                &&& self.offered_key_share is Some
                &&& tls13::spec_only_allowed_plaintext_exts(sh.extensions@)
                &&& sh.spec_key_share() matches Some(entry) && entry.group
                    == self.offered_key_share->Some_0.group && entry.payload@.len() > 0
                &&& tls13::spec_psk_branch(&sh, &self.early_key_schedule)
                    ==> tls13::spec_psk_checks_pass(
                    &sh,
                    &self.resuming_session,
                    found->Some_0->Tls13_0,
                    early_enabled,
                )
                &&& aligned
            })
        }
    }

    /// Process a ServerHello: resolve the negotiated version against the
    /// offer, reject protocol violations with their alerts, pin the suite,
    /// commit the transcript to the suite's hash, and hand off to the
    /// TLS 1.3 flight (or the TLS 1.2 path).
    pub fn handle(
        self,
        common: &mut ConnectionCommon,
        data: &mut ClientConnectionData,
        storage: &mut SessionStorage,
        m: Message,
    ) -> (r: Result<NextState, Error>)
        requires
            self.wf(),
        ensures
            ({
                let sh_ok = m.payload matches MessagePayload::Handshake(
                    HandshakePayload::ServerHello(_),
                );
                &&& !sh_ok ==> r is Err && *final(common) == *old(common) && *final(data) == *old(
                    data,
                ) && final(storage).entries@ == old(storage).entries@
                &&& sh_ok ==> ({
                    let sh = spec_sh_of(m);
                    let tls13_supported = self.config.versions.spec_contains(
                        ProtocolVersion::Tls13,
                    );
                    let tls12_supported = self.config.versions.spec_contains(
                        ProtocolVersion::Tls12,
                    );
                    let server_version = if sh.legacy_version == ProtocolVersion::Tls12
                        && sh.spec_supported_versions() is Some {
                        sh.spec_supported_versions()->Some_0
                    } else {
                        sh.legacy_version
                    };
                    let v13_taken = server_version == ProtocolVersion::Tls13 && tls13_supported;
                    let v12_taken = !v13_taken && server_version == ProtocolVersion::Tls12
                        && tls12_supported;
                    let version_ok = v13_taken || v12_taken;
                    let v12_early_err = v12_taken && old(data).early_data.spec_is_enabled() && old(
                        common,
                    ).early_traffic;
                    let v12_svext_err = v12_taken && !v12_early_err
                        && sh.spec_supported_versions() is Some;
                    let clean = version_ok && !v12_early_err && !v12_svext_err;
                    let dup = util::spec_has_duplicates(
                        crate::msgs::spec_server_ext_types(sh.extensions@),
                    );
                    &&& !version_ok ==> r is Err && final(common).record_layer == old(
                        common,
                    ).record_layer && final(common).sent_alerts@ == old(common).sent_alerts@.push(
                        AlertDescription::ProtocolVersion,
                    ) && r == Err::<NextState, Error>(
                        Error::PeerIncompatibleError(PeerIncompatible::UnsupportedVersion),
                    )
                    &&& v12_early_err ==> r == Err::<NextState, Error>(
                        Error::PeerMisbehavedError(
                            PeerMisbehaved::ServerChoseV12WhenOfferingEarlyData,
                        ),
                    )
                    &&& v12_svext_err ==> r == Err::<NextState, Error>(
                        Error::PeerMisbehavedError(PeerMisbehaved::ServerChoseV12UsingV13Extension),
                    ) && final(common).sent_alerts@ == old(common).sent_alerts@.push(
                        AlertDescription::IllegalParameter,
                    )
                    &&& clean && sh.compression_method != crate::enums::Compression::Null ==> r
                        == Err::<NextState, Error>(
                        Error::PeerMisbehavedError(PeerMisbehaved::SelectedNonNullCompression),
                    ) && final(common).sent_alerts@ == old(common).sent_alerts@.push(
                        AlertDescription::IllegalParameter,
                    )
                    &&& clean && sh.compression_method == crate::enums::Compression::Null
                        && dup ==> ({
                        &&& r == Err::<NextState, Error>(
                            Error::PeerMisbehavedError(
                                PeerMisbehaved::DuplicateServerHelloExtensions,
                            ),
                        )
                        &&& final(common).sent_alerts@ == old(common).sent_alerts@.push(
                            AlertDescription::DecodeError,
                        )
                        &&& final(common).record_layer == old(common).record_layer
                        &&& final(common).sent@ == old(common).sent@
                    })
                    &&& ({
                        let unsolicited = self.hello.spec_unsolicited(
                            sh.extensions@,
                            seq![ExtensionType::RenegotiationInfo],
                        );
                        let past_exts = clean && sh.compression_method
                            == crate::enums::Compression::Null && !dup;
                        &&& past_exts && unsolicited ==> r == Err::<NextState, Error>(
                            Error::PeerMisbehavedError(
                                PeerMisbehaved::UnsolicitedServerHelloExtension,
                            ),
                        ) && final(common).sent_alerts@ == old(common).sent_alerts@.push(
                            AlertDescription::UnsupportedExtension,
                        )
                        &&& ({
                            let reached = past_exts && !unsolicited && (v13_taken || spec_alpn_ok(
                                sh.extensions@,
                                &self.config,
                            ));
                            &&& reached && (sh.spec_ecpoints() matches Some(fmts)
                                && !fmts.contains(
                                crate::enums::ECPointFormat::Uncompressed,
                            )) ==> r == Err::<NextState, Error>(
                                Error::PeerMisbehavedError(
                                    PeerMisbehaved::ServerRejectedUncompressedPoints,
                                ),
                            ) && final(common).sent_alerts@ == old(common).sent_alerts@.push(
                                AlertDescription::HandshakeFailure,
                            )
                            &&& reached && (match sh.spec_ecpoints() {
                                Some(fmts) => fmts.contains(
                                    crate::enums::ECPointFormat::Uncompressed,
                                ),
                                None => true,
                            }) && !self.config.spec_offers_suite(sh.cipher_suite) ==> r == Err::<
                                NextState,
                                Error,
                            >(
                                Error::PeerMisbehavedError(
                                    PeerMisbehaved::SelectedUnofferedCipherSuite,
                                ),
                            ) && final(common).sent_alerts@ == old(common).sent_alerts@.push(
                                AlertDescription::HandshakeFailure,
                            )
                            &&& reached && (match sh.spec_ecpoints() {
                                Some(fmts) => fmts.contains(
                                    crate::enums::ECPointFormat::Uncompressed,
                                ),
                                None => true,
                            }) && self.config.spec_offers_suite(sh.cipher_suite) && (self.suite
                                matches Some(prev) && prev.spec_suite() != sh.cipher_suite) ==> r
                                == Err::<NextState, Error>(
                                Error::PeerMisbehavedError(
                                    PeerMisbehaved::SelectedDifferentCipherSuiteAfterRetry,
                                ),
                            ) || r == Err::<NextState, Error>(
                                Error::PeerMisbehavedError(
                                    PeerMisbehaved::SelectedUnusableCipherSuiteForVersion,
                                ),
                            )
                        })
                        &&& (!version_ok || v12_early_err || v12_svext_err || (clean
                            && sh.compression_method != crate::enums::Compression::Null) || (clean
                            && sh.compression_method == crate::enums::Compression::Null && dup)
                            || (past_exts && unsolicited)) ==> final(common).negotiated_version
                            == old(common).negotiated_version && final(common).suite == old(
                            common,
                        ).suite
                    })
                    &&& self.spec_accepts(
                        m,
                        old(data).early_data.spec_is_enabled(),
                        old(common).early_traffic,
                        old(common).aligned,
                    ) ==> r is Ok
                    &&& r is Err ==> final(common).record_layer == old(common).record_layer
                    &&& r is Ok ==> ({
                        &&& version_ok
                        &&& !dup
                        &&& sh.compression_method == crate::enums::Compression::Null
                        &&& final(common).negotiated_version == Some(server_version)
                        &&& final(common).suite matches Some(scs) && scs.spec_suite()
                            == sh.cipher_suite && self.config.spec_offers_suite(sh.cipher_suite)
                            && scs.spec_version() == server_version
                        &&& server_version == ProtocolVersion::Tls13 ==> ({
                            &&& r->Ok_0 is ExpectEncryptedExtensions
                            &&& r->Ok_0->ExpectEncryptedExtensions_0.transcript.msgs@
                                == self.transcript_buffer.msgs@.push(
                                HandshakePayload::ServerHello(sh),
                            )
                            &&& r->Ok_0->ExpectEncryptedExtensions_0.transcript.wf()
                        })
                        &&& server_version == ProtocolVersion::Tls12 ==> r->Ok_0 is Tls12
                    })
                })
            }),
    {
        let sh = match m.payload {
            MessagePayload::Handshake(HandshakePayload::ServerHello(sh)) => sh,
            MessagePayload::Handshake(other) => {
                let mut expected: Vec<HandshakeType> = Vec::new();
                expected.push(HandshakeType::ServerHello);
                return Err(
                    Error::InappropriateHandshakeMessage {
                        expected,
                        got: other.handshake_type(),
                    },
                );
            },
            other => {
                let mut expected: Vec<ContentType> = Vec::new();
                expected.push(ContentType::Handshake);
                return Err(
                    Error::InappropriateMessage { expected, got: other.content_type() },
                );
            },
        };

        let tls13_supported = self.config.supports_version(ProtocolVersion::Tls13);

        let server_version = if sh.legacy_version == ProtocolVersion::Tls12 {
            match sh.get_supported_versions() {
                Some(v) => v,
                None => sh.legacy_version,
            }
        } else {
            sh.legacy_version
        };

        let version = if server_version == ProtocolVersion::Tls13 && tls13_supported {
            ProtocolVersion::Tls13
        } else if server_version == ProtocolVersion::Tls12 && self.config.supports_version(
            ProtocolVersion::Tls12,
        ) {
            if data.early_data.is_enabled() && common.early_traffic {
                // The server must not fall back to TLS 1.2 against an
                // offer of 0-RTT data.
                return Err(
                    Error::PeerMisbehavedError(PeerMisbehaved::ServerChoseV12WhenOfferingEarlyData),
                );
            }
            match sh.get_supported_versions() {
                Some(_) => {
                    return Err(
                        common.illegal_param(PeerMisbehaved::ServerChoseV12UsingV13Extension),
                    );
                },
                None => {},
            }
            ProtocolVersion::Tls12
        } else {
            common.send_fatal_alert(AlertDescription::ProtocolVersion);
            return Err(Error::PeerIncompatibleError(PeerIncompatible::UnsupportedVersion));
        };

        if sh.compression_method != crate::enums::Compression::Null {
            return Err(common.illegal_param(PeerMisbehaved::SelectedNonNullCompression));
        }

        if sh.has_duplicate_extension() {
            common.send_fatal_alert(AlertDescription::DecodeError);
            return Err(
                Error::PeerMisbehavedError(PeerMisbehaved::DuplicateServerHelloExtensions),
            );
        }

        let mut allowed_unsolicited: Vec<ExtensionType> = Vec::new();
        allowed_unsolicited.push(ExtensionType::RenegotiationInfo);
        if self.hello.server_sent_unsolicited_extensions(&sh.extensions, &allowed_unsolicited) {
            common.send_fatal_alert(AlertDescription::UnsupportedExtension);
            return Err(
                Error::PeerMisbehavedError(PeerMisbehaved::UnsolicitedServerHelloExtension),
            );
        }

        common.negotiated_version = Some(version);

        if !(version == ProtocolVersion::Tls13) {
            let proto = sh.get_alpn_protocol();
            match process_alpn_protocol(common, &self.config, proto) {
                Ok(_) => {},
                Err(e) => {
                    return Err(e);
                },
            }
        }

        match sh.get_ecpoints_extension() {
            Some(point_fmts) => {
                let mut has_uncompressed = false;
                let mut i: usize = 0;
                while i < point_fmts.len()
                    invariant
                        i <= point_fmts@.len(),
                        has_uncompressed == (exists|j: int|
                            0 <= j < i && point_fmts@[j]
                                == crate::enums::ECPointFormat::Uncompressed),
                    decreases point_fmts@.len() - i,
                {
                    if point_fmts[i] == crate::enums::ECPointFormat::Uncompressed {
                        has_uncompressed = true;
                    }
                    i = i + 1;
                }
                if !has_uncompressed {
                    common.send_fatal_alert(AlertDescription::HandshakeFailure);
                    return Err(
                        Error::PeerMisbehavedError(PeerMisbehaved::ServerRejectedUncompressedPoints),
                    );
                }
            },
            None => {},
        }

        let suite = match self.config.find_cipher_suite(sh.cipher_suite) {
            Some(scs) => scs,
            None => {
                common.send_fatal_alert(AlertDescription::HandshakeFailure);
                return Err(
                    Error::PeerMisbehavedError(PeerMisbehaved::SelectedUnofferedCipherSuite),
                );
            },
        };

        if !(version == suite.version()) {
            return Err(
                common.illegal_param(PeerMisbehaved::SelectedUnusableCipherSuiteForVersion),
            );
        }

        match self.suite {
            Some(prev_suite) => {
                if !(prev_suite == suite) {
                    return Err(
                        common.illegal_param(PeerMisbehaved::SelectedDifferentCipherSuiteAfterRetry),
                    );
                }
            },
            None => {},
        }
        common.suite = Some(suite);

        let mut transcript = self.transcript_buffer.start_hash(suite.hash_algorithm());
        let m_rebuilt = Message {
            version: m.version,
            payload: MessagePayload::Handshake(HandshakePayload::ServerHello(sh)),
        };
        transcript.add_message(&m_rebuilt);
        let sh = match m_rebuilt.payload {
            MessagePayload::Handshake(HandshakePayload::ServerHello(sh)) => sh,
            _ => {
                proof {
                    assert(false);
                }
                return Err(Error::DecryptError);
            },
        };

        let randoms = crate::common::ConnectionRandoms::new(&self.random, &sh.random);

        match suite.tls13() {
            Some(suite13) => {
                let offered_share = match self.offered_key_share {
                    Some(ks) => ks,
                    None => {
                        // TLS 1.3 was negotiated, so a share was offered.
                        return Err(
                            Error::PeerMisbehavedError(PeerMisbehaved::MissingKeyShare),
                        );
                    },
                };
                match tls13::handle_server_hello(
                    self.config,
                    common,
                    data,
                    storage,
                    &sh,
                    self.resuming_session,
                    self.server_name,
                    randoms,
                    suite13,
                    transcript,
                    self.early_key_schedule,
                    self.hello,
                    offered_share,
                    self.sent_tls13_fake_ccs,
                ) {
                    Ok(st) => Ok(NextState::ExpectEncryptedExtensions(st)),
                    Err(e) => Err(e),
                }
            },
            None => {
                let suite12 = match suite {
                    SupportedCipherSuite::Tls12(s) => s,
                    SupportedCipherSuite::Tls13(_) => {
                        proof {
                            assert(false);
                        }
                        return Err(Error::DecryptError);
                    },
                };
                Ok(
                    NextState::Tls12(
                        Tls12Handoff {
                            config: self.config,
                            resuming_session: self.resuming_session,
                            server_name: self.server_name,
                            using_ems: self.using_ems,
                            suite: suite12,
                            session_id: sh.session_id,
                        },
                    ),
                )
            },
        }
    }
}

impl ExpectServerHelloOrHelloRetryRequest {
    /// The state's own invariants: the inner state is well formed, a key
    /// share was offered (TLS 1.3 was enabled), and the caller extras are
    /// opaque.
    pub open spec fn wf(&self) -> bool {
        &&& self.next.wf()
        &&& self.next.offered_key_share is Some
        &&& forall|i: int|
            0 <= i < self.extra_exts@.len() ==> (#[trigger] self.extra_exts@[i]) matches
                ClientExtension::Unknown(_)
    }

    /// The retries this state accepts: a HelloRetryRequest, at a message
    /// boundary, that changes something (a cookie or a new group), has a
    /// non-empty cookie and clean extensions, insists on TLS 1.3, names
    /// an offered suite, and asks only for a configured group.
    pub open spec fn spec_accepts_hrr(&self, m: Message, aligned: bool) -> bool {
        m.payload matches MessagePayload::Handshake(HandshakePayload::HelloRetryRequest(hrr)) && {
            let cookie = hrr.spec_cookie();
            let req_group = hrr.spec_requested_key_share_group();
            let offered_group = self.next.offered_key_share->Some_0.group;
            &&& aligned
            &&& !(cookie is None && req_group == Some(offered_group))
            &&& cookie is Some ==> cookie->Some_0.len() > 0
            &&& !hrr.spec_has_unknown_extension()
            &&& !util::spec_has_duplicates(crate::msgs::spec_hrr_ext_types(hrr.extensions@))
            &&& cookie is Some || req_group is Some
            &&& hrr.spec_supported_versions() == Some(ProtocolVersion::Tls13)
            &&& self.next.config.spec_offers_suite(hrr.cipher_suite)
            &&& req_group is Some && req_group->Some_0 != offered_group
                ==> self.next.config.kx_groups@.contains(req_group->Some_0)
        }
    }

    /// Whether honouring this retry draws a fresh key share (and so may
    /// fail only on the random source).
    pub open spec fn spec_hrr_draws_fresh_share(&self, m: Message) -> bool {
        &&& m.spec_is_handshake_type(HandshakeType::HelloRetryRequest)
        &&& spec_hrr_of(m).spec_requested_key_share_group() is Some
        &&& spec_hrr_of(m).spec_requested_key_share_group()->Some_0
            != self.next.offered_key_share->Some_0.group
    }

    /// A ServerHello arrived after all: drop the retry option.
    pub fn into_expect_server_hello(self) -> (r: ExpectServerHello)
        ensures
            r == self.next,
    {
        self.next
    }

    /// Process a HelloRetryRequest: reject one that asks for no change,
    /// carries an empty cookie, an unknown or duplicate extension, a
    /// wrong version or an unoffered suite; otherwise restart the
    /// transcript in message-hash form, withdraw any early data, pick the
    /// requested group, and send the second ClientHello.
    pub fn handle_hello_retry_request(
        self,
        common: &mut ConnectionCommon,
        data: &mut ClientConnectionData,
        m: Message,
        now: u64,
    ) -> (r: Result<NextState, Error>)
        requires
            self.wf(),
        ensures
            ({
                let hrr_ok = m.payload matches MessagePayload::Handshake(
                    HandshakePayload::HelloRetryRequest(_),
                );
                &&& !hrr_ok ==> r is Err && *final(common) == *old(common) && *final(data) == *old(
                    data,
                )
                &&& self.spec_accepts_hrr(m, old(common).aligned) ==> r is Ok || (
                self.spec_hrr_draws_fresh_share(m) && r == Err::<NextState, Error>(
                    Error::FailedToGetRandomBytes,
                ))
                &&& hrr_ok ==> ({
                    let hrr = spec_hrr_of(m);
                    let offered_group = self.next.offered_key_share->Some_0.group;
                    let cookie = hrr.spec_cookie();
                    let req_group = hrr.spec_requested_key_share_group();
                    &&& !old(common).aligned ==> r == Err::<NextState, Error>(
                        Error::PeerMisbehavedError(PeerMisbehaved::KeyEpochWithPendingFragment),
                    )
                    &&& old(common).aligned && cookie is None && req_group == Some(offered_group)
                        ==> r == Err::<NextState, Error>(
                        Error::PeerMisbehavedError(PeerMisbehaved::IllegalHelloRetryWithOfferedGroup),
                    )
                    &&& old(common).aligned && cookie is Some && cookie->Some_0.len() == 0 ==> r
                        == Err::<NextState, Error>(
                        Error::PeerMisbehavedError(PeerMisbehaved::IllegalHelloRetryWithEmptyCookie),
                    )
                    &&& r matches Ok(st) ==> ({
                        let cs = final(common).suite;
                        &&& old(common).aligned
                        &&& !hrr.spec_has_unknown_extension()
                        &&& !util::spec_has_duplicates(
                            crate::msgs::spec_hrr_ext_types(hrr.extensions@),
                        )
                        &&& cookie is Some || req_group is Some
                        &&& hrr.spec_supported_versions() == Some(ProtocolVersion::Tls13)
                        &&& self.next.config.spec_offers_suite(hrr.cipher_suite)
                        &&& final(common).negotiated_version == Some(ProtocolVersion::Tls13)
                        &&& cs matches Some(scs) && scs.spec_suite() == hrr.cipher_suite
                        &&& st is ExpectServerHello
                        &&& ({
                            let inner = st->ExpectServerHello_0;
                            &&& inner.suite == cs
                            &&& inner.transcript_buffer.wf()
                            &&& inner.transcript_buffer.msgs@.len() == 3
                            &&& inner.transcript_buffer.msgs@[0] matches
                                HandshakePayload::MessageHash(h) && h@
                                == crate::hash_hs::spec_hash_of(
                                cs->Some_0.spec_hash(),
                                self.next.transcript_buffer.msgs@,
                            )
                            &&& inner.transcript_buffer.msgs@[1] == HandshakePayload::HelloRetryRequest(hrr)
                            &&& inner.transcript_buffer.msgs@[2] is ClientHello
                            &&& inner.offered_key_share matches Some(kx) && kx.wf()
                                && kx.group == (match req_group {
                                Some(g) => if g != offered_group {
                                    g
                                } else {
                                    offered_group
                                },
                                None => offered_group,
                            })
                        })
                        &&& old(data).early_data.spec_is_enabled() ==> final(data).early_data.state == crate::conn::EarlyDataState::Rejected
                        &&& ({
                            let quic = old(common).protocol == Protocol::Quic;
                            let ccs_pre = !quic && !self.next.sent_tls13_fake_ccs;
                            let ch_idx = old(common).sent@.len() + (if ccs_pre {
                                1int
                            } else {
                                0int
                            });
                            &&& final(common).sent@.len() == ch_idx + 1
                            &&& forall|i: int|
                                0 <= i < old(common).sent@.len() ==> final(common).sent@[i] == old(
                                    common,
                                ).sent@[i]
                            &&& ccs_pre ==> final(common).sent@[old(common).sent@.len() as int].msg
                                == tls13::spec_fake_ccs_message()
                            &&& final(common).sent@[ch_idx].msg.version == ProtocolVersion::Tls12
                            &&& !final(common).sent@[ch_idx].encrypted
                            &&& final(common).sent@[ch_idx].msg.payload matches
                                MessagePayload::Handshake(hs2) && hs2 is ClientHello
                        })
                    })
                })
            }),
    {
        let hrr = match m.payload {
            MessagePayload::Handshake(HandshakePayload::HelloRetryRequest(hrr)) => hrr,
            MessagePayload::Handshake(other) => {
                let mut expected: Vec<HandshakeType> = Vec::new();
                expected.push(HandshakeType::HelloRetryRequest);
                return Err(
                    Error::InappropriateHandshakeMessage {
                        expected,
                        got: other.handshake_type(),
                    },
                );
            },
            other => {
                let mut expected: Vec<ContentType> = Vec::new();
                expected.push(ContentType::Handshake);
                return Err(
                    Error::InappropriateMessage { expected, got: other.content_type() },
                );
            },
        };

        match common.check_aligned_handshake() {
            Ok(_) => {},
            Err(e) => {
                return Err(e);
            },
        }

        let cookie = hrr.get_cookie();
        let req_group = hrr.get_requested_key_share_group();

        let offered_key_share = match self.next.offered_key_share {
            Some(ks) => ks,
            None => {
                proof {
                    assert(false);
                }
                return Err(Error::DecryptError);
            },
        };

        let cookie_is_none = match &cookie {
            Some(_) => false,
            None => true,
        };

        // A retry that merely asks again for the group we already sent is
        // not a legal change of parameters.
        if cookie_is_none && req_group == Some(offered_key_share.group()) {
            return Err(common.illegal_param(PeerMisbehaved::IllegalHelloRetryWithOfferedGroup));
        }

        match &cookie {
            Some(c) => {
                if c.len() == 0 {
                    return Err(
                        common.illegal_param(PeerMisbehaved::IllegalHelloRetryWithEmptyCookie),
                    );
                }
            },
            None => {},
        }

        if hrr.has_unknown_extension() {
            common.send_fatal_alert(AlertDescription::UnsupportedExtension);
            return Err(
                Error::PeerIncompatibleError(PeerIncompatible::HelloRetryUnhandledExtension),
            );
        }

        if hrr.has_duplicate_extension() {
            return Err(common.illegal_param(PeerMisbehaved::DuplicateHelloRetryExtensions));
        }

        let req_group_is_none = match &req_group {
            Some(_) => false,
            None => true,
        };
        if cookie_is_none && req_group_is_none {
            return Err(common.illegal_param(PeerMisbehaved::IllegalHelloRetryWithNoChanges));
        }

        match hrr.get_supported_versions() {
            Some(ProtocolVersion::Tls13) => {
                common.negotiated_version = Some(ProtocolVersion::Tls13);
            },
            _ => {
                return Err(common.illegal_param(PeerMisbehaved::IllegalHelloRetryWithWrongVersion));
            },
        }

        let cs = match self.next.config.find_cipher_suite(hrr.cipher_suite) {
            Some(cs) => cs,
            None => {
                return Err(common.illegal_param(PeerMisbehaved::IllegalHelloRetryWithUnofferedSuite));
            },
        };

        // The retry fixes the suite for the rest of the handshake.
        common.suite = Some(cs);

        let transcript = self.next.transcript_buffer.start_hash(cs.hash_algorithm());
        let mut transcript_buffer = transcript.into_hrr_buffer();
        let m_rebuilt = Message {
            version: m.version,
            payload: MessagePayload::Handshake(HandshakePayload::HelloRetryRequest(hrr)),
        };
        transcript_buffer.add_message(&m_rebuilt);
        let hrr = match m_rebuilt.payload {
            MessagePayload::Handshake(HandshakePayload::HelloRetryRequest(hrr)) => hrr,
            _ => {
                proof {
                    assert(false);
                }
                return Err(Error::DecryptError);
            },
        };

        // Early data is not allowed after a HelloRetryRequest.
        if data.early_data.is_enabled() {
            data.early_data.rejected();
        }

        let may_send_sct_list = self.next.hello.server_may_send_sct_list();

        let key_share = match req_group {
            Some(group) => {
                if !(group == offered_key_share.group()) {
                    let group = match crate::kx::KeyExchange::choose_group(
                        group,
                        &self.next.config.kx_groups,
                    ) {
                        Some(g) => g,
                        None => {
                            return Err(
                                common.illegal_param(PeerMisbehaved::IllegalHelloRetryWithOfferedGroup),
                            );
                        },
                    };
                    match crate::kx::KeyExchange::start(group) {
                        Some(kx) => kx,
                        None => {
                            return Err(Error::FailedToGetRandomBytes);
                        },
                    }
                } else {
                    offered_key_share
                }
            },
            None => offered_key_share,
        };

        Ok(
            emit_client_hello_for_retry(
                self.next.config,
                common,
                data,
                self.next.resuming_session,
                self.next.random,
                self.next.using_ems,
                transcript_buffer,
                self.next.sent_tls13_fake_ccs,
                self.next.hello,
                Some(self.next.session_id),
                Some(&hrr),
                self.next.server_name,
                Some(key_share),
                self.extra_exts,
                may_send_sct_list,
                Some(cs),
                now,
            ),
        )
    }

    /// Accept a ServerHello or a HelloRetryRequest; anything else is out
    /// of place here.
    pub fn handle(
        self,
        common: &mut ConnectionCommon,
        data: &mut ClientConnectionData,
        storage: &mut SessionStorage,
        m: Message,
        now: u64,
    ) -> (r: Result<NextState, Error>)
        requires
            self.wf(),
        ensures
            !(m.spec_is_handshake_type(HandshakeType::ServerHello) || m.spec_is_handshake_type(
                HandshakeType::HelloRetryRequest,
            )) ==> r is Err && *final(common) == *old(common) && *final(data) == *old(data)
                && final(storage).entries@ == old(storage).entries@,
            m.spec_is_handshake_type(HandshakeType::HelloRetryRequest) && r is Ok ==> r->Ok_0
                is ExpectServerHello,
            m.spec_is_handshake_type(HandshakeType::ServerHello) && self.next.spec_accepts(
                m,
                old(data).early_data.spec_is_enabled(),
                old(common).early_traffic,
                old(common).aligned,
            ) ==> r is Ok,
            self.spec_accepts_hrr(m, old(common).aligned) ==> r is Ok || (
            self.spec_hrr_draws_fresh_share(m) && r == Err::<NextState, Error>(
                Error::FailedToGetRandomBytes,
            )),
    {
        let mut content_types: Vec<ContentType> = Vec::new();
        content_types.push(ContentType::Handshake);
        let mut handshake_types: Vec<HandshakeType> = Vec::new();
        handshake_types.push(HandshakeType::ServerHello);
        handshake_types.push(HandshakeType::HelloRetryRequest);
        proof {
            assert(content_types@.contains(ContentType::Handshake)) by {
                assert(content_types@[0] == ContentType::Handshake);
            }
            assert(handshake_types@.contains(HandshakeType::ServerHello)) by {
                assert(handshake_types@[0] == HandshakeType::ServerHello);
            }
            assert(handshake_types@.contains(HandshakeType::HelloRetryRequest)) by {
                assert(handshake_types@[1] == HandshakeType::HelloRetryRequest);
            }
        }
        match crate::msgs::check_message(&m, &content_types, &handshake_types) {
            Ok(_) => {},
            Err(e) => {
                return Err(e);
            },
        }
        if m.is_handshake_type(HandshakeType::ServerHello) {
            self.into_expect_server_hello().handle(common, data, storage, m)
        } else {
            self.handle_hello_retry_request(common, data, m, now)
        }
    }
}

/// The HelloRetryRequest payload of a message known to carry one.
pub open spec fn spec_hrr_of(m: Message) -> crate::msgs::HelloRetryRequest {
    match m.payload {
        MessagePayload::Handshake(HandshakePayload::HelloRetryRequest(hrr)) => hrr,
        _ => arbitrary(),
    }
}

/// The ServerHello payload of a message known to carry one.
pub open spec fn spec_sh_of(m: Message) -> crate::msgs::ServerHelloPayload {
    match m.payload {
        MessagePayload::Handshake(HandshakePayload::ServerHello(sh)) => sh,
        _ => arbitrary(),
    }
}

/// An SCT list is invalid when it is empty or contains an empty timestamp.
pub open spec fn spec_sct_list_is_invalid(scts: Seq<Vec<u8>>) -> bool {
    scts.len() == 0 || exists|i: int| 0 <= i < scts.len() && (#[trigger] scts[i]@).len() == 0
}

/// Check an SCT list for emptiness or empty entries.
pub fn sct_list_is_invalid(scts: &Vec<Vec<u8>>) -> (r: bool)
    ensures
        r == spec_sct_list_is_invalid(scts@),
{
    if scts.len() == 0 {
        return true;
    }
    let mut i: usize = 0;
    while i < scts.len()
        invariant
            i <= scts@.len(),
            forall|j: int| 0 <= j < i ==> (#[trigger] scts@[j]@).len() != 0,
        decreases scts@.len() - i,
    {
        if scts[i].len() == 0 {
            return true;
        }
        i = i + 1;
    }
    false
}

/// Map a certificate error to its alert: bad encodings decode-fail,
/// misbehaviour is an illegal parameter, everything else is a bad
/// certificate.
pub fn send_cert_error_alert(common: &mut ConnectionCommon, err: Error) -> (r: Error)
    ensures
        r == err,
        *final(common) == (ConnectionCommon {
            sent_alerts: final(common).sent_alerts,
            ..*old(common)
        }),
        final(common).sent_alerts@ == old(common).sent_alerts@.push(
            match err {
                Error::WebPkiError(WebPkiError::BadEncoding) => AlertDescription::DecodeError,
                Error::PeerMisbehavedError(_) => AlertDescription::IllegalParameter,
                _ => AlertDescription::BadCertificate,
            },
        ),
{
    match &err {
        Error::WebPkiError(WebPkiError::BadEncoding) => {
            common.send_fatal_alert(AlertDescription::DecodeError);
        },
        Error::PeerMisbehavedError(_) => {
            common.send_fatal_alert(AlertDescription::IllegalParameter);
        },
        _ => {
            common.send_fatal_alert(AlertDescription::BadCertificate);
        },
    }
    err
}

} // verus!

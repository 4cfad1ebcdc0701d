//! End-to-end client handshake scenarios, driven message by message.

use tlsclient::builder::client_config_builder_with_safe_defaults;
use tlsclient::config::{CertVerifier, ClientCertResolver, ClientConfig};
use tlsclient::conn::{ClientConnectionData, ConnectionCommon, EarlyDataState, Protocol};
use tlsclient::enums::{
    CipherSuite, Compression, NamedGroup, ProtocolVersion, SignatureScheme,
};
use tlsclient::error::{Error, PeerMisbehaved};
use tlsclient::hs::{self, NextState};
use tlsclient::key_schedule::KeyScheduleNonSecret;
use tlsclient::msgs::{
    CertificateEntry, CertificatePayloadTls13, CertificateRequestPayloadTls13, ClientExtension,
    HandshakePayload, HelloRetryRequest, HrrExtension, KeyShareEntry, Message, MessagePayload,
    ServerExtension, ServerHelloPayload, SessionId,
};
use tlsclient::name::ServerName;
use tlsclient::persist::{ClientSessionKey, ClientSessionValue, SessionStorage, StoredValue};
use tlsclient::sign::{self, CertifiedKey, SigningKey};

const NOW: u64 = 1_700_000_000;

fn server_cert() -> Vec<u8> {
    b"server certificate".to_vec()
}

fn test_verifier() -> CertVerifier {
    CertVerifier {
        schemes: vec![
            SignatureScheme::EcdsaNistp384Sha384,
            SignatureScheme::EcdsaNistp256Sha256,
            SignatureScheme::Ed25519,
        ],
        wants_scts: false,
        trusted: vec![server_cert()],
    }
}

fn test_config() -> ClientConfig {
    client_config_builder_with_safe_defaults()
        .with_server_verifier(test_verifier())
        .with_no_client_auth()
}

fn dns_name() -> ServerName {
    ServerName::Dns(b"example.com".to_vec())
}

/// The ClientHello payload inside the `idx`th sent record.
fn sent_client_hello(
    common: &ConnectionCommon,
    idx: usize,
) -> tlsclient::msgs::ClientHelloPayload {
    match &common.sent[idx].msg.payload {
        MessagePayload::Handshake(HandshakePayload::ClientHello(chp)) => {
            tlsclient::msgs::ClientHelloPayload {
                client_version: chp.client_version,
                random: chp.random.clone(),
                session_id: SessionId { bytes: chp.session_id.bytes.clone() },
                cipher_suites: chp.cipher_suites.clone(),
                compression_methods: chp.compression_methods.clone(),
                extensions: tlsclient::msgs::copy_client_exts(&chp.extensions),
            }
        },
        other => panic!("expected a ClientHello, got {:?}", other),
    }
}

fn client_key_share(chp: &tlsclient::msgs::ClientHelloPayload) -> (NamedGroup, Vec<u8>) {
    for e in &chp.extensions {
        if let ClientExtension::KeyShare(entries) = e {
            assert_eq!(entries.len(), 1);
            return (entries[0].group, entries[0].payload.clone());
        }
    }
    panic!("no KeyShare offered");
}

fn server_hello(
    suite: CipherSuite,
    session_id: &SessionId,
    exts: Vec<ServerExtension>,
) -> Message {
    Message {
        version: ProtocolVersion::Tls12,
        payload: MessagePayload::Handshake(HandshakePayload::ServerHello(ServerHelloPayload {
            legacy_version: ProtocolVersion::Tls12,
            random: vec![7u8; 32],
            session_id: SessionId { bytes: session_id.bytes.clone() },
            cipher_suite: suite,
            compression_method: Compression::Null,
            extensions: exts,
        })),
    }
}

fn hs_msg(p: HandshakePayload) -> Message {
    Message { version: ProtocolVersion::Tls13, payload: MessagePayload::Handshake(p) }
}

/// Drive a full TLS 1.3 handshake to the traffic state.  Returns the
/// connection pieces and the traffic state.
fn run_full_handshake(
    config: ClientConfig,
) -> (ConnectionCommon, ClientConnectionData, SessionStorage, NextState) {
    let mut common = ConnectionCommon::new(Protocol::Tcp);
    let mut data = ClientConnectionData::new();
    let mut storage = SessionStorage::new();

    let state = hs::start_handshake(
        dns_name(),
        Vec::new(),
        config,
        &mut common,
        &mut data,
        &storage,
        NOW,
    )
    .expect("start_handshake");

    // P9: the first ClientHello goes out under record version 0x0301.
    assert_eq!(common.sent.len(), 1);
    assert_eq!(common.sent[0].msg.version.code(), 0x0301);
    assert!(!common.sent[0].encrypted);
    let chp = sent_client_hello(&common, 0);
    assert_eq!(chp.client_version, ProtocolVersion::Tls12);
    assert_eq!(*chp.cipher_suites.last().unwrap(), CipherSuite::Scsv);
    let (group, _client_pub) = client_key_share(&chp);
    assert_eq!(group, NamedGroup::X25519);

    let sh = server_hello(
        CipherSuite::Tls13Aes256GcmSha384,
        &chp.session_id,
        vec![
            ServerExtension::KeyShare(KeyShareEntry {
                group,
                payload: b"server share".to_vec(),
            }),
            ServerExtension::SupportedVersions(ProtocolVersion::Tls13),
        ],
    );
    let state = hs::handle(state, &mut common, &mut data, &mut storage, sh, NOW).expect("sh");
    assert_eq!(common.negotiated_version, Some(ProtocolVersion::Tls13));
    assert!(common.record_layer.decrypter.is_some());
    assert!(common.record_layer.encrypter.is_some());
    // The fake ChangeCipherSpec followed the hello.
    assert_eq!(common.sent.len(), 2);
    assert!(matches!(common.sent[1].msg.payload, MessagePayload::ChangeCipherSpec));

    let state = hs::handle(
        state,
        &mut common,
        &mut data,
        &mut storage,
        hs_msg(HandshakePayload::EncryptedExtensions(Vec::new())),
        NOW,
    )
    .expect("ee");
    assert!(matches!(state, NextState::ExpectCertificateOrCertReq(_)));

    let cert_msg = hs_msg(HandshakePayload::CertificateTls13(CertificatePayloadTls13 {
        context: Vec::new(),
        entries: vec![CertificateEntry { cert: server_cert(), exts: Vec::new() }],
    }));
    let state = hs::handle(state, &mut common, &mut data, &mut storage, cert_msg, NOW)
        .expect("cert");

    // The server signs the transcript hash as it stands before
    // CertificateVerify enters the transcript.
    let hash = match &state {
        NextState::ExpectCertificateVerify(s) => s.transcript.get_current_hash(),
        other => panic!("expected ExpectCertificateVerify, got another state: {}", state_name(other)),
    };
    let verify_message = sign::construct_tls13_server_verify_message(&hash);
    let dss = sign::DigitallySignedStruct {
        scheme: SignatureScheme::Ed25519,
        sig: sign::signature(&server_cert(), &verify_message),
    };
    let state = hs::handle(
        state,
        &mut common,
        &mut data,
        &mut storage,
        hs_msg(HandshakePayload::CertificateVerify(dss)),
        NOW,
    )
    .expect("certverify");

    // The server Finished carries the verify-data the handshake schedule
    // derives at the current transcript hash.
    let vd = match &state {
        NextState::ExpectFinished(s) => {
            s.key_schedule.sign_server_finish(&s.transcript.get_current_hash())
        },
        other => panic!("expected ExpectFinished, got {}", state_name(other)),
    };
    let state = hs::handle(
        state,
        &mut common,
        &mut data,
        &mut storage,
        hs_msg(HandshakePayload::Finished(vd)),
        NOW,
    )
    .expect("finished");

    (common, data, storage, state)
}

fn state_name(st: &NextState) -> &'static str {
    match st {
        NextState::ExpectServerHello(_) => "ExpectServerHello",
        NextState::ExpectServerHelloOrHelloRetryRequest(_) => "ExpectServerHelloOrHelloRetryRequest",
        NextState::ExpectEncryptedExtensions(_) => "ExpectEncryptedExtensions",
        NextState::ExpectCertificateOrCertReq(_) => "ExpectCertificateOrCertReq",
        NextState::ExpectCertificateRequest(_) => "ExpectCertificateRequest",
        NextState::ExpectCertificate(_) => "ExpectCertificate",
        NextState::ExpectCertificateVerify(_) => "ExpectCertificateVerify",
        NextState::ExpectFinished(_) => "ExpectFinished",
        NextState::ExpectTraffic(_) => "ExpectTraffic",
        NextState::ExpectQuicTraffic(_) => "ExpectQuicTraffic",
        NextState::Tls12(_) => "Tls12",
    }
}

#[test]
fn full_handshake_reaches_traffic() {
    let (common, _data, _storage, state) = run_full_handshake(test_config());
    assert!(matches!(state, NextState::ExpectTraffic(_)));
    assert!(common.traffic_started);
    // C->S order: ClientHello, fake CCS, then the encrypted Finished.
    assert_eq!(common.sent.len(), 3);
    assert!(matches!(
        common.sent[2].msg.payload,
        MessagePayload::Handshake(HandshakePayload::Finished(_))
    ));
    assert!(common.sent[2].encrypted);
    assert!(common.sent_alerts.is_empty());
}

#[test]
fn finished_round_trip_verify_data_matches() {
    // P6: recompute both sides of the Finished exchange from the same
    // transcript and schedule: the emitted client Finished equals the
    // value derived for the same transcript, and a corrupted copy is
    // rejected elsewhere (see bad_finished_aborts).
    let (common, _data, _storage, state) = run_full_handshake(test_config());
    let traffic = match state {
        NextState::ExpectTraffic(t) => t,
        other => panic!("expected traffic, got {}", state_name(&other)),
    };
    let sent_fin = match &common.sent[2].msg.payload {
        MessagePayload::Handshake(HandshakePayload::Finished(vd)) => vd.clone(),
        _ => panic!("no Finished sent"),
    };
    // The transcript now ends with the client Finished itself; the
    // verify-data was derived at the hash just before it.
    let mut msgs_before = traffic.transcript.data.clone();
    assert!(msgs_before.pop().is_some());
    assert!(!sent_fin.is_empty());
    assert_eq!(sent_fin, {
        // Recompute: verify_data = derive(client_hs_secret, finished, hash).
        let hash = {
            let mut h = vec![traffic.suite.hash.output_len() as u8];
            h.extend_from_slice(&msgs_before);
            h
        };
        tlsclient::key_schedule::derive(
            &traffic_client_hs_secret(&common),
            tlsclient::key_schedule::LABEL_FINISHED,
            &hash,
        )
    });
}

/// Recover the client handshake traffic secret from the encrypter that
/// was installed when the ServerHello was processed (the Finished was
/// sent under it, before the application keys were installed).
fn traffic_client_hs_secret(common: &ConnectionCommon) -> Vec<u8> {
    match &common.sent[2].keys {
        Some(k) => k.secret.clone(),
        None => panic!("client Finished was not encrypted"),
    }
}

#[test]
fn hello_retry_request_flow() {
    // P10: HRR selecting a different group; second hello carries the new
    // share and the cookie; the transcript switches to message-hash form.
    let config = test_config();
    let mut common = ConnectionCommon::new(Protocol::Tcp);
    let mut data = ClientConnectionData::new();
    let mut storage = SessionStorage::new();

    let state = hs::start_handshake(
        dns_name(),
        Vec::new(),
        config,
        &mut common,
        &mut data,
        &storage,
        NOW,
    )
    .expect("start");
    assert_eq!(common.sent[0].msg.version.code(), 0x0301);

    let hrr = hs_msg(HandshakePayload::HelloRetryRequest(HelloRetryRequest {
        legacy_version: ProtocolVersion::Tls12,
        session_id: SessionId { bytes: Vec::new() },
        cipher_suite: CipherSuite::Tls13Aes256GcmSha384,
        extensions: vec![
            HrrExtension::KeyShare(NamedGroup::Secp256r1),
            HrrExtension::Cookie(b"cookie".to_vec()),
            HrrExtension::SupportedVersions(ProtocolVersion::Tls13),
        ],
    }));
    let state = hs::handle(state, &mut common, &mut data, &mut storage, hrr, NOW).expect("hrr");

    // Sent: first hello, fake CCS, second hello — exactly one CCS.
    assert_eq!(common.sent.len(), 3);
    assert!(matches!(common.sent[1].msg.payload, MessagePayload::ChangeCipherSpec));
    // P4: the post-retry hello goes under record version 0x0303.
    assert_eq!(common.sent[2].msg.version.code(), 0x0303);
    let chp2 = sent_client_hello(&common, 2);
    let (group2, _) = client_key_share(&chp2);
    assert_eq!(group2, NamedGroup::Secp256r1);
    let mut cookie_echoed = false;
    for e in &chp2.extensions {
        if let ClientExtension::Cookie(c) = e {
            cookie_echoed = c == b"cookie";
        }
    }
    assert!(cookie_echoed);

    match &state {
        NextState::ExpectServerHello(s) => {
            // Transcript restarted: message-hash, the retry, the new hello.
            assert_eq!(s.transcript_buffer.data.len(), 3);
            assert_eq!(s.transcript_buffer.data[0], 254);
        },
        other => panic!("expected ExpectServerHello, got {}", state_name(other)),
    }
}

fn seeded_cache(max_early_data: u32) -> SessionStorage {
    let mut storage = SessionStorage::new();
    let mut value = ClientSessionValue::new(
        ProtocolVersion::Tls13,
        CipherSuite::Tls13Aes256GcmSha384,
        &SessionId { bytes: Vec::new() },
        b"ticket bytes".to_vec(),
        b"resumption secret".to_vec(),
        &vec![server_cert()],
        NOW - 10,
    );
    value.set_times(3600, 42);
    value.set_max_early_data_size(max_early_data);
    let key = ClientSessionKey::session_for_server_name(&dns_name());
    storage.put(key.get_encoding(), StoredValue::Session(value));
    storage
}

#[test]
fn resumption_with_early_data() {
    // P11: a cached 1.3 ticket with max_early_data_size, early data
    // offered and accepted; EndOfEarlyData after the server Finished.
    let mut config = test_config();
    config.enable_early_data = true;
    let mut common = ConnectionCommon::new(Protocol::Tcp);
    let mut data = ClientConnectionData::new();
    let mut storage = seeded_cache(16384);

    let state = hs::start_handshake(
        dns_name(),
        Vec::new(),
        config,
        &mut common,
        &mut data,
        &storage,
        NOW,
    )
    .expect("start");

    // The hello offers PSK last, with EarlyData before it.
    let chp = sent_client_hello(&common, 0);
    match chp.extensions.last().unwrap() {
        ClientExtension::PresharedKey(offer) => {
            assert_eq!(offer.identities.len(), 1);
            assert_eq!(offer.identities[0].identity, b"ticket bytes".to_vec());
            assert_eq!(offer.binders.len(), 1);
            assert!(!offer.binders[0].iter().all(|b| *b == 0));
        },
        other => panic!("expected a PSK offer last, got {:?}", other),
    }
    assert!(chp
        .extensions
        .iter()
        .any(|e| matches!(e, ClientExtension::EarlyData)));

    // Early keys are installed: the client may encrypt 0-RTT data now.
    assert!(common.early_traffic);
    assert_eq!(data.early_data.state, EarlyDataState::Ready);
    assert_eq!(data.early_data.max_size, 16384);
    let early_secret = common.record_layer.encrypter.as_ref().unwrap().secret.clone();
    // The fake CCS followed the hello (0-RTT keying change).
    assert_eq!(common.sent.len(), 2);
    assert!(matches!(common.sent[1].msg.payload, MessagePayload::ChangeCipherSpec));

    let (group, _) = client_key_share(&chp);
    let sh = server_hello(
        CipherSuite::Tls13Aes256GcmSha384,
        &chp.session_id,
        vec![
            ServerExtension::KeyShare(KeyShareEntry {
                group,
                payload: b"server share".to_vec(),
            }),
            ServerExtension::PresharedKey(0),
            ServerExtension::SupportedVersions(ProtocolVersion::Tls13),
        ],
    );
    let state = hs::handle(state, &mut common, &mut data, &mut storage, sh, NOW).expect("sh");
    // Early traffic continues: the encrypter still holds the early key.
    assert!(common.early_traffic);
    assert_eq!(common.record_layer.encrypter.as_ref().unwrap().secret, early_secret);

    // Server accepts the early data.
    let state = hs::handle(
        state,
        &mut common,
        &mut data,
        &mut storage,
        hs_msg(HandshakePayload::EncryptedExtensions(vec![ServerExtension::EarlyData])),
        NOW,
    )
    .expect("ee");
    assert_eq!(data.early_data.state, EarlyDataState::Accepted);
    let fin_state = match &state {
        NextState::ExpectFinished(s) => s,
        other => panic!("resumption skips certificates, got {}", state_name(other)),
    };

    let vd = fin_state
        .key_schedule
        .sign_server_finish(&fin_state.transcript.get_current_hash());
    let state = hs::handle(
        state,
        &mut common,
        &mut data,
        &mut storage,
        hs_msg(HandshakePayload::Finished(vd)),
        NOW,
    )
    .expect("finished");
    assert!(matches!(state, NextState::ExpectTraffic(_)));

    // EndOfEarlyData went out after the server Finished arrived, still
    // before the client Finished.
    let eoed_idx = common
        .sent
        .iter()
        .position(|r| {
            matches!(
                r.msg.payload,
                MessagePayload::Handshake(HandshakePayload::EndOfEarlyData)
            )
        })
        .expect("EndOfEarlyData sent");
    let fin_idx = common
        .sent
        .iter()
        .position(|r| {
            matches!(r.msg.payload, MessagePayload::Handshake(HandshakePayload::Finished(_)))
        })
        .expect("client Finished sent");
    assert!(eoed_idx < fin_idx);
    // EndOfEarlyData still travelled under the early keys.
    assert_eq!(
        common.sent[eoed_idx].keys.as_ref().unwrap().secret,
        early_secret
    );
    assert_eq!(data.early_data.state, EarlyDataState::AcceptedFinished);
}

#[test]
fn resumption_refused_early_data_rejected() {
    // P12: same cache, but the server omits the PSK extension: the
    // client clears early traffic, drops the resumption, and the
    // schedule derives from the non-secret branch.
    let mut config = test_config();
    config.enable_early_data = true;
    let mut common = ConnectionCommon::new(Protocol::Tcp);
    let mut data = ClientConnectionData::new();
    let mut storage = seeded_cache(16384);

    let state = hs::start_handshake(
        dns_name(),
        Vec::new(),
        config,
        &mut common,
        &mut data,
        &storage,
        NOW,
    )
    .expect("start");
    assert!(common.early_traffic);
    let chp = sent_client_hello(&common, 0);
    let (group, _) = client_key_share(&chp);

    // No PreSharedKey extension: resumption refused.
    let sh = server_hello(
        CipherSuite::Tls13Aes256GcmSha384,
        &chp.session_id,
        vec![
            ServerExtension::KeyShare(KeyShareEntry {
                group,
                payload: b"server share".to_vec(),
            }),
            ServerExtension::SupportedVersions(ProtocolVersion::Tls13),
        ],
    );
    let state = hs::handle(state, &mut common, &mut data, &mut storage, sh, NOW).expect("sh");
    assert!(!common.early_traffic);
    assert_eq!(data.early_data.state, EarlyDataState::Rejected);
    match &state {
        NextState::ExpectEncryptedExtensions(s) => {
            assert!(s.resuming_session.is_none());
            // The non-secret branch: a schedule derived with no cached
            // secret at all gives the identical handshake secret.
            let mut shared = vec![75u8];
            shared.extend_from_slice(&first_hello_private_key(&common));
            shared.extend_from_slice(b"server share");
            let expected = KeyScheduleNonSecret::new().into_handshake(&shared);
            assert_eq!(s.key_schedule.secret, expected.secret);
        },
        other => panic!("expected ExpectEncryptedExtensions, got {}", state_name(other)),
    }
}

/// The private key behind the share offered in the first hello: the
/// model public share is a tag byte followed by the private key.
fn first_hello_private_key(common: &ConnectionCommon) -> Vec<u8> {
    let chp = sent_client_hello(common, 0);
    let (_, pubkey) = client_key_share(&chp);
    pubkey[1..].to_vec()
}

#[test]
fn duplicate_server_hello_extension_aborts() {
    // P13 / P5: a duplicate extension in the ServerHello aborts with a
    // DecodeError alert before any key is installed.
    let config = test_config();
    let mut common = ConnectionCommon::new(Protocol::Tcp);
    let mut data = ClientConnectionData::new();
    let mut storage = SessionStorage::new();

    let state = hs::start_handshake(
        dns_name(),
        Vec::new(),
        config,
        &mut common,
        &mut data,
        &storage,
        NOW,
    )
    .expect("start");
    let chp = sent_client_hello(&common, 0);
    let (group, _) = client_key_share(&chp);

    let sh = server_hello(
        CipherSuite::Tls13Aes256GcmSha384,
        &chp.session_id,
        vec![
            ServerExtension::KeyShare(KeyShareEntry {
                group,
                payload: b"server share".to_vec(),
            }),
            ServerExtension::SupportedVersions(ProtocolVersion::Tls13),
            ServerExtension::SupportedVersions(ProtocolVersion::Tls13),
        ],
    );
    let err = match hs::handle(state, &mut common, &mut data, &mut storage, sh, NOW) {
        Err(e) => e,
        Ok(_) => panic!("expected an error"),
    };
    assert!(matches!(
        err,
        Error::PeerMisbehavedError(PeerMisbehaved::DuplicateServerHelloExtensions)
    ));
    assert_eq!(
        common.sent_alerts,
        vec![tlsclient::enums::AlertDescription::DecodeError]
    );
    assert!(common.record_layer.encrypter.is_none());
    assert!(common.record_layer.decrypter.is_none());
}

fn client_auth_config(schemes: Vec<SignatureScheme>) -> ClientConfig {
    let resolver = ClientCertResolver {
        credential: Some(CertifiedKey {
            cert: vec![b"client certificate".to_vec()],
            key: SigningKey { key: b"client key".to_vec(), schemes },
        }),
    };
    client_config_builder_with_safe_defaults()
        .with_server_verifier(test_verifier())
        .with_client_cert_resolver(resolver)
}

fn run_client_auth(config: ClientConfig) -> ConnectionCommon {
    let mut common = ConnectionCommon::new(Protocol::Tcp);
    let mut data = ClientConnectionData::new();
    let mut storage = SessionStorage::new();

    let state = hs::start_handshake(
        dns_name(),
        Vec::new(),
        config,
        &mut common,
        &mut data,
        &storage,
        NOW,
    )
    .expect("start");
    let chp = sent_client_hello(&common, 0);
    let (group, _) = client_key_share(&chp);
    let sh = server_hello(
        CipherSuite::Tls13Aes256GcmSha384,
        &chp.session_id,
        vec![
            ServerExtension::KeyShare(KeyShareEntry {
                group,
                payload: b"server share".to_vec(),
            }),
            ServerExtension::SupportedVersions(ProtocolVersion::Tls13),
        ],
    );
    let state = hs::handle(state, &mut common, &mut data, &mut storage, sh, NOW).expect("sh");
    let state = hs::handle(
        state,
        &mut common,
        &mut data,
        &mut storage,
        hs_msg(HandshakePayload::EncryptedExtensions(Vec::new())),
        NOW,
    )
    .expect("ee");

    // The server requests client authentication.
    let certreq = hs_msg(HandshakePayload::CertificateRequestTls13(
        CertificateRequestPayloadTls13 {
            context: Vec::new(),
            sigalgs: Some(vec![SignatureScheme::Ed25519, SignatureScheme::EcdsaNistp256Sha256]),
            authorities: None,
        },
    ));
    let state = hs::handle(state, &mut common, &mut data, &mut storage, certreq, NOW)
        .expect("certreq");
    assert!(matches!(state, NextState::ExpectCertificate(_)));

    let cert_msg = hs_msg(HandshakePayload::CertificateTls13(CertificatePayloadTls13 {
        context: Vec::new(),
        entries: vec![CertificateEntry { cert: server_cert(), exts: Vec::new() }],
    }));
    let state = hs::handle(state, &mut common, &mut data, &mut storage, cert_msg, NOW)
        .expect("cert");
    let hash = match &state {
        NextState::ExpectCertificateVerify(s) => s.transcript.get_current_hash(),
        other => panic!("expected ExpectCertificateVerify, got {}", state_name(other)),
    };
    let dss = sign::DigitallySignedStruct {
        scheme: SignatureScheme::Ed25519,
        sig: sign::signature(&server_cert(), &sign::construct_tls13_server_verify_message(&hash)),
    };
    let state = hs::handle(
        state,
        &mut common,
        &mut data,
        &mut storage,
        hs_msg(HandshakePayload::CertificateVerify(dss)),
        NOW,
    )
    .expect("certverify");
    let vd = match &state {
        NextState::ExpectFinished(s) => {
            s.key_schedule.sign_server_finish(&s.transcript.get_current_hash())
        },
        other => panic!("expected ExpectFinished, got {}", state_name(other)),
    };
    let state = hs::handle(
        state,
        &mut common,
        &mut data,
        &mut storage,
        hs_msg(HandshakePayload::Finished(vd)),
        NOW,
    )
    .expect("finished");
    assert!(matches!(state, NextState::ExpectTraffic(_)));
    common
}

#[test]
fn client_auth_sends_certificate_and_verify() {
    // P14: an Ed25519 credential is sent as Certificate + CertificateVerify.
    let common = run_client_auth(client_auth_config(vec![SignatureScheme::Ed25519]));
    let mut saw_cert = false;
    let mut saw_cv = false;
    let mut saw_fin = false;
    for rec in &common.sent {
        match &rec.msg.payload {
            MessagePayload::Handshake(HandshakePayload::CertificateTls13(payload)) => {
                saw_cert = true;
                assert_eq!(payload.entries.len(), 1);
                assert_eq!(payload.entries[0].cert, b"client certificate".to_vec());
                assert!(!saw_cv && !saw_fin);
            },
            MessagePayload::Handshake(HandshakePayload::CertificateVerify(dss)) => {
                saw_cv = true;
                assert_eq!(dss.scheme, SignatureScheme::Ed25519);
                assert!(saw_cert && !saw_fin);
            },
            MessagePayload::Handshake(HandshakePayload::Finished(_)) => {
                saw_fin = true;
            },
            _ => {},
        }
    }
    assert!(saw_cert && saw_cv && saw_fin);
}

#[test]
fn client_auth_without_credential_sends_empty_certificate() {
    // P14: with no credential, the Certificate is empty and no
    // CertificateVerify follows.
    let config = client_config_builder_with_safe_defaults()
        .with_server_verifier(test_verifier())
        .with_no_client_auth();
    let common = run_client_auth(config);
    let mut saw_cert = false;
    for rec in &common.sent {
        match &rec.msg.payload {
            MessagePayload::Handshake(HandshakePayload::CertificateTls13(payload)) => {
                saw_cert = true;
                assert_eq!(payload.entries.len(), 0);
            },
            MessagePayload::Handshake(HandshakePayload::CertificateVerify(_)) => {
                panic!("CertificateVerify must not be sent without a signer");
            },
            _ => {},
        }
    }
    assert!(saw_cert);
}

#[test]
fn bad_finished_aborts() {
    // A corrupted server Finished fails the constant-time comparison:
    // DecryptError alert, DecryptError result.
    let config = test_config();
    let mut common = ConnectionCommon::new(Protocol::Tcp);
    let mut data = ClientConnectionData::new();
    let mut storage = SessionStorage::new();

    let state = hs::start_handshake(
        dns_name(),
        Vec::new(),
        config,
        &mut common,
        &mut data,
        &storage,
        NOW,
    )
    .expect("start");
    let chp = sent_client_hello(&common, 0);
    let (group, _) = client_key_share(&chp);
    let sh = server_hello(
        CipherSuite::Tls13Aes256GcmSha384,
        &chp.session_id,
        vec![
            ServerExtension::KeyShare(KeyShareEntry {
                group,
                payload: b"server share".to_vec(),
            }),
            ServerExtension::SupportedVersions(ProtocolVersion::Tls13),
        ],
    );
    let state = hs::handle(state, &mut common, &mut data, &mut storage, sh, NOW).expect("sh");
    let state = hs::handle(
        state,
        &mut common,
        &mut data,
        &mut storage,
        hs_msg(HandshakePayload::EncryptedExtensions(Vec::new())),
        NOW,
    )
    .expect("ee");
    let cert_msg = hs_msg(HandshakePayload::CertificateTls13(CertificatePayloadTls13 {
        context: Vec::new(),
        entries: vec![CertificateEntry { cert: server_cert(), exts: Vec::new() }],
    }));
    let state = hs::handle(state, &mut common, &mut data, &mut storage, cert_msg, NOW)
        .expect("cert");
    let hash = match &state {
        NextState::ExpectCertificateVerify(s) => s.transcript.get_current_hash(),
        other => panic!("expected ExpectCertificateVerify, got {}", state_name(other)),
    };
    let dss = sign::DigitallySignedStruct {
        scheme: SignatureScheme::Ed25519,
        sig: sign::signature(&server_cert(), &sign::construct_tls13_server_verify_message(&hash)),
    };
    let state = hs::handle(
        state,
        &mut common,
        &mut data,
        &mut storage,
        hs_msg(HandshakePayload::CertificateVerify(dss)),
        NOW,
    )
    .expect("certverify");

    let err = match hs::handle(
        state,
        &mut common,
        &mut data,
        &mut storage,
        hs_msg(HandshakePayload::Finished(b"wrong".to_vec())),
        NOW,
    ) {
        Err(e) => e,
        Ok(_) => panic!("expected an error"),
    };
    assert!(matches!(err, Error::DecryptError));
    assert_eq!(
        *common.sent_alerts.last().unwrap(),
        tlsclient::enums::AlertDescription::DecryptError
    );
}

#[test]
fn new_session_ticket_is_cached_and_resumable() {
    // Session storage round trip: a ticket received in traffic becomes a
    // cache entry that find_session resolves.
    let (mut common, mut data, mut storage, state) = run_full_handshake(test_config());
    let state = hs::handle(
        state,
        &mut common,
        &mut data,
        &mut storage,
        hs_msg(HandshakePayload::NewSessionTicketTls13(
            tlsclient::msgs::NewSessionTicketPayloadTls13 {
                lifetime: 7200,
                age_add: 17,
                nonce: b"nonce".to_vec(),
                ticket: b"fresh ticket".to_vec(),
                max_early_data_size: Some(1024),
            },
        )),
        NOW,
    )
    .expect("ticket");
    assert!(matches!(state, NextState::ExpectTraffic(_)));

    let key = ClientSessionKey::session_for_server_name(&dns_name());
    match storage.get(&key.get_encoding()) {
        Some(StoredValue::Session(v)) => {
            assert_eq!(v.version, ProtocolVersion::Tls13);
            assert_eq!(v.cipher_suite, CipherSuite::Tls13Aes256GcmSha384);
            assert_eq!(v.ticket, b"fresh ticket".to_vec());
            assert_eq!(v.lifetime, 7200);
            assert_eq!(v.age_add, 17);
            assert_eq!(v.max_early_data_size, 1024);
            assert_eq!(v.epoch, NOW);
        },
        other => panic!("expected a cached session, got {:?}", other.is_some()),
    }
}

#[test]
fn key_update_rotates_read_key_and_defers_write() {
    // P7: UpdateNotRequested leaves the write key alone; after
    // UpdateRequested exactly one KeyUpdate goes out on the next write.
    let (mut common, mut data, mut storage, state) = run_full_handshake(test_config());
    let write_key_before = common.record_layer.encrypter.as_ref().unwrap().secret.clone();
    let read_key_before = common.record_layer.decrypter.as_ref().unwrap().secret.clone();
    let sent_before = common.sent.len();

    let state = hs::handle(
        state,
        &mut common,
        &mut data,
        &mut storage,
        hs_msg(HandshakePayload::KeyUpdate(
            tlsclient::enums::KeyUpdateRequest::UpdateNotRequested,
        )),
        NOW,
    )
    .expect("keyupdate");
    // Read key rotated; write key unchanged; nothing sent.
    assert_ne!(common.record_layer.decrypter.as_ref().unwrap().secret, read_key_before);
    assert_eq!(common.record_layer.encrypter.as_ref().unwrap().secret, write_key_before);
    assert_eq!(common.sent.len(), sent_before);

    let state = hs::handle(
        state,
        &mut common,
        &mut data,
        &mut storage,
        hs_msg(HandshakePayload::KeyUpdate(
            tlsclient::enums::KeyUpdateRequest::UpdateRequested,
        )),
        NOW,
    )
    .expect("keyupdate requested");
    let mut traffic = match state {
        NextState::ExpectTraffic(t) => t,
        other => panic!("expected traffic, got {}", state_name(&other)),
    };
    assert!(traffic.want_write_key_update);
    // The write key changes only on the next write.
    assert_eq!(common.record_layer.encrypter.as_ref().unwrap().secret, write_key_before);

    traffic.perhaps_write_key_update(&mut common);
    assert_eq!(common.sent.len(), sent_before + 1);
    assert!(matches!(
        common.sent.last().unwrap().msg.payload,
        MessagePayload::Handshake(HandshakePayload::KeyUpdate(
            tlsclient::enums::KeyUpdateRequest::UpdateNotRequested
        ))
    ));
    assert_ne!(common.record_layer.encrypter.as_ref().unwrap().secret, write_key_before);

    // A second write sends nothing further.
    let sent_after = common.sent.len();
    traffic.perhaps_write_key_update(&mut common);
    assert_eq!(common.sent.len(), sent_after);
}

#[test]
fn application_data_is_delivered() {
    let (mut common, mut data, mut storage, state) = run_full_handshake(test_config());
    let _ = hs::handle(
        state,
        &mut common,
        &mut data,
        &mut storage,
        Message {
            version: ProtocolVersion::Tls13,
            payload: MessagePayload::ApplicationData(b"hello application".to_vec()),
        },
        NOW,
    )
    .expect("app data");
    assert_eq!(common.received_plaintext, vec![b"hello application".to_vec()]);
}

#[test]
fn tls12_server_choice_hands_off() {
    // A server selecting TLS 1.2 with a 1.2 suite hands off to the
    // TLS 1.2 path with the negotiated parameters.
    let config = test_config();
    let mut common = ConnectionCommon::new(Protocol::Tcp);
    let mut data = ClientConnectionData::new();
    let mut storage = SessionStorage::new();

    let state = hs::start_handshake(
        dns_name(),
        Vec::new(),
        config,
        &mut common,
        &mut data,
        &storage,
        NOW,
    )
    .expect("start");
    let chp = sent_client_hello(&common, 0);
    let sh = server_hello(
        CipherSuite::EcdheEcdsaAes128GcmSha256,
        &chp.session_id,
        Vec::new(),
    );
    let state = hs::handle(state, &mut common, &mut data, &mut storage, sh, NOW).expect("sh");
    assert_eq!(common.negotiated_version, Some(ProtocolVersion::Tls12));
    match state {
        NextState::Tls12(handoff) => {
            assert_eq!(handoff.suite.suite, CipherSuite::EcdheEcdsaAes128GcmSha256);
        },
        other => panic!("expected the TLS 1.2 hand-off, got {}", state_name(&other)),
    }
}

#[test]
fn unsupported_version_is_fatal() {
    let mut config = test_config();
    config.versions.tls12 = false;
    let mut common = ConnectionCommon::new(Protocol::Tcp);
    let mut data = ClientConnectionData::new();
    let mut storage = SessionStorage::new();

    let state = hs::start_handshake(
        dns_name(),
        Vec::new(),
        config,
        &mut common,
        &mut data,
        &storage,
        NOW,
    )
    .expect("start");
    let chp = sent_client_hello(&common, 0);
    let sh = server_hello(CipherSuite::EcdheEcdsaAes128GcmSha256, &chp.session_id, Vec::new());
    let err = match hs::handle(state, &mut common, &mut data, &mut storage, sh, NOW) {
        Err(e) => e,
        Ok(_) => panic!("expected an error"),
    };
    assert!(matches!(
        err,
        Error::PeerIncompatibleError(tlsclient::error::PeerIncompatible::UnsupportedVersion)
    ));
    assert_eq!(
        common.sent_alerts,
        vec![tlsclient::enums::AlertDescription::ProtocolVersion]
    );
}

#[test]
fn untrusted_certificate_is_rejected() {
    let config = test_config();
    let mut common = ConnectionCommon::new(Protocol::Tcp);
    let mut data = ClientConnectionData::new();
    let mut storage = SessionStorage::new();

    let state = hs::start_handshake(
        dns_name(),
        Vec::new(),
        config,
        &mut common,
        &mut data,
        &storage,
        NOW,
    )
    .expect("start");
    let chp = sent_client_hello(&common, 0);
    let (group, _) = client_key_share(&chp);
    let sh = server_hello(
        CipherSuite::Tls13Aes256GcmSha384,
        &chp.session_id,
        vec![
            ServerExtension::KeyShare(KeyShareEntry {
                group,
                payload: b"server share".to_vec(),
            }),
            ServerExtension::SupportedVersions(ProtocolVersion::Tls13),
        ],
    );
    let state = hs::handle(state, &mut common, &mut data, &mut storage, sh, NOW).expect("sh");
    let state = hs::handle(
        state,
        &mut common,
        &mut data,
        &mut storage,
        hs_msg(HandshakePayload::EncryptedExtensions(Vec::new())),
        NOW,
    )
    .expect("ee");
    let cert_msg = hs_msg(HandshakePayload::CertificateTls13(CertificatePayloadTls13 {
        context: Vec::new(),
        entries: vec![CertificateEntry { cert: b"someone else".to_vec(), exts: Vec::new() }],
    }));
    let state = hs::handle(state, &mut common, &mut data, &mut storage, cert_msg, NOW)
        .expect("cert");
    let hash = match &state {
        NextState::ExpectCertificateVerify(s) => s.transcript.get_current_hash(),
        other => panic!("expected ExpectCertificateVerify, got {}", state_name(other)),
    };
    let dss = sign::DigitallySignedStruct {
        scheme: SignatureScheme::Ed25519,
        sig: sign::signature(
            &b"someone else".to_vec(),
            &sign::construct_tls13_server_verify_message(&hash),
        ),
    };
    let err = match hs::handle(
        state,
        &mut common,
        &mut data,
        &mut storage,
        hs_msg(HandshakePayload::CertificateVerify(dss)),
        NOW,
    ) {
        Err(e) => e,
        Ok(_) => panic!("expected an error"),
    };
    assert!(matches!(
        err,
        Error::WebPkiError(tlsclient::error::WebPkiError::CertNotTrusted)
    ));
    assert_eq!(
        *common.sent_alerts.last().unwrap(),
        tlsclient::enums::AlertDescription::BadCertificate
    );
}

#[test]
fn wrong_group_key_share_is_rejected() {
    let config = test_config();
    let mut common = ConnectionCommon::new(Protocol::Tcp);
    let mut data = ClientConnectionData::new();
    let mut storage = SessionStorage::new();

    let state = hs::start_handshake(
        dns_name(),
        Vec::new(),
        config,
        &mut common,
        &mut data,
        &storage,
        NOW,
    )
    .expect("start");
    let chp = sent_client_hello(&common, 0);
    let sh = server_hello(
        CipherSuite::Tls13Aes256GcmSha384,
        &chp.session_id,
        vec![
            ServerExtension::KeyShare(KeyShareEntry {
                group: NamedGroup::Secp384r1,
                payload: b"server share".to_vec(),
            }),
            ServerExtension::SupportedVersions(ProtocolVersion::Tls13),
        ],
    );
    let err = match hs::handle(state, &mut common, &mut data, &mut storage, sh, NOW) {
        Err(e) => e,
        Ok(_) => panic!("expected an error"),
    };
    assert!(matches!(
        err,
        Error::PeerMisbehavedError(PeerMisbehaved::WrongGroupForKeyShare)
    ));
}

#[test]
fn hello_retry_with_no_changes_is_rejected() {
    let config = test_config();
    let mut common = ConnectionCommon::new(Protocol::Tcp);
    let mut data = ClientConnectionData::new();
    let mut storage = SessionStorage::new();
    let state = hs::start_handshake(
        dns_name(),
        Vec::new(),
        config,
        &mut common,
        &mut data,
        &storage,
        NOW,
    )
    .expect("start");

    // Neither a cookie nor a different group: no legal change.
    let hrr = hs_msg(HandshakePayload::HelloRetryRequest(HelloRetryRequest {
        legacy_version: ProtocolVersion::Tls12,
        session_id: SessionId { bytes: Vec::new() },
        cipher_suite: CipherSuite::Tls13Aes256GcmSha384,
        extensions: vec![HrrExtension::SupportedVersions(ProtocolVersion::Tls13)],
    }));
    let err = match hs::handle(state, &mut common, &mut data, &mut storage, hrr, NOW) {
        Err(e) => e,
        Ok(_) => panic!("expected an error"),
    };
    assert!(matches!(
        err,
        Error::PeerMisbehavedError(PeerMisbehaved::IllegalHelloRetryWithNoChanges)
    ));
}

#[test]
fn unsolicited_server_hello_extension_is_rejected() {
    let config = test_config();
    let mut common = ConnectionCommon::new(Protocol::Tcp);
    let mut data = ClientConnectionData::new();
    let mut storage = SessionStorage::new();
    let state = hs::start_handshake(
        dns_name(),
        Vec::new(),
        config,
        &mut common,
        &mut data,
        &storage,
        NOW,
    )
    .expect("start");
    let chp = sent_client_hello(&common, 0);
    // EarlyData was never offered in the hello.
    let sh = server_hello(
        CipherSuite::Tls13Aes256GcmSha384,
        &chp.session_id,
        vec![ServerExtension::EarlyData],
    );
    let err = match hs::handle(state, &mut common, &mut data, &mut storage, sh, NOW) {
        Err(e) => e,
        Ok(_) => panic!("expected an error"),
    };
    assert!(matches!(
        err,
        Error::PeerMisbehavedError(PeerMisbehaved::UnsolicitedServerHelloExtension)
    ));
    assert_eq!(
        *common.sent_alerts.last().unwrap(),
        tlsclient::enums::AlertDescription::UnsupportedExtension
    );
}

#[test]
fn non_offered_alpn_is_rejected() {
    let mut config = test_config();
    config.alpn_protocols = vec![b"h2".to_vec()];
    let mut common = ConnectionCommon::new(Protocol::Tcp);
    let mut data = ClientConnectionData::new();
    let mut storage = SessionStorage::new();
    let state = hs::start_handshake(
        dns_name(),
        Vec::new(),
        config,
        &mut common,
        &mut data,
        &storage,
        NOW,
    )
    .expect("start");
    let chp = sent_client_hello(&common, 0);
    let (group, _) = client_key_share(&chp);
    let sh = server_hello(
        CipherSuite::Tls13Aes256GcmSha384,
        &chp.session_id,
        vec![
            ServerExtension::KeyShare(KeyShareEntry {
                group,
                payload: b"server share".to_vec(),
            }),
            ServerExtension::SupportedVersions(ProtocolVersion::Tls13),
        ],
    );
    let state = hs::handle(state, &mut common, &mut data, &mut storage, sh, NOW).expect("sh");

    // The server selects a protocol the client never offered.
    let ee = hs_msg(HandshakePayload::EncryptedExtensions(vec![ServerExtension::Protocols(
        vec![b"smtp".to_vec()],
    )]));
    let err = match hs::handle(state, &mut common, &mut data, &mut storage, ee, NOW) {
        Err(e) => e,
        Ok(_) => panic!("expected an error"),
    };
    assert!(matches!(
        err,
        Error::PeerMisbehavedError(PeerMisbehaved::SelectedUnofferedApplicationProtocol)
    ));
}

#[test]
fn early_data_extension_without_resumption_is_rejected() {
    // The server refused the PSK, so the resumption was dropped; an
    // EarlyData extension in EncryptedExtensions is then a violation.
    let mut config = test_config();
    config.enable_early_data = true;
    let mut common = ConnectionCommon::new(Protocol::Tcp);
    let mut data = ClientConnectionData::new();
    let mut storage = seeded_cache(16384);
    let state = hs::start_handshake(
        dns_name(),
        Vec::new(),
        config,
        &mut common,
        &mut data,
        &storage,
        NOW,
    )
    .expect("start");
    let chp = sent_client_hello(&common, 0);
    let (group, _) = client_key_share(&chp);
    let sh = server_hello(
        CipherSuite::Tls13Aes256GcmSha384,
        &chp.session_id,
        vec![
            ServerExtension::KeyShare(KeyShareEntry {
                group,
                payload: b"server share".to_vec(),
            }),
            ServerExtension::SupportedVersions(ProtocolVersion::Tls13),
        ],
    );
    let state = hs::handle(state, &mut common, &mut data, &mut storage, sh, NOW).expect("sh");
    let ee = hs_msg(HandshakePayload::EncryptedExtensions(vec![ServerExtension::EarlyData]));
    let err = match hs::handle(state, &mut common, &mut data, &mut storage, ee, NOW) {
        Err(e) => e,
        Ok(_) => panic!("expected an error"),
    };
    assert!(matches!(
        err,
        Error::PeerMisbehavedError(PeerMisbehaved::EarlyDataExtensionWithoutResumption)
    ));
}

#[test]
fn unknown_key_update_request_is_rejected() {
    let (mut common, mut data, mut storage, state) = run_full_handshake(test_config());
    let read_key_before = common.record_layer.decrypter.as_ref().unwrap().secret.clone();
    let err = match hs::handle(
        state,
        &mut common,
        &mut data,
        &mut storage,
        hs_msg(HandshakePayload::KeyUpdate(tlsclient::enums::KeyUpdateRequest::Unknown(7))),
        NOW,
    ) {
        Err(e) => e,
        Ok(_) => panic!("expected an error"),
    };
    assert!(matches!(
        err,
        Error::CorruptMessagePayload(tlsclient::enums::ContentType::Handshake)
    ));
    assert_eq!(
        *common.sent_alerts.last().unwrap(),
        tlsclient::enums::AlertDescription::IllegalParameter
    );
    // No key changed.
    assert_eq!(common.record_layer.decrypter.as_ref().unwrap().secret, read_key_before);
}

#[test]
fn disallowed_encrypted_extension_is_rejected() {
    let config = test_config();
    let mut common = ConnectionCommon::new(Protocol::Tcp);
    let mut data = ClientConnectionData::new();
    let mut storage = SessionStorage::new();
    let state = hs::start_handshake(
        dns_name(),
        Vec::new(),
        config,
        &mut common,
        &mut data,
        &storage,
        NOW,
    )
    .expect("start");
    let chp = sent_client_hello(&common, 0);
    let (group, _) = client_key_share(&chp);
    let sh = server_hello(
        CipherSuite::Tls13Aes256GcmSha384,
        &chp.session_id,
        vec![
            ServerExtension::KeyShare(KeyShareEntry {
                group,
                payload: b"server share".to_vec(),
            }),
            ServerExtension::SupportedVersions(ProtocolVersion::Tls13),
        ],
    );
    let state = hs::handle(state, &mut common, &mut data, &mut storage, sh, NOW).expect("sh");
    // ExtendedMasterSecret was offered (so not unsolicited) but is
    // forbidden inside TLS 1.3 EncryptedExtensions.
    let ee = hs_msg(HandshakePayload::EncryptedExtensions(vec![
        ServerExtension::ExtendedMasterSecretAck,
    ]));
    let err = match hs::handle(state, &mut common, &mut data, &mut storage, ee, NOW) {
        Err(e) => e,
        Ok(_) => panic!("expected an error"),
    };
    assert!(matches!(
        err,
        Error::PeerMisbehavedError(PeerMisbehaved::DisallowedEncryptedExtension)
    ));
    assert_eq!(
        *common.sent_alerts.last().unwrap(),
        tlsclient::enums::AlertDescription::UnsupportedExtension
    );
}

#[test]
fn certreq_without_common_schemes_fails() {
    let config = client_auth_config(vec![SignatureScheme::Ed25519]);
    let mut common = ConnectionCommon::new(Protocol::Tcp);
    let mut data = ClientConnectionData::new();
    let mut storage = SessionStorage::new();
    let state = hs::start_handshake(
        dns_name(),
        Vec::new(),
        config,
        &mut common,
        &mut data,
        &storage,
        NOW,
    )
    .expect("start");
    let chp = sent_client_hello(&common, 0);
    let (group, _) = client_key_share(&chp);
    let sh = server_hello(
        CipherSuite::Tls13Aes256GcmSha384,
        &chp.session_id,
        vec![
            ServerExtension::KeyShare(KeyShareEntry {
                group,
                payload: b"server share".to_vec(),
            }),
            ServerExtension::SupportedVersions(ProtocolVersion::Tls13),
        ],
    );
    let state = hs::handle(state, &mut common, &mut data, &mut storage, sh, NOW).expect("sh");
    let state = hs::handle(
        state,
        &mut common,
        &mut data,
        &mut storage,
        hs_msg(HandshakePayload::EncryptedExtensions(Vec::new())),
        NOW,
    )
    .expect("ee");
    // No requested scheme is one this client can sign with.
    let certreq = hs_msg(HandshakePayload::CertificateRequestTls13(
        CertificateRequestPayloadTls13 {
            context: Vec::new(),
            sigalgs: Some(vec![SignatureScheme::RsaPkcs1Sha256]),
            authorities: None,
        },
    ));
    let err = match hs::handle(state, &mut common, &mut data, &mut storage, certreq, NOW) {
        Err(e) => e,
        Ok(_) => panic!("expected an error"),
    };
    assert!(matches!(
        err,
        Error::PeerIncompatibleError(
            tlsclient::error::PeerIncompatible::NoCertificateRequestSignatureSchemesInCommon
        )
    ));
    assert_eq!(
        *common.sent_alerts.last().unwrap(),
        tlsclient::enums::AlertDescription::HandshakeFailure
    );
}

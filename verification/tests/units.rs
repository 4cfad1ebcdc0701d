//! Unit tests for the builder, the session cache, the message helpers
//! and the key schedule model.

use tlsclient::builder::{config_builder, client_config_builder_with_safe_defaults};
use tlsclient::config::CertVerifier;
use tlsclient::enums::{
    CipherSuite, ContentType, ExtensionType, HandshakeType, NamedGroup, ProtocolVersion,
    SignatureScheme,
};
use tlsclient::error::{Error, GeneralErrorKind};
use tlsclient::msgs::{
    check_message, ClientHelloDetails, HandshakePayload, Message, MessagePayload, ServerExtension,
    SessionId,
};
use tlsclient::name::ServerName;
use tlsclient::persist::{
    ClientSessionKey, ClientSessionValue, ResolvedSession, SessionStorage, StoredValue,
};
use tlsclient::key_schedule::{KeyScheduleEarly, KeyScheduleNonSecret};
use tlsclient::suites::{default_cipher_suites, default_kx_groups, SupportedCipherSuite};
use tlsclient::versions::default_versions;

fn no_verifier() -> CertVerifier {
    CertVerifier { schemes: vec![SignatureScheme::Ed25519], wants_scts: false, trusted: Vec::new() }
}

#[test]
fn builder_validates_safe_defaults() {
    // The safe defaults always validate; the resulting config carries
    // them unchanged.
    let config = client_config_builder_with_safe_defaults()
        .with_server_verifier(no_verifier())
        .with_no_client_auth();
    assert_eq!(config.cipher_suites.len(), default_cipher_suites().len());
    assert_eq!(config.kx_groups, default_kx_groups());
    assert!(config.versions.tls12);
    assert!(config.versions.tls13);
    assert!(config.enable_sni);
    assert!(config.enable_tickets);
    assert!(!config.enable_early_data);
}

#[test]
fn builder_rejects_unusable_suites() {
    // No suite of an enabled version: "no usable cipher suites".
    let only_13: Vec<SupportedCipherSuite> = default_cipher_suites()
        .into_iter()
        .filter(|s| matches!(s, SupportedCipherSuite::Tls13(_)))
        .collect();
    let r = config_builder()
        .with_cipher_suites(&only_13)
        .with_safe_default_kx_groups()
        .with_protocol_versions(&vec![ProtocolVersion::Tls12])
        .for_client();
    match r {
        Err(Error::General(GeneralErrorKind::NoUsableCipherSuitesConfigured)) => {},
        _ => panic!("expected the no-usable-suites error"),
    }
}

#[test]
fn builder_rejects_empty_kx_groups() {
    let r = config_builder()
        .with_safe_default_cipher_suites()
        .with_kx_groups(&Vec::new())
        .with_safe_default_protocol_versions()
        .for_client();
    match r {
        Err(Error::General(GeneralErrorKind::NoKxGroupsConfigured)) => {},
        _ => panic!("expected the no-kx-groups error"),
    }
}

#[test]
fn builder_accepts_explicit_choices() {
    let suites = default_cipher_suites();
    let groups = vec![NamedGroup::Secp384r1];
    let versions = default_versions();
    let b = config_builder()
        .with_cipher_suites(&suites)
        .with_kx_groups(&groups)
        .with_protocol_versions(&versions)
        .for_client()
        .expect("valid choices");
    assert_eq!(b.kx_groups, groups);
}

#[test]
fn server_builder_validates_too() {
    let r = config_builder()
        .with_safe_default_cipher_suites()
        .with_kx_groups(&Vec::new())
        .with_safe_default_protocol_versions()
        .for_server();
    assert!(r.is_err());
}

#[test]
fn session_cache_is_last_writer_wins() {
    let mut storage = SessionStorage::new();
    let name = ServerName::Dns(b"host".to_vec());
    let key = ClientSessionKey::hint_for_server_name(&name).get_encoding();
    assert!(storage.get(&key).is_none());
    storage.put(key.clone(), StoredValue::KxHint(NamedGroup::X25519));
    storage.put(key.clone(), StoredValue::KxHint(NamedGroup::Secp256r1));
    match storage.get(&key) {
        Some(StoredValue::KxHint(g)) => assert_eq!(g, NamedGroup::Secp256r1),
        _ => panic!("expected the later hint"),
    }
}

#[test]
fn cache_keys_separate_sessions_from_hints() {
    let name = ServerName::Dns(b"host".to_vec());
    let session_key = ClientSessionKey::session_for_server_name(&name).get_encoding();
    let hint_key = ClientSessionKey::hint_for_server_name(&name).get_encoding();
    assert_ne!(session_key, hint_key);
    // One tag byte, then the name bytes.
    assert_eq!(&session_key[1..], b"host");
    assert_eq!(&hint_key[1..], b"host");
}

fn cache_value(epoch: u64, lifetime: u32) -> ClientSessionValue {
    let mut v = ClientSessionValue::new(
        ProtocolVersion::Tls13,
        CipherSuite::Tls13Aes128GcmSha256,
        &SessionId { bytes: Vec::new() },
        b"t".to_vec(),
        b"s".to_vec(),
        &Vec::new(),
        epoch,
    );
    v.set_times(lifetime, 5);
    v
}

#[test]
fn expired_cache_entry_is_not_resumed() {
    // P8: a hit whose entry expired yields no resumption attempt.
    let suites = default_cipher_suites();
    let expired = ResolvedSession::resolve_cipher_suite(cache_value(1000, 10), &suites, 2000)
        .expect("suite resolves");
    assert!(expired.has_expired());

    let fresh = ResolvedSession::resolve_cipher_suite(cache_value(1000, 10), &suites, 1005)
        .expect("suite resolves");
    assert!(!fresh.has_expired());

    // A zero lifetime hint never expires.
    let unhinted = ResolvedSession::resolve_cipher_suite(cache_value(1000, 0), &suites, 99_999)
        .expect("suite resolves");
    assert!(!unhinted.has_expired());
}

#[test]
fn obfuscated_ticket_age_formula() {
    let suites = default_cipher_suites();
    let rs = ResolvedSession::resolve_cipher_suite(cache_value(1000, 3600), &suites, 1000)
        .expect("resolves");
    // Age 7 seconds -> 7000 ms, plus the age-add of 5, mod 2^32.
    assert_eq!(rs.get_obfuscated_ticket_age(1007), 7005);
    // A clock running backwards clamps the age to zero.
    assert_eq!(rs.get_obfuscated_ticket_age(999), 5);
}

#[test]
fn unknown_cached_suite_does_not_resolve() {
    let suites = default_cipher_suites();
    let mut v = cache_value(1000, 10);
    v.cipher_suite = CipherSuite::Unknown(0x1399);
    assert!(ResolvedSession::resolve_cipher_suite(v, &suites, 1001).is_none());
}

#[test]
fn check_message_rejects_wrong_types() {
    let m = Message {
        version: ProtocolVersion::Tls13,
        payload: MessagePayload::Handshake(HandshakePayload::EndOfEarlyData),
    };
    let ok = check_message(&m, &vec![ContentType::Handshake], &Vec::new());
    assert!(ok.is_ok());

    let r = check_message(
        &m,
        &vec![ContentType::Handshake],
        &vec![HandshakeType::Finished],
    );
    match r {
        Err(Error::InappropriateHandshakeMessage { expected, got }) => {
            assert_eq!(expected, vec![HandshakeType::Finished]);
            assert_eq!(got, HandshakeType::EndOfEarlyData);
        },
        _ => panic!("expected the inappropriate-handshake-message error"),
    }

    let app = Message {
        version: ProtocolVersion::Tls13,
        payload: MessagePayload::ApplicationData(Vec::new()),
    };
    let r = check_message(&app, &vec![ContentType::Handshake], &Vec::new());
    match r {
        Err(Error::InappropriateMessage { expected, got }) => {
            assert_eq!(expected, vec![ContentType::Handshake]);
            assert_eq!(got, ContentType::ApplicationData);
        },
        _ => panic!("expected the inappropriate-message error"),
    }
}

#[test]
fn unsolicited_extensions_are_detected() {
    let hello = ClientHelloDetails {
        sent_extensions: vec![ExtensionType::SupportedVersions, ExtensionType::KeyShare],
    };
    let received = vec![ServerExtension::SupportedVersions(ProtocolVersion::Tls13)];
    assert!(!hello.server_sent_unsolicited_extensions(&received, &Vec::new()));

    let received = vec![ServerExtension::EarlyData];
    assert!(hello.server_sent_unsolicited_extensions(&received, &Vec::new()));
    assert!(!hello.server_sent_unsolicited_extensions(
        &received,
        &vec![ExtensionType::EarlyData],
    ));
}

#[test]
fn sct_list_validity() {
    assert!(tlsclient::hs::sct_list_is_invalid(&Vec::new()));
    assert!(tlsclient::hs::sct_list_is_invalid(&vec![b"ok".to_vec(), Vec::new()]));
    assert!(!tlsclient::hs::sct_list_is_invalid(&vec![b"ok".to_vec()]));
}

#[test]
fn random_vec_draws_fresh_bytes() {
    let a = tlsclient::rand::random_vec(32).expect("random source");
    let b = tlsclient::rand::random_vec(32).expect("random source");
    assert_eq!(a.len(), 32);
    assert_eq!(b.len(), 32);
    // Two 256-bit draws never collide in practice.
    assert_ne!(a, b);
}

#[test]
fn key_exchange_share_and_completion() {
    let kx = tlsclient::kx::KeyExchange::start(NamedGroup::X25519).expect("random source");
    assert_eq!(kx.group(), NamedGroup::X25519);
    let pubkey = kx.pubkey.clone();
    assert_eq!(pubkey.len(), 33);
    let shared = kx.complete(&b"peer".to_vec()).expect("non-empty share");
    assert!(!shared.is_empty());

    let kx = tlsclient::kx::KeyExchange::start(NamedGroup::X25519).expect("random source");
    assert!(kx.complete(&Vec::new()).is_none());
}

#[test]
fn key_schedule_derivations_are_deterministic() {
    let psk = b"resumption secret".to_vec();
    let shared = b"shared".to_vec();
    let hash = b"hash".to_vec();

    let a = KeyScheduleEarly::new(&psk);
    let b = KeyScheduleEarly::new(&psk);
    assert_eq!(
        a.resumption_psk_binder_key_and_sign_verify_data(&hash),
        b.resumption_psk_binder_key_and_sign_verify_data(&hash)
    );

    let (hs_a, ck_a, sk_a) = a.into_handshake(&shared).derive_handshake_secrets(&hash);
    let (hs_b, ck_b, sk_b) = b.into_handshake(&shared).derive_handshake_secrets(&hash);
    assert_eq!(ck_a, ck_b);
    assert_eq!(sk_a, sk_b);
    assert_eq!(hs_a.sign_server_finish(&hash), hs_b.sign_server_finish(&hash));

    // The non-resuming branch derives differently from any PSK branch.
    let (ns, _, _) = KeyScheduleNonSecret::new()
        .into_handshake(&shared)
        .derive_handshake_secrets(&hash);
    assert_ne!(ns.client, hs_a.client);
}

#[test]
fn verifier_model_accepts_and_rejects() {
    let verifier = CertVerifier {
        schemes: vec![SignatureScheme::Ed25519],
        wants_scts: false,
        trusted: vec![b"trusted cert".to_vec()],
    };
    let name = ServerName::Dns(b"host".to_vec());
    assert!(verifier
        .verify_server_cert(&b"trusted cert".to_vec(), &Vec::new(), &name, &Vec::new(), &Vec::new(), 0)
        .is_ok());
    assert!(verifier
        .verify_server_cert(&b"other cert".to_vec(), &Vec::new(), &name, &Vec::new(), &Vec::new(), 0)
        .is_err());
    // An empty certificate is a bad encoding.
    match verifier.verify_server_cert(&Vec::new(), &Vec::new(), &name, &Vec::new(), &Vec::new(), 0)
    {
        Err(Error::WebPkiError(tlsclient::error::WebPkiError::BadEncoding)) => {},
        _ => panic!("expected the bad-encoding error"),
    }

    let msg = b"message".to_vec();
    let cert = b"trusted cert".to_vec();
    let good = tlsclient::sign::DigitallySignedStruct {
        scheme: SignatureScheme::Ed25519,
        sig: tlsclient::sign::signature(&cert, &msg),
    };
    assert!(verifier.verify_tls13_signature(&msg, &cert, &good).is_ok());

    let bad_sig = tlsclient::sign::DigitallySignedStruct {
        scheme: SignatureScheme::Ed25519,
        sig: b"forged".to_vec(),
    };
    match verifier.verify_tls13_signature(&msg, &cert, &bad_sig) {
        Err(Error::WebPkiError(tlsclient::error::WebPkiError::InvalidSignature)) => {},
        _ => panic!("expected the invalid-signature error"),
    }

    let bad_scheme = tlsclient::sign::DigitallySignedStruct {
        scheme: SignatureScheme::RsaPkcs1Sha256,
        sig: tlsclient::sign::signature(&cert, &msg),
    };
    assert!(verifier.verify_tls13_signature(&msg, &cert, &bad_scheme).is_err());
}

#[test]
fn signer_picks_first_offered_scheme() {
    let key = tlsclient::sign::SigningKey {
        key: b"k".to_vec(),
        schemes: vec![SignatureScheme::Ed25519, SignatureScheme::EcdsaNistp256Sha256],
    };
    let signer = key
        .choose_scheme(&vec![SignatureScheme::EcdsaNistp256Sha256, SignatureScheme::Ed25519])
        .expect("compatible scheme");
    assert_eq!(signer.scheme, SignatureScheme::EcdsaNistp256Sha256);
    assert!(key.choose_scheme(&vec![SignatureScheme::RsaPssSha256]).is_none());
}

#[test]
fn version_codes_match_the_wire() {
    assert_eq!(ProtocolVersion::Tls10.code(), 0x0301);
    assert_eq!(ProtocolVersion::Tls12.code(), 0x0303);
    assert_eq!(ProtocolVersion::Tls13.code(), 0x0304);
}

#[test]
fn random_fill_actually_writes() {
    // If the random source handed its zeroed buffer back unchanged, a
    // 256-bit draw of all zeros would betray it.
    let a = tlsclient::rand::random_vec(32).expect("random source");
    assert_ne!(a, vec![0u8; 32]);
}

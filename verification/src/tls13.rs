//! The TLS 1.3 side of the client handshake: key-share choice, resumption
//! offers and binders, early-traffic keying, ServerHello processing and
//! the encrypted-flight states through to application traffic.

use vstd::prelude::*;
use crate::common::{ClientAuthDetails, ConnectionRandoms, ServerCertDetails};
use crate::config::{ClientConfig, FinishedMessageVerified, HandshakeSignatureValid,
    ServerCertVerified};
use crate::conn::{ClientConnectionData, ConnectionCommon, Protocol, new_tls13_read,
    new_tls13_write};
use crate::enums::{AlertDescription, ExtensionType, HandshakeType, NamedGroup, ProtocolVersion};
use crate::error::{Error, PeerMisbehaved, WebPkiError};
use crate::hash_hs::{spec_hash_given, spec_msg_tag, HandshakeHash, HandshakeHashBuffer};
use crate::key_schedule::{self, KeyScheduleEarly, KeyScheduleHandshake, KeyScheduleTraffic};
use crate::kx::KeyExchange;
use crate::hs::NextState;
use crate::msgs::{ClientExtension, ClientHelloDetails, ClientHelloPayload, HandshakePayload,
    Message, MessagePayload, PresharedKeyIdentity, PresharedKeyOffer, ServerExtension,
    ServerHelloPayload, server_exts_alpn_protocol, server_exts_early_data_offered,
    server_exts_has_duplicate, spec_first_server_ext, spec_server_ext_types};
use crate::name::ServerName;
use crate::persist::{self, ClientSessionKey, ResolvedSession, SessionStorage, StoredValue};
use crate::suites::Tls13CipherSuite;
use crate::util;

verus! {

/// The fake ChangeCipherSpec sent once for middlebox compatibility.
pub open spec fn spec_fake_ccs_message() -> Message {
    Message { version: ProtocolVersion::Tls12, payload: MessagePayload::ChangeCipherSpec }
}

/// Send the middlebox-compatibility ChangeCipherSpec, at most once per
/// connection and never over QUIC.
pub fn emit_fake_ccs(sent_tls13_fake_ccs: &mut bool, common: &mut ConnectionCommon)
    ensures
        *final(common) == (ConnectionCommon { sent: final(common).sent, ..*old(common) }),
        old(common).protocol == Protocol::Quic ==> final(common).sent@ == old(common).sent@
            && *final(sent_tls13_fake_ccs) == *old(sent_tls13_fake_ccs),
        old(common).protocol != Protocol::Quic ==> *final(sent_tls13_fake_ccs),
        old(common).protocol != Protocol::Quic && *old(sent_tls13_fake_ccs) ==> final(common).sent@ == old(common).sent@,
        old(common).protocol != Protocol::Quic && !*old(sent_tls13_fake_ccs) ==> {
            &&& final(common).sent@.len() == old(common).sent@.len() + 1
            &&& final(common).sent@.drop_last() == old(common).sent@
            &&& final(common).sent@.last().msg == spec_fake_ccs_message()
            &&& !final(common).sent@.last().encrypted
        },
{
    if common.is_quic() {
        return;
    }
    let was_sent = *sent_tls13_fake_ccs;
    *sent_tls13_fake_ccs = true;
    if was_sent {
        return;
    }
    let m = Message { version: ProtocolVersion::Tls12, payload: MessagePayload::ChangeCipherSpec };
    common.send_msg(m, false);
}

/// The group an initial key share should use: the cached hint for this
/// server if it is still configured, else the first configured group.
pub open spec fn spec_initial_group(
    config: &ClientConfig,
    storage: &SessionStorage,
    server_name: &ServerName,
) -> NamedGroup {
    match persist::spec_lookup(
        storage.entries@,
        persist::spec_key_encoding(persist::KEY_TAG_KX_HINT, server_name),
    ) {
        Some(StoredValue::KxHint(g)) => if config.kx_groups@.contains(g) {
            g
        } else {
            config.kx_groups@[0]
        },
        _ => config.kx_groups@[0],
    }
}

/// Start the initial key share, preferring the cached group hint for this
/// server; fails only when the random source does.
pub fn initial_key_share(
    config: &ClientConfig,
    server_name: &ServerName,
    storage: &SessionStorage,
) -> (r: Result<KeyExchange, Error>)
    requires
        config.kx_groups@.len() > 0,
    ensures
        r matches Ok(kx) ==> kx.wf() && kx.group == spec_initial_group(config, storage, server_name),
        r is Err ==> r == Err::<KeyExchange, Error>(Error::FailedToGetRandomBytes),
{
    let key = ClientSessionKey::hint_for_server_name(server_name);
    let key_buf = key.get_encoding();
    let group = match storage.get(&key_buf) {
        Some(StoredValue::KxHint(g)) => {
            match KeyExchange::choose_group(g, &config.kx_groups) {
                Some(chosen) => chosen,
                None => config.kx_groups[0],
            }
        },
        _ => config.kx_groups[0],
    };
    match KeyExchange::start(group) {
        Some(kx) => Ok(kx),
        None => Err(Error::FailedToGetRandomBytes),
    }
}

/// Remember which group the server liked, keyed by server name, for the
/// next handshake's initial key share.
pub fn save_kx_hint(storage: &mut SessionStorage, server_name: &ServerName, group: NamedGroup)
    ensures
        persist::spec_lookup(
            final(storage).entries@,
            persist::spec_key_encoding(persist::KEY_TAG_KX_HINT, server_name),
        ) matches Some(v) && (v matches StoredValue::KxHint(g) && g == group),
        forall|other: Seq<u8>|
            other != persist::spec_key_encoding(persist::KEY_TAG_KX_HINT, server_name)
                ==> #[trigger] persist::spec_lookup(final(storage).entries@, other)
                == persist::spec_lookup(old(storage).entries@, other),
{
    let key = ClientSessionKey::hint_for_server_name(server_name);
    let key_buf = key.get_encoding();
    storage.put(key_buf, StoredValue::KxHint(group));
}

/// The extra digest input contributed by the truncated ClientHello a PSK
/// binder signs over.
pub open spec fn spec_binder_forming_extra() -> Seq<u8> {
    seq![spec_msg_tag(HandshakeType::ClientHello)]
}

/// The binder value for a resumption secret and a ClientHello prefix.
pub open spec fn spec_psk_binder(
    master_secret: Seq<u8>,
    suite: Tls13CipherSuite,
    transcript: Seq<crate::msgs::HandshakePayload>,
) -> Seq<u8> {
    key_schedule::spec_binder(
        key_schedule::spec_early_secret(master_secret),
        spec_hash_given(suite.hash, transcript, spec_binder_forming_extra()),
    )
}

/// Fill in the trailing PSK binder of a ClientHello: the binder signs the
/// transcript so far plus the hello itself truncated before the binder.
/// Returns the Early schedule seeded from the resumption secret.
pub fn fill_in_psk_binder(
    resuming: &ResolvedSession,
    resuming_suite: Tls13CipherSuite,
    transcript: &HandshakeHashBuffer,
    ch: &mut ClientHelloPayload,
) -> (r: KeyScheduleEarly)
    requires
        transcript.wf(),
        old(ch).spec_ends_with_psk_offer(),
    ensures
        r.secret@ == key_schedule::spec_early_secret(resuming.value.master_secret@),
        final(ch).client_version == old(ch).client_version,
        final(ch).random@ == old(ch).random@,
        final(ch).session_id.bytes@ == old(ch).session_id.bytes@,
        final(ch).cipher_suites@ == old(ch).cipher_suites@,
        final(ch).compression_methods@ == old(ch).compression_methods@,
        final(ch).extensions@.len() == old(ch).extensions@.len(),
        forall|i: int|
            0 <= i < old(ch).extensions@.len() - 1 ==> final(ch).extensions@[i] == old(ch).extensions@[i],
        old(ch).extensions@.last() matches ClientExtension::PresharedKey(offer)
            && final(ch).extensions@.last() matches ClientExtension::PresharedKey(new_offer)
            && new_offer.identities@ == offer.identities@ && new_offer.binders@.len() == 1
            && new_offer.binders@[0]@ == spec_psk_binder(
            resuming.value.master_secret@,
            resuming_suite,
            transcript.msgs@,
        ),
{
    let binder_plaintext = binder_forming_extra();
    let handshake_hash = transcript.get_hash_given(resuming_suite.hash, &binder_plaintext);

    let key_schedule = KeyScheduleEarly::new(&resuming.value.master_secret);
    let real_binder = key_schedule.resumption_psk_binder_key_and_sign_verify_data(&handshake_hash);

    ch.set_psk_binder(&real_binder);
    key_schedule
}

/// Build the truncated-ClientHello digest input.
fn binder_forming_extra() -> (r: Vec<u8>)
    ensures
        r@ == spec_binder_forming_extra(),
{
    let mut v: Vec<u8> = Vec::new();
    v.push(crate::hash_hs::msg_tag(HandshakeType::ClientHello));
    proof {
        assert(v@ =~= spec_binder_forming_extra());
    }
    v
}

/// Does this configuration enable 0-RTT for this cached session on this
/// (non-retry) hello?
pub open spec fn spec_enables_early_data(
    config: &ClientConfig,
    resuming: &ResolvedSession,
    doing_retry: bool,
) -> bool {
    config.enable_early_data && resuming.value.max_early_data_size > 0 && !doing_retry
}

/// Append the resumption extensions: EarlyData when 0-RTT applies, then
/// the PSK offer — one identity, and a zeroed binder of the resumption
/// suite's hash length, to be filled in once the hello is assembled.
pub fn prepare_resumption(
    config: &ClientConfig,
    data: &mut ClientConnectionData,
    ticket: Vec<u8>,
    resuming: &ResolvedSession,
    resuming_suite: Tls13CipherSuite,
    exts: &mut Vec<ClientExtension>,
    doing_retry: bool,
    now: u64,
)
    ensures
        *final(data) == (ClientConnectionData {
            early_data: final(data).early_data,
            resumption_ciphersuite: Some(
                crate::suites::SupportedCipherSuite::Tls13(resuming_suite),
            ),
            ..*old(data)
        }),
        spec_enables_early_data(config, resuming, doing_retry) ==> final(data).early_data.state
            == crate::conn::EarlyDataState::Ready && final(data).early_data.max_size
            == resuming.value.max_early_data_size,
        !spec_enables_early_data(config, resuming, doing_retry) ==> final(data).early_data == old(data).early_data,
        final(exts)@.len() == old(exts)@.len() + (
        if spec_enables_early_data(config, resuming, doing_retry) {
            2int
        } else {
            1int
        }),
        forall|i: int| 0 <= i < old(exts)@.len() ==> final(exts)@[i] == old(exts)@[i],
        spec_enables_early_data(config, resuming, doing_retry) ==> final(exts)@[old(exts)@.len() as int] == ClientExtension::EarlyData,
        final(exts)@.last() matches ClientExtension::PresharedKey(offer) && {
            &&& offer.identities@.len() == 1
            &&& offer.identities@[0].identity@ == ticket@
            &&& offer.identities@[0].obfuscated_ticket_age == resuming.spec_obfuscated_ticket_age(
                now,
            )
            &&& offer.binders@.len() == 1
            &&& offer.binders@[0]@ == Seq::new(
                resuming_suite.hash.spec_output_len() as nat,
                |i: int| 0u8,
            )
        },
{
    data.resumption_ciphersuite = Some(crate::suites::SupportedCipherSuite::Tls13(resuming_suite));
    let max_early_data_size = resuming.value.max_early_data_size;
    if config.enable_early_data && max_early_data_size > 0 && !doing_retry {
        data.early_data.enable(max_early_data_size);
        exts.push(ClientExtension::EarlyData);
    }

    let obfuscated_ticket_age = resuming.get_obfuscated_ticket_age(now);

    let binder_len = resuming_suite.hash.output_len();
    let mut binder: Vec<u8> = Vec::new();
    let mut i: usize = 0;
    while i < binder_len
        invariant
            i <= binder_len,
            binder@ == Seq::new(i as nat, |k: int| 0u8),
        decreases binder_len - i,
    {
        binder.push(0u8);
        proof {
            assert(binder@ =~= Seq::new((i + 1) as nat, |k: int| 0u8));
        }
        i = i + 1;
    }
    let mut binders: Vec<Vec<u8>> = Vec::new();
    binders.push(binder);

    let psk_identity = PresharedKeyIdentity { identity: ticket, obfuscated_ticket_age };
    let mut identities: Vec<PresharedKeyIdentity> = Vec::new();
    identities.push(psk_identity);
    exts.push(ClientExtension::PresharedKey(PresharedKeyOffer { identities, binders }));
}

/// The client early traffic secret for an early schedule and a
/// ClientHello transcript.
pub open spec fn spec_early_traffic_secret(
    early_secret: Seq<u8>,
    suite: Tls13CipherSuite,
    transcript: Seq<crate::msgs::HandshakePayload>,
) -> Seq<u8> {
    key_schedule::spec_derive(
        early_secret,
        key_schedule::LABEL_CLIENT_EARLY_TRAFFIC,
        spec_hash_given(suite.hash, transcript, Seq::empty()),
    )
}

/// Derive the client early traffic secret at the ClientHello hash and
/// install it as the encrypter; early data may then flow.  Emits the fake
/// ChangeCipherSpec first if still owed.
pub fn derive_early_traffic_secret(
    common: &mut ConnectionCommon,
    resuming_suite: Tls13CipherSuite,
    early_key_schedule: &KeyScheduleEarly,
    sent_tls13_fake_ccs: &mut bool,
    transcript_buffer: &HandshakeHashBuffer,
)
    requires
        transcript_buffer.wf(),
    ensures
        *final(common) == (ConnectionCommon {
            sent: final(common).sent,
            record_layer: final(common).record_layer,
            early_traffic: true,
            ..*old(common)
        }),
        final(common).record_layer.decrypter == old(common).record_layer.decrypter,
        final(common).record_layer.encrypter matches Some(k) && k.suite == resuming_suite
            && k.secret@ == spec_early_traffic_secret(
            early_key_schedule.secret@,
            resuming_suite,
            transcript_buffer.msgs@,
        ),
        old(common).protocol == Protocol::Quic ==> final(common).sent@ == old(common).sent@
            && *final(sent_tls13_fake_ccs) == *old(sent_tls13_fake_ccs),
        old(common).protocol != Protocol::Quic ==> *final(sent_tls13_fake_ccs),
        old(common).protocol != Protocol::Quic && *old(sent_tls13_fake_ccs) ==> final(common).sent@ == old(common).sent@,
        old(common).protocol != Protocol::Quic && !*old(sent_tls13_fake_ccs) ==> {
            &&& final(common).sent@.len() == old(common).sent@.len() + 1
            &&& final(common).sent@.drop_last() == old(common).sent@
            &&& final(common).sent@.last().msg == spec_fake_ccs_message()
            &&& !final(common).sent@.last().encrypted
        },
{
    emit_fake_ccs(sent_tls13_fake_ccs, common);

    let client_hello_hash = transcript_buffer.get_hash_given(resuming_suite.hash, &Vec::new());
    let client_early_traffic_secret = early_key_schedule.client_early_traffic_secret(
        &client_hello_hash,
    );
    common.record_layer.set_message_encrypter(
        new_tls13_write(resuming_suite, &client_early_traffic_secret),
    );
    common.early_traffic = true;
}

/// A cleartext ServerHello may carry only KeyShare, PreSharedKey and
/// SupportedVersions.
pub open spec fn spec_only_allowed_plaintext_exts(exts: Seq<ServerExtension>) -> bool {
    forall|i: int|
        0 <= i < exts.len() ==> (#[trigger] exts[i].spec_get_type()) == ExtensionType::KeyShare
            || exts[i].spec_get_type() == ExtensionType::PreSharedKey || exts[i].spec_get_type()
            == ExtensionType::SupportedVersions
}

/// Reject a ServerHello carrying any extension that may not appear in
/// cleartext.
pub fn validate_server_hello(common: &mut ConnectionCommon, server_hello: &ServerHelloPayload) -> (r:
    Result<(), Error>)
    ensures
        *final(common) == (ConnectionCommon {
            sent_alerts: final(common).sent_alerts,
            ..*old(common)
        }),
        r is Ok <==> spec_only_allowed_plaintext_exts(server_hello.extensions@),
        r is Ok ==> *final(common) == *old(common),
        r is Err ==> {
            &&& final(common).sent_alerts@ == old(common).sent_alerts@.push(
                AlertDescription::UnsupportedExtension,
            )
            &&& r == Err::<(), Error>(
                Error::PeerMisbehavedError(PeerMisbehaved::UnexpectedCleartextExtension),
            )
        },
{
    let mut i: usize = 0;
    while i < server_hello.extensions.len()
        invariant
            i <= server_hello.extensions@.len(),
            *common == *old(common),
            forall|j: int|
                0 <= j < i ==> (#[trigger] server_hello.extensions@[j].spec_get_type())
                    == ExtensionType::KeyShare || server_hello.extensions@[j].spec_get_type()
                    == ExtensionType::PreSharedKey
                    || server_hello.extensions@[j].spec_get_type()
                    == ExtensionType::SupportedVersions,
        decreases server_hello.extensions@.len() - i,
    {
        let t = server_hello.extensions[i].get_type();
        if !(t == ExtensionType::KeyShare || t == ExtensionType::PreSharedKey || t
            == ExtensionType::SupportedVersions) {
            common.send_fatal_alert(AlertDescription::UnsupportedExtension);
            return Err(Error::PeerMisbehavedError(PeerMisbehaved::UnexpectedCleartextExtension));
        }
        i = i + 1;
    }
    Ok(())
}

/// Expecting the server's EncryptedExtensions.
pub struct ExpectEncryptedExtensions {
    pub config: ClientConfig,
    pub resuming_session: Option<ResolvedSession>,
    pub server_name: ServerName,
    pub randoms: ConnectionRandoms,
    pub suite: Tls13CipherSuite,
    pub transcript: HandshakeHash,
    pub key_schedule: KeyScheduleHandshake,
    pub hello: ClientHelloDetails,
}

/// Expecting the server's Certificate or CertificateRequest.
pub struct ExpectCertificateOrCertReq {
    pub config: ClientConfig,
    pub server_name: ServerName,
    pub randoms: ConnectionRandoms,
    pub suite: Tls13CipherSuite,
    pub transcript: HandshakeHash,
    pub key_schedule: KeyScheduleHandshake,
    pub may_send_sct_list: bool,
}

/// Expecting the server's CertificateRequest.
pub struct ExpectCertificateRequest {
    pub config: ClientConfig,
    pub server_name: ServerName,
    pub randoms: ConnectionRandoms,
    pub suite: Tls13CipherSuite,
    pub transcript: HandshakeHash,
    pub key_schedule: KeyScheduleHandshake,
    pub may_send_sct_list: bool,
}

/// Expecting the server's Certificate.
pub struct ExpectCertificate {
    pub config: ClientConfig,
    pub server_name: ServerName,
    pub randoms: ConnectionRandoms,
    pub suite: Tls13CipherSuite,
    pub transcript: HandshakeHash,
    pub key_schedule: KeyScheduleHandshake,
    pub may_send_sct_list: bool,
    pub client_auth: Option<ClientAuthDetails>,
}

/// Expecting the server's CertificateVerify.
pub struct ExpectCertificateVerify {
    pub config: ClientConfig,
    pub server_name: ServerName,
    pub randoms: ConnectionRandoms,
    pub suite: Tls13CipherSuite,
    pub transcript: HandshakeHash,
    pub key_schedule: KeyScheduleHandshake,
    pub server_cert: ServerCertDetails,
    pub client_auth: Option<ClientAuthDetails>,
}

/// Expecting the server's Finished.
pub struct ExpectFinished {
    pub config: ClientConfig,
    pub server_name: ServerName,
    pub randoms: ConnectionRandoms,
    pub suite: Tls13CipherSuite,
    pub transcript: HandshakeHash,
    pub key_schedule: KeyScheduleHandshake,
    pub client_auth: Option<ClientAuthDetails>,
    pub cert_verified: ServerCertVerified,
    pub sig_verified: HandshakeSignatureValid,
}

/// Application traffic: tickets, key updates and data may arrive.
pub struct ExpectTraffic {
    pub config: ClientConfig,
    pub server_name: ServerName,
    pub suite: Tls13CipherSuite,
    pub transcript: HandshakeHash,
    pub key_schedule: KeyScheduleTraffic,
    pub want_write_key_update: bool,
    pub cert_verified: ServerCertVerified,
    pub sig_verified: HandshakeSignatureValid,
    pub fin_verified: FinishedMessageVerified,
}

/// QUIC traffic: only NewSessionTicket may arrive through this interface.
pub struct ExpectQuicTraffic {
    pub inner: ExpectTraffic,
}

/// The conditions under which a selected PSK is honoured: a cached
/// session exists, the chosen suite can resume from it, the suite did not
/// change while early data is in flight, and the server selected the one
/// identity we offered.
pub open spec fn spec_psk_checks_pass(
    server_hello: &ServerHelloPayload,
    resuming_session: &Option<ResolvedSession>,
    suite: Tls13CipherSuite,
    early_enabled: bool,
) -> bool {
    &&& *resuming_session is Some
    &&& suite.spec_can_resume_from(resuming_session->Some_0.supported_suite)
    &&& !(early_enabled && resuming_session->Some_0.supported_suite->Tls13_0 != suite)
    &&& server_hello.spec_psk_index() == Some(0u16)
}

/// Was a PSK selected and do we hold the early schedule to honour it?
pub open spec fn spec_psk_branch(
    server_hello: &ServerHelloPayload,
    early_key_schedule: &Option<KeyScheduleEarly>,
) -> bool {
    server_hello.spec_psk_index() is Some && *early_key_schedule is Some
}

/// The early secret the handshake schedule grows from: the resumption
/// secret's on the PSK branch, the non-resuming extraction otherwise.
pub open spec fn spec_sh_early_secret(
    psk_branch: bool,
    early_key_schedule: &Option<KeyScheduleEarly>,
) -> Seq<u8> {
    if psk_branch {
        early_key_schedule->Some_0.secret@
    } else {
        key_schedule::spec_nonsecret_early()
    }
}

/// Process a TLS 1.3 ServerHello after version and suite resolution:
/// validate its extensions, complete the key exchange, settle the PSK
/// question, promote the key schedule, and install the handshake keys.
pub fn handle_server_hello(
    config: ClientConfig,
    common: &mut ConnectionCommon,
    data: &mut ClientConnectionData,
    storage: &mut SessionStorage,
    server_hello: &ServerHelloPayload,
    resuming_session: Option<ResolvedSession>,
    server_name: ServerName,
    randoms: ConnectionRandoms,
    suite: Tls13CipherSuite,
    transcript: HandshakeHash,
    early_key_schedule: Option<KeyScheduleEarly>,
    hello: ClientHelloDetails,
    our_key_share: KeyExchange,
    sent_tls13_fake_ccs: bool,
) -> (r: Result<ExpectEncryptedExtensions, Error>)
    requires
        transcript.wf(),
        our_key_share.wf(),
    ensures
        ({
            let exts_ok = spec_only_allowed_plaintext_exts(server_hello.extensions@);
            let ks = server_hello.spec_key_share();
            let psk_branch = spec_psk_branch(&server_hello, &early_key_schedule);
            let shared = crate::kx::spec_shared_secret(
                our_key_share.privkey@,
                ks->Some_0.payload@,
            );
            let early_secret = spec_sh_early_secret(psk_branch, &early_key_schedule);
            let hs_secret = key_schedule::spec_handshake_secret(early_secret, shared);
            let hs_hash = crate::hash_hs::spec_hash_of(transcript.alg, transcript.msgs@);
            let early_still = psk_branch && old(data).early_data.spec_is_enabled();
            let psk_ok_path = exts_ok && ks is Some && ks->Some_0.group == our_key_share.group
                && ks->Some_0.payload@.len() > 0;
            let alert_only_illegal_param = *final(common) == (ConnectionCommon {
                sent_alerts: final(common).sent_alerts,
                ..*old(common)
            }) && final(common).sent_alerts@ == old(common).sent_alerts@.push(
                AlertDescription::IllegalParameter,
            );
            let psk_checks_pass = spec_psk_checks_pass(
                &server_hello,
                &resuming_session,
                suite,
                old(data).early_data.spec_is_enabled(),
            );
            &&& !exts_ok ==> {
                &&& r == Err::<ExpectEncryptedExtensions, Error>(
                    Error::PeerMisbehavedError(PeerMisbehaved::UnexpectedCleartextExtension),
                )
                &&& *final(common) == (ConnectionCommon {
                    sent_alerts: final(common).sent_alerts,
                    ..*old(common)
                })
                &&& final(common).sent_alerts@ == old(common).sent_alerts@.push(
                    AlertDescription::UnsupportedExtension,
                )
                &&& *final(data) == *old(data)
                &&& final(storage).entries@ == old(storage).entries@
            }
            &&& exts_ok && ks is None ==> {
                &&& r == Err::<ExpectEncryptedExtensions, Error>(
                    Error::PeerMisbehavedError(PeerMisbehaved::MissingKeyShare),
                )
                &&& *final(common) == (ConnectionCommon {
                    sent_alerts: final(common).sent_alerts,
                    ..*old(common)
                })
                &&& final(common).sent_alerts@ == old(common).sent_alerts@.push(
                    AlertDescription::MissingExtension,
                )
                &&& *final(data) == *old(data)
                &&& final(storage).entries@ == old(storage).entries@
            }
            &&& exts_ok && ks is Some && ks->Some_0.group != our_key_share.group ==> {
                &&& r == Err::<ExpectEncryptedExtensions, Error>(
                    Error::PeerMisbehavedError(PeerMisbehaved::WrongGroupForKeyShare),
                )
                &&& *final(common) == (ConnectionCommon {
                    sent_alerts: final(common).sent_alerts,
                    ..*old(common)
                })
                &&& final(common).sent_alerts@ == old(common).sent_alerts@.push(
                    AlertDescription::IllegalParameter,
                )
                &&& *final(data) == *old(data)
                &&& final(storage).entries@ == old(storage).entries@
            }
            &&& exts_ok && ks is Some && ks->Some_0.group == our_key_share.group
                && ks->Some_0.payload@.len() == 0 ==> {
                &&& r == Err::<ExpectEncryptedExtensions, Error>(
                    Error::PeerMisbehavedError(PeerMisbehaved::KeyExchangeFailed),
                )
                &&& *final(common) == *old(common)
                &&& *final(data) == *old(data)
                &&& final(storage).entries@ == old(storage).entries@
            }
            &&& psk_ok_path && psk_branch && resuming_session is None ==> {
                &&& r == Err::<ExpectEncryptedExtensions, Error>(
                    Error::PeerMisbehavedError(PeerMisbehaved::SelectedUnofferedPsk),
                )
                &&& *final(common) == *old(common)
                &&& *final(data) == *old(data)
                &&& final(storage).entries@ == old(storage).entries@
            }
            &&& psk_ok_path && psk_branch && resuming_session is Some && !suite.spec_can_resume_from(
                resuming_session->Some_0.supported_suite,
            ) ==> {
                &&& r == Err::<ExpectEncryptedExtensions, Error>(
                    Error::PeerMisbehavedError(
                        PeerMisbehaved::ResumptionOfferedWithIncompatibleSuite,
                    ),
                )
                &&& alert_only_illegal_param
                &&& *final(data) == *old(data)
                &&& final(storage).entries@ == old(storage).entries@
            }
            &&& psk_ok_path && psk_branch && resuming_session is Some && suite.spec_can_resume_from(
                resuming_session->Some_0.supported_suite,
            ) && old(data).early_data.spec_is_enabled()
                && resuming_session->Some_0.supported_suite->Tls13_0 != suite ==> {
                &&& r == Err::<ExpectEncryptedExtensions, Error>(
                    Error::PeerMisbehavedError(PeerMisbehaved::ResumptionSuiteVariedWithEarlyData),
                )
                &&& alert_only_illegal_param
                &&& *final(data) == *old(data)
                &&& final(storage).entries@ == old(storage).entries@
            }
            &&& psk_ok_path && psk_branch && resuming_session is Some && suite.spec_can_resume_from(
                resuming_session->Some_0.supported_suite,
            ) && !(old(data).early_data.spec_is_enabled()
                && resuming_session->Some_0.supported_suite->Tls13_0 != suite)
                && server_hello.spec_psk_index() != Some(0u16) ==> {
                &&& r == Err::<ExpectEncryptedExtensions, Error>(
                    Error::PeerMisbehavedError(PeerMisbehaved::SelectedInvalidPsk),
                )
                &&& alert_only_illegal_param
                &&& *final(data) == *old(data)
                &&& final(storage).entries@ == old(storage).entries@
            }
            &&& psk_ok_path && !old(common).aligned && (psk_branch
                ==> psk_checks_pass) ==> r == Err::<ExpectEncryptedExtensions, Error>(
                Error::PeerMisbehavedError(PeerMisbehaved::KeyEpochWithPendingFragment),
            ) && final(common).sent_alerts@ == old(common).sent_alerts@.push(
                AlertDescription::UnexpectedMessage,
            ) && final(common).record_layer == old(common).record_layer
            &&& r is Err ==> final(common).record_layer == old(common).record_layer && final(common).sent@ == old(common).sent@
            &&& psk_ok_path && (psk_branch ==> psk_checks_pass) && old(common).aligned ==> r
                is Ok
            &&& r is Ok ==> {
                let st = r->Ok_0;
                &&& exts_ok
                &&& ks is Some && ks->Some_0.group == our_key_share.group
                    && ks->Some_0.payload@.len() > 0
                &&& psk_branch ==> server_hello.spec_psk_index() == Some(0u16)
                &&& st.key_schedule.secret@ == hs_secret
                &&& st.key_schedule.client@ == key_schedule::spec_client_hs_traffic(
                    hs_secret,
                    hs_hash,
                )
                &&& st.key_schedule.server@ == key_schedule::spec_server_hs_traffic(
                    hs_secret,
                    hs_hash,
                )
                &&& final(common).record_layer.decrypter matches Some(k) && k.suite == suite
                    && k.secret@ == st.key_schedule.server@
                &&& !early_still ==> ({
                    &&& final(common).record_layer.encrypter matches Some(k) && k.suite == suite
                        && k.secret@ == st.key_schedule.client@
                })
                &&& early_still ==> final(common).record_layer.encrypter == old(common).record_layer.encrypter
                &&& *final(data) == (ClientConnectionData {
                    early_data: final(data).early_data,
                    ..*old(data)
                })
                &&& *final(common) == (ConnectionCommon {
                    early_traffic: final(common).early_traffic,
                    record_layer: final(common).record_layer,
                    sent: final(common).sent,
                    ..*old(common)
                })
                &&& !psk_branch ==> st.resuming_session is None && final(data).early_data.state
                    == crate::conn::EarlyDataState::Rejected && !final(common).early_traffic
                &&& psk_branch ==> st.resuming_session == resuming_session && final(data).early_data == old(data).early_data && final(common).early_traffic == old(common).early_traffic
                &&& st.config == config
                &&& st.server_name == server_name
                &&& st.randoms == randoms
                &&& st.suite == suite
                &&& st.hello == hello
                &&& st.transcript.wf()
                &&& st.transcript.alg == transcript.alg
                &&& st.transcript.msgs@ == transcript.msgs@
                &&& persist::spec_lookup(
                    final(storage).entries@,
                    persist::spec_key_encoding(persist::KEY_TAG_KX_HINT, &st.server_name),
                ) matches Some(v) && (v matches StoredValue::KxHint(g) && g
                    == our_key_share.group)
                &&& old(common).protocol != Protocol::Quic && !sent_tls13_fake_ccs ==> final(common).sent@.len() == old(common).sent@.len() + 1 && final(common).sent@.drop_last()
                    == old(common).sent@ && final(common).sent@.last().msg
                    == spec_fake_ccs_message() && !final(common).sent@.last().encrypted
                &&& old(common).protocol == Protocol::Quic || sent_tls13_fake_ccs ==> final(common).sent@ == old(common).sent@
                &&& old(common).aligned
            }
        }),
{
    validate_server_hello(common, server_hello)?;

    let their_key_share = match server_hello.get_key_share() {
        Some(ks) => ks,
        None => {
            common.send_fatal_alert(AlertDescription::MissingExtension);
            return Err(Error::PeerMisbehavedError(PeerMisbehaved::MissingKeyShare));
        },
    };

    if our_key_share.group() != their_key_share.group {
        return Err(common.illegal_param(PeerMisbehaved::WrongGroupForKeyShare));
    }

    let ghost our_privkey = our_key_share.privkey@;
    let shared = match our_key_share.complete(&their_key_share.payload) {
        Some(s) => s,
        None => {
            return Err(Error::PeerMisbehavedError(PeerMisbehaved::KeyExchangeFailed));
        },
    };

    let psk_selected = server_hello.get_psk_index();
    let mut resuming_out: Option<ResolvedSession> = None;
    let key_schedule_pre = match (psk_selected, early_key_schedule) {
        (Some(selected_psk), Some(early)) => {
            match resuming_session {
                Some(resuming) => {
                    let resuming13 = match resuming.supported_cipher_suite().tls13() {
                        Some(s) => s,
                        None => {
                            return Err(
                                common.illegal_param(
                                    PeerMisbehaved::ResumptionOfferedWithIncompatibleSuite,
                                ),
                            );
                        },
                    };
                    if !suite.can_resume_from(resuming.supported_cipher_suite()) {
                        return Err(
                            common.illegal_param(
                                PeerMisbehaved::ResumptionOfferedWithIncompatibleSuite,
                            ),
                        );
                    }
                    if data.early_data.is_enabled() && !(resuming13 == suite) {
                        return Err(
                            common.illegal_param(PeerMisbehaved::ResumptionSuiteVariedWithEarlyData),
                        );
                    }
                    if selected_psk != 0 {
                        return Err(common.illegal_param(PeerMisbehaved::SelectedInvalidPsk));
                    }
                    resuming_out = Some(resuming);
                    early.into_handshake(&shared)
                },
                None => {
                    return Err(Error::PeerMisbehavedError(PeerMisbehaved::SelectedUnofferedPsk));
                },
            }
        },
        (_, _) => {
            data.early_data.rejected();
            common.early_traffic = false;
            crate::key_schedule::KeyScheduleNonSecret::new().into_handshake(&shared)
        },
    };

    save_kx_hint(storage, &server_name, their_key_share.group);

    common.check_aligned_handshake()?;

    let hash_at_client_recvd_server_hello = transcript.get_current_hash();

    let (key_schedule, client_key, server_key) = key_schedule_pre.derive_handshake_secrets(
        &hash_at_client_recvd_server_hello,
    );

    common.record_layer.set_message_decrypter(new_tls13_read(suite, &server_key));

    if !data.early_data.is_enabled() {
        common.record_layer.set_message_encrypter(new_tls13_write(suite, &client_key));
    }

    let mut ccs_flag = sent_tls13_fake_ccs;
    emit_fake_ccs(&mut ccs_flag, common);

    Ok(
        ExpectEncryptedExtensions {
            config,
            resuming_session: resuming_out,
            server_name,
            randoms,
            suite,
            transcript,
            key_schedule,
            hello,
        },
    )
}

/// The extension types a server may not send in EncryptedExtensions:
/// those that belong in the plaintext ServerHello, and those TLS 1.3
/// forbids outright.
pub open spec fn spec_disallowed_encrypted_ext(t: ExtensionType) -> bool {
    ||| t == ExtensionType::KeyShare
    ||| t == ExtensionType::PreSharedKey
    ||| t == ExtensionType::SupportedVersions
    ||| t == ExtensionType::ECPointFormats
    ||| t == ExtensionType::SessionTicket
    ||| t == ExtensionType::RenegotiationInfo
    ||| t == ExtensionType::ExtendedMasterSecret
}

/// Reject EncryptedExtensions with duplicates, unsolicited entries, or
/// extensions that may not appear encrypted.
pub fn validate_encrypted_extensions(
    common: &mut ConnectionCommon,
    hello: &ClientHelloDetails,
    exts: &Vec<ServerExtension>,
) -> (r: Result<(), Error>)
    ensures
        *final(common) == (ConnectionCommon {
            sent_alerts: final(common).sent_alerts,
            ..*old(common)
        }),
        r is Ok ==> *final(common) == *old(common),
        r is Ok <==> !util::spec_has_duplicates(spec_server_ext_types(exts@))
            && !hello.spec_unsolicited(exts@, Seq::empty()) && (forall|i: int|
            0 <= i < exts@.len() ==> !spec_disallowed_encrypted_ext(
                #[trigger] exts@[i].spec_get_type(),
            )),
        util::spec_has_duplicates(spec_server_ext_types(exts@)) ==> r == Err::<(), Error>(
            Error::PeerMisbehavedError(PeerMisbehaved::DuplicateEncryptedExtensions),
        ) && final(common).sent_alerts@ == old(common).sent_alerts@.push(
            AlertDescription::DecodeError,
        ),
        !util::spec_has_duplicates(spec_server_ext_types(exts@)) && hello.spec_unsolicited(
            exts@,
            Seq::empty(),
        ) ==> r == Err::<(), Error>(
            Error::PeerMisbehavedError(PeerMisbehaved::UnsolicitedEncryptedExtension),
        ) && final(common).sent_alerts@ == old(common).sent_alerts@.push(
            AlertDescription::UnsupportedExtension,
        ),
        !util::spec_has_duplicates(spec_server_ext_types(exts@)) && !hello.spec_unsolicited(
            exts@,
            Seq::empty(),
        ) && (exists|i: int|
            0 <= i < exts@.len() && spec_disallowed_encrypted_ext(
                #[trigger] exts@[i].spec_get_type(),
            )) ==> r == Err::<(), Error>(
            Error::PeerMisbehavedError(PeerMisbehaved::DisallowedEncryptedExtension),
        ) && final(common).sent_alerts@ == old(common).sent_alerts@.push(
            AlertDescription::UnsupportedExtension,
        ),
{
    if server_exts_has_duplicate(exts) {
        common.send_fatal_alert(AlertDescription::DecodeError);
        return Err(Error::PeerMisbehavedError(PeerMisbehaved::DuplicateEncryptedExtensions));
    }

    let empty_allowed: Vec<ExtensionType> = Vec::new();
    if hello.server_sent_unsolicited_extensions(exts, &empty_allowed) {
        common.send_fatal_alert(AlertDescription::UnsupportedExtension);
        return Err(Error::PeerMisbehavedError(PeerMisbehaved::UnsolicitedEncryptedExtension));
    }

    let mut i: usize = 0;
    while i < exts.len()
        invariant
            i <= exts@.len(),
            *common == *old(common),
            !util::spec_has_duplicates(spec_server_ext_types(exts@)),
            !hello.spec_unsolicited(exts@, Seq::empty()),
            forall|j: int|
                0 <= j < i ==> !spec_disallowed_encrypted_ext(
                    #[trigger] exts@[j].spec_get_type(),
                ),
        decreases exts@.len() - i,
    {
        let t = exts[i].get_type();
        if t == ExtensionType::KeyShare || t == ExtensionType::PreSharedKey || t
            == ExtensionType::SupportedVersions || t == ExtensionType::ECPointFormats || t
            == ExtensionType::SessionTicket || t == ExtensionType::RenegotiationInfo || t
            == ExtensionType::ExtendedMasterSecret {
            common.send_fatal_alert(AlertDescription::UnsupportedExtension);
            return Err(Error::PeerMisbehavedError(PeerMisbehaved::DisallowedEncryptedExtension));
        }
        i = i + 1;
    }
    Ok(())
}

impl ExpectEncryptedExtensions {
    pub open spec fn wf(&self) -> bool {
        self.transcript.wf()
    }

    /// The inputs this state accepts: EncryptedExtensions with no
    /// duplicate, unsolicited or disallowed entry, an acceptable ALPN
    /// answer, and an EarlyData entry only when resuming.
    pub open spec fn spec_accepts(&self, m: Message) -> bool {
        m.payload matches MessagePayload::Handshake(HandshakePayload::EncryptedExtensions(exts))
            && {
            &&& !util::spec_has_duplicates(spec_server_ext_types(exts@))
            &&& !self.hello.spec_unsolicited(exts@, Seq::empty())
            &&& forall|i: int|
                0 <= i < exts@.len() ==> !spec_disallowed_encrypted_ext(
                    #[trigger] exts@[i].spec_get_type(),
                )
            &&& crate::hs::spec_alpn_ok(exts@, &self.config)
            &&& self.resuming_session is None ==> spec_first_server_ext(
                exts@,
                ExtensionType::EarlyData,
            ) is None
        }
    }

    /// Process EncryptedExtensions: validate them, settle ALPN, settle
    /// the 0-RTT decision, and move on — straight to Finished when
    /// resuming (policy continuity), else towards the certificate flight.
    pub fn handle(
        self,
        common: &mut ConnectionCommon,
        data: &mut ClientConnectionData,
        m: Message,
    ) -> (r: Result<NextState, Error>)
        requires
            self.wf(),
        ensures
            ({
                let ee_ok = m.payload matches MessagePayload::Handshake(
                    HandshakePayload::EncryptedExtensions(_),
                );
                &&& !ee_ok ==> r is Err && *final(common) == *old(common) && *final(data) == *old(data)
                &&& self.spec_accepts(m) ==> r is Ok
                &&& ee_ok && !util::spec_has_duplicates(spec_server_ext_types(spec_ee_of(m)))
                    && !self.hello.spec_unsolicited(spec_ee_of(m), Seq::empty()) && (forall|i: int|
                    0 <= i < spec_ee_of(m).len() ==> !spec_disallowed_encrypted_ext(
                        #[trigger] spec_ee_of(m)[i].spec_get_type(),
                    )) && crate::hs::spec_alpn_ok(spec_ee_of(m), &self.config)
                    && self.resuming_session is None && spec_first_server_ext(
                    spec_ee_of(m),
                    ExtensionType::EarlyData,
                ) is Some ==> r == Err::<NextState, Error>(
                    Error::PeerMisbehavedError(PeerMisbehaved::EarlyDataExtensionWithoutResumption),
                )
                &&& ee_ok && util::spec_has_duplicates(spec_server_ext_types(spec_ee_of(m)))
                    ==> r == Err::<NextState, Error>(
                    Error::PeerMisbehavedError(PeerMisbehaved::DuplicateEncryptedExtensions),
                ) && final(common).sent_alerts@ == old(common).sent_alerts@.push(
                    AlertDescription::DecodeError,
                )
                &&& ee_ok && !util::spec_has_duplicates(spec_server_ext_types(spec_ee_of(m)))
                    && self.hello.spec_unsolicited(spec_ee_of(m), Seq::empty()) ==> r == Err::<
                    NextState,
                    Error,
                >(Error::PeerMisbehavedError(PeerMisbehaved::UnsolicitedEncryptedExtension))
                    && final(common).sent_alerts@ == old(common).sent_alerts@.push(
                    AlertDescription::UnsupportedExtension,
                )
                &&& r matches Ok(st) ==> ({
                    let exts = spec_ee_of(m);
                    let early_accepted = spec_first_server_ext(exts, ExtensionType::EarlyData)
                        is Some;
                    &&& ee_ok
                    &&& self.resuming_session is Some ==> ({
                        &&& st matches NextState::ExpectFinished(fin)
                        &&& fin.transcript.msgs@ == self.transcript.msgs@.push(
                            HandshakePayload::EncryptedExtensions(spec_ee_vec_of(m)),
                        )
                        &&& fin.transcript.wf()
                        &&& fin.suite == self.suite
                        &&& fin.key_schedule == self.key_schedule
                        &&& fin.client_auth is None
                        &&& util::views_of(final(data).server_cert_chain@) == util::views_of(
                            self.resuming_session->Some_0.value.server_cert_chain@,
                        )
                        &&& old(common).early_traffic && early_accepted ==> final(data).early_data.state == crate::conn::EarlyDataState::Accepted && final(common).early_traffic
                        &&& old(common).early_traffic && !early_accepted ==> ({
                            &&& final(data).early_data.state
                                == crate::conn::EarlyDataState::Rejected
                            &&& !final(common).early_traffic
                            &&& final(common).record_layer.encrypter matches Some(k) && k.suite
                                == self.suite && k.secret@ == self.key_schedule.client@
                        })
                    })
                    &&& self.resuming_session is None ==> ({
                        &&& !early_accepted
                        &&& st matches NextState::ExpectCertificateOrCertReq(next)
                        &&& next.transcript.msgs@ == self.transcript.msgs@.push(
                            HandshakePayload::EncryptedExtensions(spec_ee_vec_of(m)),
                        )
                        &&& next.transcript.wf()
                        &&& next.suite == self.suite
                        &&& next.key_schedule == self.key_schedule
                        &&& next.may_send_sct_list == self.hello.sent_extensions@.contains(
                            ExtensionType::SCT,
                        )
                    })
                })
            }),
    {
        let exts = match m.payload {
            MessagePayload::Handshake(HandshakePayload::EncryptedExtensions(exts)) => exts,
            MessagePayload::Handshake(other) => {
                let mut expected: Vec<HandshakeType> = Vec::new();
                expected.push(HandshakeType::EncryptedExtensions);
                return Err(
                    Error::InappropriateHandshakeMessage {
                        expected,
                        got: other.handshake_type(),
                    },
                );
            },
            other => {
                let mut expected: Vec<crate::enums::ContentType> = Vec::new();
                expected.push(crate::enums::ContentType::Handshake);
                return Err(
                    Error::InappropriateMessage { expected, got: other.content_type() },
                );
            },
        };

        let mut transcript = self.transcript;
        let m_rebuilt = Message {
            version: m.version,
            payload: MessagePayload::Handshake(HandshakePayload::EncryptedExtensions(exts)),
        };
        transcript.add_message(&m_rebuilt);
        let exts = match m_rebuilt.payload {
            MessagePayload::Handshake(HandshakePayload::EncryptedExtensions(exts)) => exts,
            _ => {
                proof {
                    assert(false);
                }
                return Err(Error::DecryptError);
            },
        };

        match validate_encrypted_extensions(common, &self.hello, &exts) {
            Ok(_) => {},
            Err(e) => {
                return Err(e);
            },
        }
        match crate::hs::process_alpn_protocol(common, &self.config, server_exts_alpn_protocol(&exts)) {
            Ok(_) => {},
            Err(e) => {
                return Err(e);
            },
        }

        match self.resuming_session {
            Some(resuming_session) => {
                let was_early_traffic = common.early_traffic;
                if was_early_traffic {
                    if server_exts_early_data_offered(&exts) {
                        data.early_data.accepted();
                    } else {
                        data.early_data.rejected();
                        common.early_traffic = false;
                    }
                }
                if was_early_traffic && !common.early_traffic {
                    // 0-RTT was rejected: handshake keys take over.
                    common.record_layer.set_message_encrypter(
                        new_tls13_write(self.suite, &self.key_schedule.client_key()),
                    );
                }

                data.server_cert_chain = util::copy_bytes_list(
                    &resuming_session.value.server_cert_chain,
                );

                // The certificate chain is not re-verified: resumption
                // continues the original session's policy.
                let cert_verified = ServerCertVerified::assertion();
                let sig_verified = HandshakeSignatureValid::assertion();
                Ok(
                    NextState::ExpectFinished(
                        ExpectFinished {
                            config: self.config,
                            server_name: self.server_name,
                            randoms: self.randoms,
                            suite: self.suite,
                            transcript,
                            key_schedule: self.key_schedule,
                            client_auth: None,
                            cert_verified,
                            sig_verified,
                        },
                    ),
                )
            },
            None => {
                if server_exts_early_data_offered(&exts) {
                    return Err(
                        Error::PeerMisbehavedError(PeerMisbehaved::EarlyDataExtensionWithoutResumption),
                    );
                }
                Ok(
                    NextState::ExpectCertificateOrCertReq(
                        ExpectCertificateOrCertReq {
                            config: self.config,
                            server_name: self.server_name,
                            randoms: self.randoms,
                            suite: self.suite,
                            transcript,
                            key_schedule: self.key_schedule,
                            may_send_sct_list: self.hello.server_may_send_sct_list(),
                        },
                    ),
                )
            },
        }
    }
}

/// The EncryptedExtensions list of a message known to carry one.
pub open spec fn spec_ee_of(m: Message) -> Seq<ServerExtension> {
    match m.payload {
        MessagePayload::Handshake(HandshakePayload::EncryptedExtensions(exts)) => exts@,
        _ => arbitrary(),
    }
}

/// The EncryptedExtensions vector of a message known to carry one.
pub open spec fn spec_ee_vec_of(m: Message) -> Vec<ServerExtension> {
    match m.payload {
        MessagePayload::Handshake(HandshakePayload::EncryptedExtensions(exts)) => exts,
        _ => arbitrary(),
    }
}

/// A Certificate message this client accepts: empty context, clean entry
/// extensions, and any SCT list valid (non-empty, no empty entry) and
/// solicited.
pub open spec fn spec_certificate_msg_accepts(m: Message, may_send_sct_list: bool) -> bool {
    m.payload matches MessagePayload::Handshake(HandshakePayload::CertificateTls13(cert_chain))
        && {
        &&& cert_chain.context@.len() == 0
        &&& !cert_chain.spec_any_entry_has_duplicate_extension()
        &&& !cert_chain.spec_any_entry_has_unknown_extension()
        &&& cert_chain.spec_end_entity_scts() matches Some(scts) ==> scts.len() > 0 && (forall|
            j: int,
        |
            0 <= j < scts.len() ==> (#[trigger] scts[j]).len() > 0) && may_send_sct_list
    }
}

/// A CertificateRequest this client accepts: empty context, and at least
/// one requested scheme among those this client can sign with.
pub open spec fn spec_certreq_msg_accepts(m: Message) -> bool {
    m.payload matches MessagePayload::Handshake(
        HandshakePayload::CertificateRequestTls13(certreq),
    ) && {
        &&& certreq.context@.len() == 0
        &&& certreq.sigalgs matches Some(list) && (exists|i: int|
            0 <= i < list@.len() && crate::sign::spec_supported_sign_tls13().contains(
                #[trigger] list@[i],
            ))
    }
}

impl ExpectCertificateOrCertReq {
    pub open spec fn wf(&self) -> bool {
        self.transcript.wf()
    }

    /// The inputs this state accepts: either message kind, under its own
    /// acceptance condition.
    pub open spec fn spec_accepts(&self, m: Message) -> bool {
        spec_certificate_msg_accepts(m, self.may_send_sct_list) || spec_certreq_msg_accepts(m)
    }

    /// Either a Certificate or a CertificateRequest may arrive here.
    pub fn handle(
        self,
        common: &mut ConnectionCommon,
        data: &mut ClientConnectionData,
        m: Message,
    ) -> (r: Result<NextState, Error>)
        requires
            self.wf(),
        ensures
            self.spec_accepts(m) ==> r is Ok,
            r matches Ok(st) ==> ({
                &&& m.spec_is_handshake_type(HandshakeType::Certificate) ==> st
                    is ExpectCertificateVerify
                &&& m.spec_is_handshake_type(HandshakeType::CertificateRequest) ==> st
                    is ExpectCertificate
            }),
    {
        let mut content_types: Vec<crate::enums::ContentType> = Vec::new();
        content_types.push(crate::enums::ContentType::Handshake);
        let mut handshake_types: Vec<HandshakeType> = Vec::new();
        handshake_types.push(HandshakeType::Certificate);
        handshake_types.push(HandshakeType::CertificateRequest);
        proof {
            assert(content_types@.contains(crate::enums::ContentType::Handshake)) by {
                assert(content_types@[0] == crate::enums::ContentType::Handshake);
            }
            assert(handshake_types@.contains(HandshakeType::Certificate)) by {
                assert(handshake_types@[0] == HandshakeType::Certificate);
            }
            assert(handshake_types@.contains(HandshakeType::CertificateRequest)) by {
                assert(handshake_types@[1] == HandshakeType::CertificateRequest);
            }
        }
        match crate::msgs::check_message(&m, &content_types, &handshake_types) {
            Ok(_) => {},
            Err(e) => {
                return Err(e);
            },
        }
        if m.is_handshake_type(HandshakeType::Certificate) {
            ExpectCertificate {
                config: self.config,
                server_name: self.server_name,
                randoms: self.randoms,
                suite: self.suite,
                transcript: self.transcript,
                key_schedule: self.key_schedule,
                may_send_sct_list: self.may_send_sct_list,
                client_auth: None,
            }.handle(common, data, m)
        } else {
            ExpectCertificateRequest {
                config: self.config,
                server_name: self.server_name,
                randoms: self.randoms,
                suite: self.suite,
                transcript: self.transcript,
                key_schedule: self.key_schedule,
                may_send_sct_list: self.may_send_sct_list,
            }.handle(common, data, m)
        }
    }
}

impl ExpectCertificateRequest {
    pub open spec fn wf(&self) -> bool {
        self.transcript.wf()
    }

    /// The inputs this state accepts.
    pub open spec fn spec_accepts(&self, m: Message) -> bool {
        spec_certreq_msg_accepts(m)
    }

    /// Process a CertificateRequest: the context must be empty, some
    /// offered scheme must be usable, and the resolver is asked for a
    /// credential — an absent credential means an empty Certificate
    /// later, not an error.
    pub fn handle(
        self,
        common: &mut ConnectionCommon,
        data: &mut ClientConnectionData,
        m: Message,
    ) -> (r: Result<NextState, Error>)
        requires
            self.wf(),
        ensures
            self.spec_accepts(m) ==> r is Ok,
            m.payload matches MessagePayload::Handshake(
                HandshakePayload::CertificateRequestTls13(certreq),
            ) && certreq.context@.len() > 0 ==> r == Err::<NextState, Error>(
                Error::CorruptMessagePayload(crate::enums::ContentType::Handshake),
            ) && final(common).sent_alerts@ == old(common).sent_alerts@.push(
                AlertDescription::DecodeError,
            ),
            m.payload matches MessagePayload::Handshake(
                HandshakePayload::CertificateRequestTls13(certreq),
            ) && certreq.context@.len() == 0 && !(certreq.sigalgs matches Some(list) && (exists|
                i: int,
            |
                0 <= i < list@.len() && crate::sign::spec_supported_sign_tls13().contains(
                    #[trigger] list@[i],
                ))) ==> r == Err::<NextState, Error>(
                Error::PeerIncompatibleError(
                    crate::error::PeerIncompatible::NoCertificateRequestSignatureSchemesInCommon,
                ),
            ) && final(common).sent_alerts@ == old(common).sent_alerts@.push(
                AlertDescription::HandshakeFailure,
            ),
            r matches Ok(st) ==> ({
                &&& m.payload matches MessagePayload::Handshake(
                    HandshakePayload::CertificateRequestTls13(certreq),
                ) && ({
                    &&& certreq.context@.len() == 0
                    &&& st matches NextState::ExpectCertificate(next)
                    &&& next.transcript.msgs@ == self.transcript.msgs@.push(
                        HandshakePayload::CertificateRequestTls13(certreq),
                    )
                    &&& next.transcript.wf()
                    &&& next.suite == self.suite
                    &&& next.key_schedule == self.key_schedule
                    &&& next.client_auth is Some
                    &&& self.config.client_auth_cert_resolver.credential is None
                        ==> next.client_auth->Some_0.certkey is None
                            && next.client_auth->Some_0.signer is None
                })
            }),
    {
        let certreq = match m.payload {
            MessagePayload::Handshake(HandshakePayload::CertificateRequestTls13(certreq)) => certreq,
            MessagePayload::Handshake(other) => {
                let mut expected: Vec<HandshakeType> = Vec::new();
                expected.push(HandshakeType::CertificateRequest);
                return Err(
                    Error::InappropriateHandshakeMessage {
                        expected,
                        got: other.handshake_type(),
                    },
                );
            },
            other => {
                let mut expected: Vec<crate::enums::ContentType> = Vec::new();
                expected.push(crate::enums::ContentType::Handshake);
                return Err(
                    Error::InappropriateMessage { expected, got: other.content_type() },
                );
            },
        };

        let mut transcript = self.transcript;
        let m_rebuilt = Message {
            version: m.version,
            payload: MessagePayload::Handshake(HandshakePayload::CertificateRequestTls13(certreq)),
        };
        transcript.add_message(&m_rebuilt);
        let certreq = match m_rebuilt.payload {
            MessagePayload::Handshake(HandshakePayload::CertificateRequestTls13(certreq)) => certreq,
            _ => {
                proof {
                    assert(false);
                }
                return Err(Error::DecryptError);
            },
        };

        // The certificate-request context must be empty during a handshake.
        if certreq.context.len() > 0 {
            common.send_fatal_alert(AlertDescription::DecodeError);
            return Err(Error::CorruptMessagePayload(crate::enums::ContentType::Handshake));
        }

        let tls13_sign_schemes = crate::sign::supported_sign_tls13();
        let offered = match certreq.get_sigalgs_extension() {
            Some(s) => s,
            None => Vec::new(),
        };
        let mut compat_sigschemes: Vec<crate::enums::SignatureScheme> = Vec::new();
        let mut i: usize = 0;
        while i < offered.len()
            invariant
                i <= offered@.len(),
                tls13_sign_schemes@ == crate::sign::spec_supported_sign_tls13(),
                (compat_sigschemes@.len() > 0) == (exists|j: int|
                    0 <= j < i && crate::sign::spec_supported_sign_tls13().contains(
                        #[trigger] offered@[j],
                    )),
            decreases offered@.len() - i,
        {
            if util::schemes_contain(&tls13_sign_schemes, offered[i]) {
                compat_sigschemes.push(offered[i]);
            }
            i = i + 1;
        }

        if compat_sigschemes.len() == 0 {
            common.send_fatal_alert(AlertDescription::HandshakeFailure);
            return Err(
                Error::PeerIncompatibleError(
                    crate::error::PeerIncompatible::NoCertificateRequestSignatureSchemesInCommon,
                ),
            );
        }

        let canames = match certreq.get_authorities_extension() {
            Some(a) => a,
            None => Vec::new(),
        };
        let maybe_certkey = self.config.client_auth_cert_resolver.resolve(
            &canames,
            &compat_sigschemes,
        );

        let mut client_auth = ClientAuthDetails::new();
        match maybe_certkey {
            Some(certkey) => {
                let maybe_signer = certkey.key.choose_scheme(&compat_sigschemes);
                client_auth.certkey = Some(certkey);
                client_auth.signer = maybe_signer;
                client_auth.auth_context = Some(util::copy_bytes(&certreq.context));
            },
            None => {},
        }

        Ok(
            NextState::ExpectCertificate(
                ExpectCertificate {
                    config: self.config,
                    server_name: self.server_name,
                    randoms: self.randoms,
                    suite: self.suite,
                    transcript,
                    key_schedule: self.key_schedule,
                    may_send_sct_list: self.may_send_sct_list,
                    client_auth: Some(client_auth),
                },
            ),
        )
    }
}

impl ExpectCertificate {
    pub open spec fn wf(&self) -> bool {
        self.transcript.wf()
    }

    /// The inputs this state accepts.
    pub open spec fn spec_accepts(&self, m: Message) -> bool {
        spec_certificate_msg_accepts(m, self.may_send_sct_list)
    }

    /// Process the server Certificate: empty context, no unknown or
    /// duplicate entry extensions, and any SCT list must be valid and
    /// solicited.
    pub fn handle(
        self,
        common: &mut ConnectionCommon,
        data: &mut ClientConnectionData,
        m: Message,
    ) -> (r: Result<NextState, Error>)
        requires
            self.wf(),
        ensures
            self.spec_accepts(m) ==> r is Ok,
            m.payload matches MessagePayload::Handshake(
                HandshakePayload::CertificateTls13(cert_chain),
            ) && cert_chain.context@.len() > 0 ==> r == Err::<NextState, Error>(
                Error::CorruptMessagePayload(crate::enums::ContentType::Handshake),
            ) && final(common).sent_alerts@ == old(common).sent_alerts@.push(
                AlertDescription::DecodeError,
            ),
            m.payload matches MessagePayload::Handshake(
                HandshakePayload::CertificateTls13(cert_chain),
            ) && cert_chain.context@.len() == 0 && (
            cert_chain.spec_any_entry_has_duplicate_extension()
                || cert_chain.spec_any_entry_has_unknown_extension()) ==> r == Err::<
                NextState,
                Error,
            >(Error::PeerMisbehavedError(PeerMisbehaved::BadCertChainExtensions)) && final(common).sent_alerts@ == old(common).sent_alerts@.push(
                AlertDescription::UnsupportedExtension,
            ),
            ({
                let clean = m.payload matches MessagePayload::Handshake(
                    HandshakePayload::CertificateTls13(cert_chain),
                ) && cert_chain.context@.len() == 0
                    && !cert_chain.spec_any_entry_has_duplicate_extension()
                    && !cert_chain.spec_any_entry_has_unknown_extension();
                let scts = spec_cert_of(m).spec_end_entity_scts();
                let invalid = scts->Some_0.len() == 0 || (exists|j: int|
                    0 <= j < scts->Some_0.len() && (#[trigger] scts->Some_0[j]).len() == 0);
                &&& clean && scts is Some && invalid ==> r == Err::<NextState, Error>(
                    Error::PeerMisbehavedError(PeerMisbehaved::InvalidSctList),
                ) && final(common).sent_alerts@ == old(common).sent_alerts@
                &&& clean && scts is Some && !invalid && !self.may_send_sct_list ==> r == Err::<
                    NextState,
                    Error,
                >(Error::PeerMisbehavedError(PeerMisbehaved::UnsolicitedSctList)) && final(common).sent_alerts@ == old(common).sent_alerts@
            }),
            r matches Ok(st) ==> ({
                &&& m.payload matches MessagePayload::Handshake(
                    HandshakePayload::CertificateTls13(cert_chain),
                ) && ({
                    &&& cert_chain.context@.len() == 0
                    &&& !cert_chain.spec_any_entry_has_duplicate_extension()
                    &&& !cert_chain.spec_any_entry_has_unknown_extension()
                    &&& cert_chain.spec_end_entity_scts() matches Some(scts) ==> scts.len() > 0
                        && (forall|j: int|
                        0 <= j < scts.len() ==> (#[trigger] scts[j]).len() > 0)
                        && self.may_send_sct_list
                    &&& st matches NextState::ExpectCertificateVerify(next)
                    &&& next.transcript.msgs@ == self.transcript.msgs@.push(
                        HandshakePayload::CertificateTls13(cert_chain),
                    )
                    &&& next.transcript.wf()
                    &&& next.suite == self.suite
                    &&& next.key_schedule == self.key_schedule
                    &&& next.client_auth == self.client_auth
                    &&& util::views_of(next.server_cert.cert_chain@) == cert_chain.spec_chain()
                    &&& next.server_cert.ocsp_response@ == cert_chain.spec_end_entity_ocsp()
                    &&& cert_chain.spec_end_entity_scts() matches Some(scts) ==> ({
                        &&& next.server_cert.scts matches Some(v) && util::views_of(v@) == scts
                    })
                    &&& cert_chain.spec_end_entity_scts() is None ==> next.server_cert.scts
                        is None
                })
            }),
    {
        let cert_chain = match m.payload {
            MessagePayload::Handshake(HandshakePayload::CertificateTls13(cert_chain)) => cert_chain,
            MessagePayload::Handshake(other) => {
                let mut expected: Vec<HandshakeType> = Vec::new();
                expected.push(HandshakeType::Certificate);
                return Err(
                    Error::InappropriateHandshakeMessage {
                        expected,
                        got: other.handshake_type(),
                    },
                );
            },
            other => {
                let mut expected: Vec<crate::enums::ContentType> = Vec::new();
                expected.push(crate::enums::ContentType::Handshake);
                return Err(
                    Error::InappropriateMessage { expected, got: other.content_type() },
                );
            },
        };

        let mut transcript = self.transcript;
        let m_rebuilt = Message {
            version: m.version,
            payload: MessagePayload::Handshake(HandshakePayload::CertificateTls13(cert_chain)),
        };
        transcript.add_message(&m_rebuilt);
        let cert_chain = match m_rebuilt.payload {
            MessagePayload::Handshake(HandshakePayload::CertificateTls13(cert_chain)) => cert_chain,
            _ => {
                proof {
                    assert(false);
                }
                return Err(Error::DecryptError);
            },
        };

        // Only client authentication ever uses a non-empty context.
        if cert_chain.context.len() > 0 {
            common.send_fatal_alert(AlertDescription::DecodeError);
            return Err(Error::CorruptMessagePayload(crate::enums::ContentType::Handshake));
        }

        if cert_chain.any_entry_has_duplicate_extension() || cert_chain.any_entry_has_unknown_extension() {
            common.send_fatal_alert(AlertDescription::UnsupportedExtension);
            return Err(Error::PeerMisbehavedError(PeerMisbehaved::BadCertChainExtensions));
        }

        let ocsp = cert_chain.get_end_entity_ocsp();
        let scts = cert_chain.get_end_entity_scts();
        let converted_chain = cert_chain.convert();

        match &scts {
            Some(sct_list) => {
                proof {
                    assert(cert_chain.spec_end_entity_scts() == Some(util::views_of(sct_list@)));
                }
                if crate::hs::sct_list_is_invalid(sct_list) {
                    proof {
                        if sct_list@.len() > 0 {
                            let i = choose|i: int|
                                0 <= i < sct_list@.len() && (#[trigger] sct_list@[i]@).len() == 0;
                            assert(util::views_of(sct_list@)[i] == sct_list@[i]@);
                            assert(util::views_of(sct_list@)[i].len() == 0);
                        }
                    }
                    return Err(Error::PeerMisbehavedError(PeerMisbehaved::InvalidSctList));
                }
                proof {
                    assert forall|j: int|
                        0 <= j < util::views_of(sct_list@).len() implies (
                    #[trigger] util::views_of(sct_list@)[j]).len() > 0 by {
                        assert(util::views_of(sct_list@)[j] == sct_list@[j]@);
                        assert(sct_list@[j]@.len() != 0);
                    }
                }
                if !self.may_send_sct_list {
                    return Err(Error::PeerMisbehavedError(PeerMisbehaved::UnsolicitedSctList));
                }
            },
            None => {},
        }

        let server_cert = ServerCertDetails::new(converted_chain, ocsp, scts);

        Ok(
            NextState::ExpectCertificateVerify(
                ExpectCertificateVerify {
                    config: self.config,
                    server_name: self.server_name,
                    randoms: self.randoms,
                    suite: self.suite,
                    transcript,
                    key_schedule: self.key_schedule,
                    server_cert,
                    client_auth: self.client_auth,
                },
            ),
        )
    }
}

impl ExpectCertificateVerify {
    pub open spec fn wf(&self) -> bool {
        self.transcript.wf()
    }

    /// The inputs this state accepts: a CertificateVerify whose chain is
    /// non-empty and trusted, with a valid signature over the server
    /// verify-message at the current transcript hash.
    pub open spec fn spec_accepts(&self, m: Message) -> bool {
        m.payload matches MessagePayload::Handshake(HandshakePayload::CertificateVerify(dss)) && {
            &&& self.server_cert.cert_chain@.len() > 0
            &&& self.config.verifier.spec_accepts_cert(self.server_cert.cert_chain@[0]@)
            &&& self.config.verifier.spec_accepts_signature(
                crate::sign::spec_tls13_server_verify_message(
                    crate::hash_hs::spec_hash_of(self.transcript.alg, self.transcript.msgs@),
                ),
                self.server_cert.cert_chain@[0]@,
                dss,
            )
        }
    }

    /// Process CertificateVerify: the chain must be non-empty and
    /// accepted by the verifier, and the signature must check out over
    /// the server verify-message at the current transcript hash.  The
    /// message enters the transcript only after both checks.  A verifier
    /// error is returned unchanged, after the alert its kind maps to.
    pub fn handle(
        self,
        common: &mut ConnectionCommon,
        data: &mut ClientConnectionData,
        m: Message,
        now: u64,
    ) -> (r: Result<NextState, Error>)
        requires
            self.wf(),
        ensures
            self.spec_accepts(m) ==> r is Ok,
            ({
                let cv_ok = m.payload matches MessagePayload::Handshake(
                    HandshakePayload::CertificateVerify(_),
                );
                let end_entity = self.server_cert.cert_chain@[0]@;
                let verify_msg = crate::sign::spec_tls13_server_verify_message(
                    crate::hash_hs::spec_hash_of(self.transcript.alg, self.transcript.msgs@),
                );
                &&& !cv_ok ==> r is Err && *final(common) == *old(common) && *final(data) == *old(data)
                &&& cv_ok && self.server_cert.cert_chain@.len() == 0 ==> r == Err::<
                    NextState,
                    Error,
                >(Error::NoCertificatesPresented) && *final(common) == *old(common)
                &&& cv_ok && self.server_cert.cert_chain@.len() > 0 && end_entity.len() == 0 ==> r
                    == Err::<NextState, Error>(Error::WebPkiError(WebPkiError::BadEncoding))
                    && final(common).sent_alerts@ == old(common).sent_alerts@.push(
                    AlertDescription::DecodeError,
                )
                &&& cv_ok && self.server_cert.cert_chain@.len() > 0 && end_entity.len() > 0
                    && !self.config.verifier.spec_accepts_cert(end_entity) ==> r == Err::<
                    NextState,
                    Error,
                >(Error::WebPkiError(WebPkiError::CertNotTrusted)) && final(common).sent_alerts@
                    == old(common).sent_alerts@.push(AlertDescription::BadCertificate)
                &&& cv_ok && self.server_cert.cert_chain@.len() > 0
                    && self.config.verifier.spec_accepts_cert(end_entity)
                    && !self.config.verifier.schemes@.contains(spec_cv_of(m).scheme) ==> r
                    == Err::<NextState, Error>(
                    Error::PeerMisbehavedError(
                        PeerMisbehaved::SignedHandshakeWithUnadvertisedSigScheme,
                    ),
                ) && final(common).sent_alerts@ == old(common).sent_alerts@.push(
                    AlertDescription::IllegalParameter,
                )
                &&& cv_ok && self.server_cert.cert_chain@.len() > 0
                    && self.config.verifier.spec_accepts_cert(end_entity)
                    && self.config.verifier.schemes@.contains(spec_cv_of(m).scheme)
                    && spec_cv_of(m).sig@ != crate::sign::spec_signature(end_entity, verify_msg)
                    ==> r == Err::<NextState, Error>(
                    Error::WebPkiError(WebPkiError::InvalidSignature),
                ) && final(common).sent_alerts@ == old(common).sent_alerts@.push(
                    AlertDescription::BadCertificate,
                )
            }),
            r matches Ok(st) ==> ({
                &&& m.payload matches MessagePayload::Handshake(
                    HandshakePayload::CertificateVerify(dss),
                ) && ({
                    &&& self.server_cert.cert_chain@.len() > 0
                    &&& self.config.verifier.spec_accepts_cert(
                        self.server_cert.cert_chain@[0]@,
                    )
                    &&& self.config.verifier.spec_accepts_signature(
                        crate::sign::spec_tls13_server_verify_message(
                            crate::hash_hs::spec_hash_of(
                                self.transcript.alg,
                                self.transcript.msgs@,
                            ),
                        ),
                        self.server_cert.cert_chain@[0]@,
                        dss,
                    )
                    &&& st matches NextState::ExpectFinished(next)
                    &&& next.transcript.msgs@ == self.transcript.msgs@.push(
                        HandshakePayload::CertificateVerify(dss),
                    )
                    &&& next.transcript.wf()
                    &&& next.suite == self.suite
                    &&& next.key_schedule == self.key_schedule
                    &&& next.client_auth == self.client_auth
                    &&& util::views_of(final(data).server_cert_chain@) == util::views_of(
                        self.server_cert.cert_chain@,
                    )
                })
            }),
    {
        let cert_verify = match m.payload {
            MessagePayload::Handshake(HandshakePayload::CertificateVerify(dss)) => dss,
            MessagePayload::Handshake(other) => {
                let mut expected: Vec<HandshakeType> = Vec::new();
                expected.push(HandshakeType::CertificateVerify);
                return Err(
                    Error::InappropriateHandshakeMessage {
                        expected,
                        got: other.handshake_type(),
                    },
                );
            },
            other => {
                let mut expected: Vec<crate::enums::ContentType> = Vec::new();
                expected.push(crate::enums::ContentType::Handshake);
                return Err(
                    Error::InappropriateMessage { expected, got: other.content_type() },
                );
            },
        };

        if self.server_cert.cert_chain.len() == 0 {
            return Err(Error::NoCertificatesPresented);
        }
        let end_entity = util::copy_bytes(&self.server_cert.cert_chain[0]);
        let mut intermediates: Vec<Vec<u8>> = Vec::new();
        let mut i: usize = 1;
        while i < self.server_cert.cert_chain.len()
            invariant
                1 <= i <= self.server_cert.cert_chain@.len() || (
                self.server_cert.cert_chain@.len() == 0 && i == 1),
            decreases self.server_cert.cert_chain@.len() - i,
        {
            intermediates.push(util::copy_bytes(&self.server_cert.cert_chain[i]));
            i = i + 1;
        }

        let scts_for_verify = match &self.server_cert.scts {
            Some(s) => util::copy_bytes_list(s),
            None => Vec::new(),
        };

        let cert_verified = match self.config.verifier.verify_server_cert(
            &end_entity,
            &intermediates,
            &self.server_name,
            &scts_for_verify,
            &self.server_cert.ocsp_response,
            now,
        ) {
            Ok(t) => t,
            Err(e) => {
                return Err(crate::hs::send_cert_error_alert(common, e));
            },
        };

        let handshake_hash = self.transcript.get_current_hash();
        let verify_message = crate::sign::construct_tls13_server_verify_message(&handshake_hash);
        let sig_verified = match self.config.verifier.verify_tls13_signature(
            &verify_message,
            &end_entity,
            &cert_verify,
        ) {
            Ok(t) => t,
            Err(e) => {
                return Err(crate::hs::send_cert_error_alert(common, e));
            },
        };

        data.server_cert_chain = util::copy_bytes_list(&self.server_cert.cert_chain);

        let mut transcript = self.transcript;
        let m_rebuilt = Message {
            version: m.version,
            payload: MessagePayload::Handshake(HandshakePayload::CertificateVerify(cert_verify)),
        };
        transcript.add_message(&m_rebuilt);

        Ok(
            NextState::ExpectFinished(
                ExpectFinished {
                    config: self.config,
                    server_name: self.server_name,
                    randoms: self.randoms,
                    suite: self.suite,
                    transcript,
                    key_schedule: self.key_schedule,
                    client_auth: self.client_auth,
                    cert_verified,
                    sig_verified,
                },
            ),
        )
    }
}

/// Send the client Certificate: the chosen chain, or no entries at all
/// when no credential matched.
fn emit_certificate_tls13(
    transcript: &mut HandshakeHash,
    client_auth: &mut ClientAuthDetails,
    common: &mut ConnectionCommon,
)
    requires
        old(transcript).wf(),
    ensures
        final(transcript).wf(),
        final(transcript).alg == old(transcript).alg,
        final(common).sent@.len() == old(common).sent@.len() + 1,
        forall|i: int|
            0 <= i < old(common).sent@.len() ==> final(common).sent@[i] == old(common).sent@[i],
        crate::conn::spec_keys_match(
            final(common).sent@.last().keys,
            old(common).record_layer.encrypter,
        ),
        ({
            let rec = final(common).sent@.last();
            &&& rec.encrypted
            &&& rec.msg.version == ProtocolVersion::Tls13
            &&& rec.msg.payload matches MessagePayload::Handshake(hs) && hs matches
                HandshakePayload::CertificateTls13(payload) && ({
                &&& old(client_auth).certkey matches Some(ck) ==> util::views_of(
                    payload.entries@.map_values(|e: crate::msgs::CertificateEntry| e.cert),
                ) == util::views_of(ck.cert@)
                &&& old(client_auth).certkey is None ==> payload.entries@.len() == 0
                &&& final(transcript).msgs@ == old(transcript).msgs@.push(hs)
            })
        }),
        *final(common) == (ConnectionCommon { sent: final(common).sent, ..*old(common) }),
        final(client_auth).certkey == old(client_auth).certkey,
        final(client_auth).signer == old(client_auth).signer,
{
    let context = match client_auth.auth_context.take() {
        Some(c) => c,
        None => Vec::new(),
    };

    let mut entries: Vec<crate::msgs::CertificateEntry> = Vec::new();
    match &client_auth.certkey {
        Some(cert_key) => {
            let mut i: usize = 0;
            while i < cert_key.cert.len()
                invariant
                    i <= cert_key.cert@.len(),
                    entries@.len() == i,
                    forall|j: int| 0 <= j < i ==> (#[trigger] entries@[j]).cert@ == cert_key.cert@[j]@,
                decreases cert_key.cert@.len() - i,
            {
                entries.push(crate::msgs::CertificateEntry::new(util::copy_bytes(&cert_key.cert[i])));
                i = i + 1;
            }
            proof {
                assert(util::views_of(
                    entries@.map_values(|e: crate::msgs::CertificateEntry| e.cert),
                ) =~= util::views_of(cert_key.cert@));
            }
        },
        None => {},
    }

    let cert_payload = crate::msgs::CertificatePayloadTls13 { context, entries };

    let m = Message {
        version: ProtocolVersion::Tls13,
        payload: MessagePayload::Handshake(HandshakePayload::CertificateTls13(cert_payload)),
    };
    transcript.add_message(&m);
    common.send_msg(m, true);
}

/// Send CertificateVerify — only when a signer was chosen; with none,
/// client authentication ends at the (possibly empty) Certificate.
fn emit_certverify_tls13(
    transcript: &mut HandshakeHash,
    client_auth: &mut ClientAuthDetails,
    common: &mut ConnectionCommon,
)
    requires
        old(transcript).wf(),
    ensures
        final(transcript).wf(),
        final(transcript).alg == old(transcript).alg,
        old(client_auth).signer is None ==> final(common).sent@ == old(common).sent@ && final(transcript).msgs@ == old(transcript).msgs@ && *final(common) == *old(common),
        old(client_auth).signer matches Some(signer) ==> ({
            &&& final(common).sent@.len() == old(common).sent@.len() + 1
            &&& forall|i: int|
                0 <= i < old(common).sent@.len() ==> final(common).sent@[i] == old(common).sent@[i]
            &&& crate::conn::spec_keys_match(
                final(common).sent@.last().keys,
                old(common).record_layer.encrypter,
            )
            &&& ({
                let rec = final(common).sent@.last();
                &&& rec.encrypted
                &&& rec.msg.version == ProtocolVersion::Tls13
                &&& rec.msg.payload matches MessagePayload::Handshake(hs) && hs matches
                    HandshakePayload::CertificateVerify(dss) && ({
                    &&& dss.scheme == signer.scheme
                    &&& dss.sig@ == crate::sign::spec_signature(
                        signer.key@,
                        crate::sign::spec_tls13_client_verify_message(
                            crate::hash_hs::spec_hash_of(
                                old(transcript).alg,
                                old(transcript).msgs@,
                            ),
                        ),
                    )
                    &&& final(transcript).msgs@ == old(transcript).msgs@.push(hs)
                })
            })
            &&& *final(common) == (ConnectionCommon { sent: final(common).sent, ..*old(common) })
        }),
        final(client_auth).signer is None,
{
    let signer = match client_auth.signer.take() {
        Some(s) => s,
        None => {
            return ;
        },
    };

    let message = crate::sign::construct_tls13_client_verify_message(
        &transcript.get_current_hash(),
    );

    let scheme = signer.get_scheme();
    let sig = signer.sign(&message);
    let dss = crate::sign::DigitallySignedStruct { scheme, sig };

    let m = Message {
        version: ProtocolVersion::Tls13,
        payload: MessagePayload::Handshake(HandshakePayload::CertificateVerify(dss)),
    };
    transcript.add_message(&m);
    common.send_msg(m, true);
}

/// Send the client Finished carrying the given verify-data.
fn emit_finished_tls13(
    transcript: &mut HandshakeHash,
    verify_data: Vec<u8>,
    common: &mut ConnectionCommon,
)
    requires
        old(transcript).wf(),
    ensures
        final(transcript).wf(),
        final(transcript).alg == old(transcript).alg,
        final(common).sent@.len() == old(common).sent@.len() + 1,
        forall|i: int|
            0 <= i < old(common).sent@.len() ==> final(common).sent@[i] == old(common).sent@[i],
        crate::conn::spec_keys_match(
            final(common).sent@.last().keys,
            old(common).record_layer.encrypter,
        ),
        ({
            let rec = final(common).sent@.last();
            &&& rec.encrypted
            &&& rec.msg.version == ProtocolVersion::Tls13
            &&& rec.msg.payload matches MessagePayload::Handshake(hs) && hs matches
                HandshakePayload::Finished(vd) && vd@ == verify_data@ && final(transcript).msgs@
                == old(transcript).msgs@.push(hs)
        }),
        *final(common) == (ConnectionCommon { sent: final(common).sent, ..*old(common) }),
{
    let m = Message {
        version: ProtocolVersion::Tls13,
        payload: MessagePayload::Handshake(HandshakePayload::Finished(verify_data)),
    };
    transcript.add_message(&m);
    common.send_msg(m, true);
}

/// Send EndOfEarlyData — except over QUIC, which has no such message.
fn emit_end_of_early_data_tls13(transcript: &mut HandshakeHash, common: &mut ConnectionCommon)
    requires
        old(transcript).wf(),
    ensures
        final(transcript).wf(),
        final(transcript).alg == old(transcript).alg,
        old(common).protocol == Protocol::Quic ==> *final(common) == *old(common) && final(transcript).msgs@ == old(transcript).msgs@,
        old(common).protocol != Protocol::Quic ==> ({
            &&& final(common).sent@.len() == old(common).sent@.len() + 1
            &&& forall|i: int|
                0 <= i < old(common).sent@.len() ==> final(common).sent@[i] == old(common).sent@[i]
            &&& final(common).sent@.last().encrypted
            &&& crate::conn::spec_keys_match(
                final(common).sent@.last().keys,
                old(common).record_layer.encrypter,
            )
            &&& final(common).sent@.last().msg.payload == MessagePayload::Handshake(
                HandshakePayload::EndOfEarlyData,
            )
            &&& final(transcript).msgs@ == old(transcript).msgs@.push(
                HandshakePayload::EndOfEarlyData,
            )
            &&& *final(common) == (ConnectionCommon { sent: final(common).sent, ..*old(common) })
        }),
{
    if common.is_quic() {
        return ;
    }

    let m = Message {
        version: ProtocolVersion::Tls13,
        payload: MessagePayload::Handshake(HandshakePayload::EndOfEarlyData),
    };
    transcript.add_message(&m);
    common.send_msg(m, true);
}

/// Relies on ring::constant_time::verify_slices_are_equal: it returns Ok
/// exactly when the two byte slices are equal.
#[verifier::external_body]
fn constant_time_eq(a: &[u8], b: &[u8]) -> (r: bool)
    ensures
        r == (a@ == b@),
{
    ring::constant_time::verify_slices_are_equal(a, b).is_ok()
}

impl ExpectFinished {
    pub open spec fn wf(&self) -> bool {
        self.transcript.wf()
    }

    /// The inputs this state accepts: a Finished carrying exactly the
    /// verify-data the handshake schedule derives at the current
    /// transcript hash, at a handshake-message boundary.
    pub open spec fn spec_accepts(&self, m: Message, aligned: bool) -> bool {
        m.payload matches MessagePayload::Handshake(HandshakePayload::Finished(vd)) && vd@
            == key_schedule::spec_verify_data(
            self.key_schedule.server@,
            crate::hash_hs::spec_hash_of(self.transcript.alg, self.transcript.msgs@),
        ) && aligned
    }

    /// Process the server Finished: its verify-data must equal, in
    /// constant time, the value the handshake schedule derives at the
    /// current transcript hash.  Then, in order: EndOfEarlyData if early
    /// traffic is in flight, the client authentication flight if it was
    /// requested, the promotion to application traffic secrets, the
    /// client Finished, and the installation of both application keys.
    pub fn handle(
        self,
        common: &mut ConnectionCommon,
        data: &mut ClientConnectionData,
        m: Message,
    ) -> (r: Result<NextState, Error>)
        requires
            self.wf(),
        ensures
            ({
                let fin_ok = m.payload matches MessagePayload::Handshake(
                    HandshakePayload::Finished(_),
                );
                let expect_verify_data = key_schedule::spec_verify_data(
                    self.key_schedule.server@,
                    crate::hash_hs::spec_hash_of(self.transcript.alg, self.transcript.msgs@),
                );
                &&& !fin_ok ==> r is Err && *final(common) == *old(common)
                &&& fin_ok && spec_fin_of(m)@ != expect_verify_data ==> ({
                    &&& r == Err::<NextState, Error>(Error::DecryptError)
                    &&& final(common).sent_alerts@ == old(common).sent_alerts@.push(
                        AlertDescription::DecryptError,
                    )
                    &&& final(common).record_layer == old(common).record_layer
                })
                &&& fin_ok && spec_fin_of(m)@ == expect_verify_data && !old(common).aligned ==> r
                    == Err::<NextState, Error>(
                    Error::PeerMisbehavedError(PeerMisbehaved::KeyEpochWithPendingFragment),
                )
                &&& self.spec_accepts(m, old(common).aligned) ==> r is Ok
                &&& r matches Ok(st) ==> ({
                    let master = key_schedule::spec_master_secret(self.key_schedule.secret@);
                    &&& fin_ok
                    &&& spec_fin_of(m)@ == expect_verify_data
                    &&& old(common).aligned
                    &&& st is ExpectTraffic || st is ExpectQuicTraffic
                    &&& old(common).protocol == Protocol::Quic <==> st is ExpectQuicTraffic
                    &&& ({
                        let traffic = match st {
                            NextState::ExpectTraffic(t) => t,
                            NextState::ExpectQuicTraffic(q) => q.inner,
                            _ => arbitrary(),
                        };
                        &&& traffic.key_schedule.master@ == master
                        &&& traffic.suite == self.suite
                        &&& traffic.want_write_key_update == false
                        &&& final(common).record_layer.decrypter matches Some(dk) && dk.suite
                            == self.suite && dk.secret@ == traffic.key_schedule.current_server@
                        &&& final(common).record_layer.encrypter matches Some(ek) && ek.suite
                            == self.suite && ek.secret@ == traffic.key_schedule.current_client@
                        &&& final(common).traffic_started
                        &&& !final(common).early_traffic
                        &&& ({
                            let rec = final(common).sent@.last();
                            &&& rec.encrypted
                            &&& rec.msg.payload matches MessagePayload::Handshake(hs) && hs matches
                                HandshakePayload::Finished(vd) && vd@
                                == key_schedule::spec_verify_data(
                                self.key_schedule.client@,
                                crate::hash_hs::spec_hash_of(
                                    traffic.transcript.alg,
                                    traffic.transcript.msgs@.drop_last(),
                                ),
                            ) && traffic.transcript.msgs@.last() == hs
                        })
                        &&& traffic.transcript.wf()
                        &&& ({
                            let alg = self.transcript.alg;
                            let base = self.transcript.msgs@.push(
                                HandshakePayload::Finished(spec_fin_of(m)),
                            );
                            let early_in = old(common).early_traffic;
                            let eoed = early_in && old(common).protocol != Protocol::Quic;
                            let has_cert = self.client_auth is Some;
                            let has_cv = has_cert && self.client_auth->Some_0.signer is Some;
                            let cert_idx = base.len() + (if eoed {
                                1int
                            } else {
                                0int
                            });
                            let msgs = traffic.transcript.msgs@;
                            let s0 = old(common).sent@.len() as int;
                            &&& traffic.transcript.alg == alg
                            &&& msgs.len() == base.len() + (if eoed {
                                1int
                            } else {
                                0int
                            }) + (if has_cert {
                                1int
                            } else {
                                0int
                            }) + (if has_cv {
                                1int
                            } else {
                                0int
                            }) + 1
                            &&& forall|i: int| 0 <= i < base.len() ==> msgs[i] == base[i]
                            &&& eoed ==> msgs[base.len() as int]
                                == HandshakePayload::EndOfEarlyData
                            &&& has_cert ==> ({
                                &&& msgs[cert_idx] matches HandshakePayload::CertificateTls13(p)
                                    && (self.client_auth->Some_0.certkey matches Some(ck) ==> util::views_of(
                                    p.entries@.map_values(
                                        |e: crate::msgs::CertificateEntry| e.cert,
                                    ),
                                ) == util::views_of(ck.cert@)) && (self.client_auth->Some_0.certkey
                                    is None ==> p.entries@.len() == 0)
                            })
                            &&& has_cv ==> ({
                                &&& msgs[cert_idx + 1] matches HandshakePayload::CertificateVerify(
                                    dss,
                                ) && dss.scheme == self.client_auth->Some_0.signer->Some_0.scheme
                                    && dss.sig@ == crate::sign::spec_signature(
                                    self.client_auth->Some_0.signer->Some_0.key@,
                                    crate::sign::spec_tls13_client_verify_message(
                                        crate::hash_hs::spec_hash_of(
                                            alg,
                                            msgs.take(cert_idx + 1),
                                        ),
                                    ),
                                )
                            })
                            &&& traffic.key_schedule.current_client@
                                == key_schedule::spec_client_ap_traffic(
                                master,
                                crate::hash_hs::spec_hash_of(alg, base),
                            )
                            &&& traffic.key_schedule.current_server@
                                == key_schedule::spec_server_ap_traffic(
                                master,
                                crate::hash_hs::spec_hash_of(alg, base),
                            )
                            &&& final(common).sent@.len() == s0 + (if eoed {
                                1int
                            } else {
                                0int
                            }) + (if has_cert {
                                1int
                            } else {
                                0int
                            }) + (if has_cv {
                                1int
                            } else {
                                0int
                            }) + 1
                            &&& forall|i: int|
                                0 <= i < s0 ==> final(common).sent@[i] == old(common).sent@[i]
                            &&& eoed ==> ({
                                let rec = final(common).sent@[s0];
                                &&& rec.msg.payload == MessagePayload::Handshake(
                                    HandshakePayload::EndOfEarlyData,
                                )
                                &&& rec.encrypted
                                &&& crate::conn::spec_keys_match(
                                    rec.keys,
                                    old(common).record_layer.encrypter,
                                )
                            })
                            &&& early_in ==> ({
                                &&& final(common).sent@.last().keys matches Some(k) && k.suite
                                    == self.suite && k.secret@ == self.key_schedule.client@
                            })
                            &&& !early_in ==> crate::conn::spec_keys_match(
                                final(common).sent@.last().keys,
                                old(common).record_layer.encrypter,
                            )
                        })
                    })
                })
            }),
    {
        let finished = match m.payload {
            MessagePayload::Handshake(HandshakePayload::Finished(vd)) => vd,
            MessagePayload::Handshake(other) => {
                let mut expected: Vec<HandshakeType> = Vec::new();
                expected.push(HandshakeType::Finished);
                return Err(
                    Error::InappropriateHandshakeMessage {
                        expected,
                        got: other.handshake_type(),
                    },
                );
            },
            other => {
                let mut expected: Vec<crate::enums::ContentType> = Vec::new();
                expected.push(crate::enums::ContentType::Handshake);
                return Err(
                    Error::InappropriateMessage { expected, got: other.content_type() },
                );
            },
        };

        let mut st = self;

        let handshake_hash = st.transcript.get_current_hash();
        let expect_verify_data = st.key_schedule.sign_server_finish(&handshake_hash);

        if !constant_time_eq(expect_verify_data.as_slice(), finished.as_slice()) {
            common.send_fatal_alert(AlertDescription::DecryptError);
            return Err(Error::DecryptError);
        }
        let fin = FinishedMessageVerified::assertion();

        let m_rebuilt = Message {
            version: m.version,
            payload: MessagePayload::Handshake(HandshakePayload::Finished(finished)),
        };
        st.transcript.add_message(&m_rebuilt);
        let ghost base = st.transcript.msgs@;
        let ghost early_in = common.early_traffic;

        let hash_after_handshake = st.transcript.get_current_hash();

        // EndOfEarlyData still travels under the early keys, then the
        // client handshake key takes over.
        if common.early_traffic {
            emit_end_of_early_data_tls13(&mut st.transcript, common);
            common.early_traffic = false;
            data.early_data.finished();
            common.record_layer.set_message_encrypter(
                new_tls13_write(st.suite, &st.key_schedule.client_key()),
            );
        }

        let ghost mut t_cert: Seq<HandshakePayload> = Seq::empty();
        match &mut st.client_auth {
            Some(client_auth) => {
                emit_certificate_tls13(&mut st.transcript, client_auth, common);
                proof {
                    t_cert = st.transcript.msgs@;
                }
                emit_certverify_tls13(&mut st.transcript, client_auth, common);
            },
            None => {},
        }

        let ks = KeyScheduleHandshake {
            secret: st.key_schedule.secret,
            client: st.key_schedule.client,
            server: st.key_schedule.server,
        };
        let (key_schedule_finished, client_key, server_key) =
            ks.into_traffic_with_client_finished_pending(&hash_after_handshake);
        let handshake_hash = st.transcript.get_current_hash();
        let (key_schedule_traffic, verify_data) = key_schedule_finished.sign_client_finish(
            &handshake_hash,
        );
        emit_finished_tls13(&mut st.transcript, verify_data, common);

        match common.check_aligned_handshake() {
            Ok(_) => {},
            Err(e) => {
                return Err(e);
            },
        }

        common.record_layer.set_message_decrypter(new_tls13_read(st.suite, &server_key));
        common.record_layer.set_message_encrypter(new_tls13_write(st.suite, &client_key));

        common.start_traffic();

        let traffic = ExpectTraffic {
            config: st.config,
            server_name: st.server_name,
            suite: st.suite,
            transcript: st.transcript,
            key_schedule: key_schedule_traffic,
            want_write_key_update: false,
            cert_verified: st.cert_verified,
            sig_verified: st.sig_verified,
            fin_verified: fin,
        };
        proof {
            let eoed = early_in && old(common).protocol != Protocol::Quic;
            let cert_idx = base.len() + (if eoed {
                1int
            } else {
                0int
            });
            assert(forall|i: int|
                0 <= i < base.len() ==> traffic.transcript.msgs@[i] == base[i]);
            if self.client_auth is Some && self.client_auth->Some_0.signer is Some {
                assert(traffic.transcript.msgs@.take(cert_idx + 1) =~= t_cert);
            }
        }

        if common.is_quic() {
            return Ok(NextState::ExpectQuicTraffic(ExpectQuicTraffic { inner: traffic }));
        }

        Ok(NextState::ExpectTraffic(traffic))
    }
}

/// The Certificate payload of a message known to carry one.
pub open spec fn spec_cert_of(m: Message) -> crate::msgs::CertificatePayloadTls13 {
    match m.payload {
        MessagePayload::Handshake(HandshakePayload::CertificateTls13(c)) => c,
        _ => arbitrary(),
    }
}

/// The CertificateVerify signature of a message known to carry one.
pub open spec fn spec_cv_of(m: Message) -> crate::sign::DigitallySignedStruct {
    match m.payload {
        MessagePayload::Handshake(HandshakePayload::CertificateVerify(dss)) => dss,
        _ => arbitrary(),
    }
}

/// The Finished verify-data of a message known to carry one.
pub open spec fn spec_fin_of(m: Message) -> Vec<u8> {
    match m.payload {
        MessagePayload::Handshake(HandshakePayload::Finished(vd)) => vd,
        _ => arbitrary(),
    }
}

/// The handshake payload of a message known to carry one.
pub open spec fn spec_hs_payload_of(m: Message) -> HandshakePayload {
    match m.payload {
        MessagePayload::Handshake(hs) => hs,
        _ => arbitrary(),
    }
}

/// The KeyUpdate request of a message known to carry one.
pub open spec fn spec_ku_of(m: Message) -> crate::enums::KeyUpdateRequest {
    match m.payload {
        MessagePayload::Handshake(HandshakePayload::KeyUpdate(kur)) => kur,
        _ => arbitrary(),
    }
}

/// The NewSessionTicket payload of a message known to carry one.
pub open spec fn spec_nst_of(m: Message) -> crate::msgs::NewSessionTicketPayloadTls13 {
    match m.payload {
        MessagePayload::Handshake(HandshakePayload::NewSessionTicketTls13(nst)) => nst,
        _ => arbitrary(),
    }
}

/// The cache holds, under this server's session key, exactly the entry a
/// NewSessionTicket names — resumption secret derived at the current
/// transcript hash — and every other key is untouched.
pub open spec fn spec_ticket_cached(
    new_entries: Seq<(Vec<u8>, StoredValue)>,
    old_entries: Seq<(Vec<u8>, StoredValue)>,
    st: ExpectTraffic,
    chain: Seq<Vec<u8>>,
    nst: crate::msgs::NewSessionTicketPayloadTls13,
    now: u64,
) -> bool {
    &&& persist::spec_lookup(
        new_entries,
        persist::spec_key_encoding(persist::KEY_TAG_SESSION, &st.server_name),
    ) matches Some(stored) && (stored matches StoredValue::Session(v) && {
        &&& v.version == ProtocolVersion::Tls13
        &&& v.cipher_suite == st.suite.suite
        &&& v.session_id.bytes@.len() == 0
        &&& v.ticket@ == nst.ticket@
        &&& v.master_secret@ == key_schedule::spec_resumption_psk(
            st.key_schedule.master@,
            crate::hash_hs::spec_hash_of(st.transcript.alg, st.transcript.msgs@),
            nst.nonce@,
        )
        &&& util::views_of(v.server_cert_chain@) == util::views_of(chain)
        &&& v.epoch == now
        &&& v.lifetime == nst.lifetime
        &&& v.age_add == nst.age_add
        &&& v.max_early_data_size == (match nst.max_early_data_size {
            Some(sz) => sz,
            None => 0u32,
        })
    })
    &&& forall|other: Seq<u8>|
        other != persist::spec_key_encoding(persist::KEY_TAG_SESSION, &st.server_name)
            ==> #[trigger] persist::spec_lookup(new_entries, other) == persist::spec_lookup(
            old_entries,
            other,
        )
}

/// A key update was applied: the read key stepped a generation, the write
/// key untouched, and the lazy write-update flag set exactly when the
/// server requested it.
pub open spec fn spec_key_update_applied(
    old_st: ExpectTraffic,
    new_st: ExpectTraffic,
    old_common: ConnectionCommon,
    new_common: ConnectionCommon,
    kur: crate::enums::KeyUpdateRequest,
) -> bool {
    &&& new_st.key_schedule.current_server@ == key_schedule::spec_next_generation(
        old_st.key_schedule.current_server@,
    )
    &&& new_st.key_schedule.current_client@ == old_st.key_schedule.current_client@
    &&& new_st.key_schedule.master@ == old_st.key_schedule.master@
    &&& new_common.record_layer.decrypter matches Some(k) && k.suite == old_st.suite && k.secret@
        == new_st.key_schedule.current_server@
    &&& new_common.record_layer.encrypter == old_common.record_layer.encrypter
    &&& kur == crate::enums::KeyUpdateRequest::UpdateRequested ==> new_st.want_write_key_update
    &&& kur == crate::enums::KeyUpdateRequest::UpdateNotRequested ==> new_st.want_write_key_update
        == old_st.want_write_key_update
    &&& new_common.sent@ == old_common.sent@
}

impl ExpectTraffic {
    pub open spec fn wf(&self) -> bool {
        self.transcript.wf()
    }

    /// The inputs this state accepts: application data, a session ticket,
    /// or a recognised key update at a message boundary (never over QUIC).
    pub open spec fn spec_accepts(&self, m: Message, quic: bool, aligned: bool) -> bool {
        match m.payload {
            MessagePayload::ApplicationData(_) => true,
            MessagePayload::Handshake(HandshakePayload::NewSessionTicketTls13(_)) => true,
            MessagePayload::Handshake(HandshakePayload::KeyUpdate(kur)) => !quic && aligned && (kur
                == crate::enums::KeyUpdateRequest::UpdateNotRequested || kur
                == crate::enums::KeyUpdateRequest::UpdateRequested),
            _ => false,
        }
    }

    /// Store the session a NewSessionTicket names: derive the resumption
    /// secret at the current transcript hash and put the entry under this
    /// server's cache key.  A failing put is not an error.
    pub fn handle_new_ticket_tls13(
        &mut self,
        data: &mut ClientConnectionData,
        storage: &mut SessionStorage,
        nst: &crate::msgs::NewSessionTicketPayloadTls13,
        now: u64,
    ) -> (r: Result<(), Error>)
        requires
            old(self).wf(),
        ensures
            final(self).wf(),
            *final(self) == *old(self),
            *final(data) == *old(data),
            r is Ok,
            spec_ticket_cached(
                final(storage).entries@,
                old(storage).entries@,
                *old(self),
                old(data).server_cert_chain@,
                *nst,
                now,
            ),
    {
        let handshake_hash = self.transcript.get_current_hash();
        let secret = self.key_schedule.resumption_master_secret_and_derive_ticket_psk(
            &handshake_hash,
            &nst.nonce,
        );

        let mut value = persist::ClientSessionValue::new(
            ProtocolVersion::Tls13,
            self.suite.suite,
            &crate::msgs::SessionId::empty(),
            util::copy_bytes(&nst.ticket),
            secret,
            &data.server_cert_chain,
            now,
        );
        value.set_times(nst.lifetime, nst.age_add);

        match nst.get_max_early_data_size() {
            Some(sz) => {
                value.set_max_early_data_size(sz);
            },
            None => {},
        }

        let key = ClientSessionKey::session_for_server_name(&self.server_name);
        storage.put(key.get_encoding(), StoredValue::Session(value));
        Ok(())
    }

    /// Apply a KeyUpdate: step the read key to its next generation; the
    /// write key changes only lazily, on the next write, and only when
    /// the server requested it.
    pub fn handle_key_update(
        &mut self,
        common: &mut ConnectionCommon,
        kur: crate::enums::KeyUpdateRequest,
    ) -> (r: Result<(), Error>)
        requires
            old(self).wf(),
        ensures
            final(self).wf(),
            final(self).transcript == old(self).transcript,
            final(self).suite == old(self).suite,
            old(common).protocol == Protocol::Quic ==> r == Err::<(), Error>(
                Error::PeerMisbehavedError(PeerMisbehaved::InvalidKeyUpdateRequest),
            ) && *final(self) == *old(self) && final(common).sent_alerts@ == old(common).sent_alerts@.push(AlertDescription::UnexpectedMessage) && final(common).record_layer
                == old(common).record_layer,
            old(common).protocol != Protocol::Quic && !old(common).aligned ==> r == Err::<
                (),
                Error,
            >(Error::PeerMisbehavedError(PeerMisbehaved::KeyEpochWithPendingFragment)) && *final(self) == *old(self) && final(common).record_layer == old(common).record_layer,
            old(common).protocol != Protocol::Quic && old(common).aligned && (kur
                matches crate::enums::KeyUpdateRequest::Unknown(_)) ==> r == Err::<(), Error>(
                Error::CorruptMessagePayload(crate::enums::ContentType::Handshake),
            ) && *final(self) == *old(self) && final(common).sent_alerts@ == old(common).sent_alerts@.push(AlertDescription::IllegalParameter) && final(common).record_layer
                == old(common).record_layer,
            ({
                let applies = old(common).protocol != Protocol::Quic && old(common).aligned && (kur
                    == crate::enums::KeyUpdateRequest::UpdateNotRequested || kur
                    == crate::enums::KeyUpdateRequest::UpdateRequested);
                &&& applies ==> r is Ok && spec_key_update_applied(
                    *old(self),
                    *final(self),
                    *old(common),
                    *final(common),
                    kur,
                )
            }),
    {
        if common.is_quic() {
            common.send_fatal_alert(AlertDescription::UnexpectedMessage);
            return Err(Error::PeerMisbehavedError(PeerMisbehaved::InvalidKeyUpdateRequest));
        }

        // A key change may not interleave with a handshake flight.
        match common.check_aligned_handshake() {
            Ok(_) => {},
            Err(e) => {
                return Err(e);
            },
        }

        match kur {
            crate::enums::KeyUpdateRequest::UpdateNotRequested => {},
            crate::enums::KeyUpdateRequest::UpdateRequested => {
                self.want_write_key_update = true;
            },
            crate::enums::KeyUpdateRequest::Unknown(_) => {
                common.send_fatal_alert(AlertDescription::IllegalParameter);
                return Err(Error::CorruptMessagePayload(crate::enums::ContentType::Handshake));
            },
        }

        let new_read_key = self.key_schedule.next_server_application_traffic_secret();
        common.record_layer.set_message_decrypter(new_tls13_read(self.suite, &new_read_key));

        Ok(())
    }

    /// Service application data, tickets and key updates; anything else
    /// is out of place in this state.
    pub fn handle(
        &mut self,
        common: &mut ConnectionCommon,
        data: &mut ClientConnectionData,
        storage: &mut SessionStorage,
        m: Message,
        now: u64,
    ) -> (r: Result<(), Error>)
        requires
            old(self).wf(),
        ensures
            final(self).wf(),
            old(self).spec_accepts(
                m,
                old(common).protocol == Protocol::Quic,
                old(common).aligned,
            ) ==> r is Ok,
            m.payload matches MessagePayload::ApplicationData(bytes) ==> r is Ok && final(common).received_plaintext@.len() == old(common).received_plaintext@.len() + 1 && final(common).received_plaintext@.last()@ == bytes@ && *final(self) == *old(self) && *final(data)
                == *old(data) && final(storage).entries@ == old(storage).entries@,
            m.payload matches MessagePayload::Handshake(
                HandshakePayload::NewSessionTicketTls13(_),
            ) ==> r is Ok && spec_ticket_cached(
                final(storage).entries@,
                old(storage).entries@,
                *old(self),
                old(data).server_cert_chain@,
                spec_nst_of(m),
                now,
            ) && *final(self) == *old(self) && *final(data) == *old(data) && *final(common)
                == *old(common),
            ({
                let ku = m.payload matches MessagePayload::Handshake(HandshakePayload::KeyUpdate(_));
                let kur = spec_ku_of(m);
                &&& ku && old(common).protocol == Protocol::Quic ==> r == Err::<(), Error>(
                    Error::PeerMisbehavedError(PeerMisbehaved::InvalidKeyUpdateRequest),
                ) && final(common).sent_alerts@ == old(common).sent_alerts@.push(
                    AlertDescription::UnexpectedMessage,
                ) && final(common).record_layer == old(common).record_layer
                &&& ku && old(common).protocol != Protocol::Quic && !old(common).aligned ==> r
                    == Err::<(), Error>(
                    Error::PeerMisbehavedError(PeerMisbehaved::KeyEpochWithPendingFragment),
                ) && final(common).record_layer == old(common).record_layer
                &&& ku && old(common).protocol != Protocol::Quic && old(common).aligned && (kur
                    matches crate::enums::KeyUpdateRequest::Unknown(_)) ==> r == Err::<(), Error>(
                    Error::CorruptMessagePayload(crate::enums::ContentType::Handshake),
                ) && final(common).sent_alerts@ == old(common).sent_alerts@.push(
                    AlertDescription::IllegalParameter,
                ) && final(common).record_layer == old(common).record_layer
                &&& ku && old(common).protocol != Protocol::Quic && old(common).aligned && (kur
                    == crate::enums::KeyUpdateRequest::UpdateNotRequested || kur
                    == crate::enums::KeyUpdateRequest::UpdateRequested) ==> r is Ok
                    && spec_key_update_applied(
                    *old(self),
                    *final(self),
                    *old(common),
                    *final(common),
                    kur,
                ) && *final(data) == *old(data) && final(storage).entries@ == old(storage).entries@
            }),
            m.payload is Handshake && !(spec_hs_payload_of(m) is NewSessionTicketTls13) && !(
            spec_hs_payload_of(m) is KeyUpdate) ==> ({
                &&& r matches Err(Error::InappropriateHandshakeMessage { expected, got })
                    && expected@ == seq![HandshakeType::NewSessionTicket, HandshakeType::KeyUpdate]
                    && got == spec_hs_payload_of(m).spec_handshake_type()
                &&& *final(self) == *old(self)
                &&& *final(common) == *old(common)
                &&& *final(data) == *old(data)
                &&& final(storage).entries@ == old(storage).entries@
            }),
            !(m.payload matches MessagePayload::Handshake(_)) && !(m.payload matches
                MessagePayload::ApplicationData(_)) ==> ({
                &&& r matches Err(Error::InappropriateMessage { expected, got }) && expected@
                    == seq![
                    crate::enums::ContentType::ApplicationData,
                    crate::enums::ContentType::Handshake,
                ] && got == m.payload.spec_content_type()
                &&& *final(self) == *old(self)
                &&& *final(common) == *old(common)
                &&& *final(data) == *old(data)
                &&& final(storage).entries@ == old(storage).entries@
            }),
    {
        match m.payload {
            MessagePayload::ApplicationData(payload) => {
                common.take_received_plaintext(payload);
                Ok(())
            },
            MessagePayload::Handshake(HandshakePayload::NewSessionTicketTls13(new_ticket)) => {
                self.handle_new_ticket_tls13(data, storage, &new_ticket, now)
            },
            MessagePayload::Handshake(HandshakePayload::KeyUpdate(key_update)) => {
                self.handle_key_update(common, key_update)
            },
            MessagePayload::Handshake(other) => {
                let mut expected: Vec<HandshakeType> = Vec::new();
                expected.push(HandshakeType::NewSessionTicket);
                expected.push(HandshakeType::KeyUpdate);
                Err(
                    Error::InappropriateHandshakeMessage {
                        expected,
                        got: other.handshake_type(),
                    },
                )
            },
            other => {
                let mut expected: Vec<crate::enums::ContentType> = Vec::new();
                expected.push(crate::enums::ContentType::ApplicationData);
                expected.push(crate::enums::ContentType::Handshake);
                Err(Error::InappropriateMessage { expected, got: other.content_type() })
            },
        }
    }

    /// Exported keying material, from the traffic schedule.
    pub fn export_keying_material(&self, label: &Vec<u8>, context: &Vec<u8>) -> (r: Vec<u8>)
        ensures
            r@ == key_schedule::spec_derive(
                key_schedule::spec_derive(
                    self.key_schedule.master@,
                    key_schedule::LABEL_EXPORTER,
                    label@,
                ),
                key_schedule::LABEL_EXPORTER,
                context@,
            ),
    {
        self.key_schedule.export_keying_material(label, context)
    }

    /// If the server requested a key update, honour it now: send exactly
    /// one KeyUpdate notification and step the write key; otherwise do
    /// nothing.
    pub fn perhaps_write_key_update(&mut self, common: &mut ConnectionCommon)
        requires
            old(self).wf(),
        ensures
            final(self).wf(),
            !final(self).want_write_key_update,
            final(self).suite == old(self).suite,
            final(self).transcript == old(self).transcript,
            !old(self).want_write_key_update ==> *final(self) == *old(self) && *final(common)
                == *old(common),
            old(self).want_write_key_update ==> ({
                &&& final(common).sent@.len() == old(common).sent@.len() + 1
                &&& forall|i: int|
                    0 <= i < old(common).sent@.len() ==> final(common).sent@[i] == old(common).sent@[i]
                &&& final(common).sent@.last().msg.payload == MessagePayload::Handshake(
                    HandshakePayload::KeyUpdate(
                        crate::enums::KeyUpdateRequest::UpdateNotRequested,
                    ),
                )
                &&& final(common).sent@.last().encrypted
                &&& final(self).key_schedule.current_client@
                    == key_schedule::spec_next_generation(old(self).key_schedule.current_client@)
                &&& final(self).key_schedule.current_server@ == old(self).key_schedule.current_server@
                &&& final(common).record_layer.encrypter matches Some(k) && k.suite == old(self).suite && k.secret@ == final(self).key_schedule.current_client@
                &&& final(common).record_layer.decrypter == old(common).record_layer.decrypter
            }),
    {
        if self.want_write_key_update {
            self.want_write_key_update = false;
            let m = Message {
                version: ProtocolVersion::Tls13,
                payload: MessagePayload::Handshake(
                    HandshakePayload::KeyUpdate(crate::enums::KeyUpdateRequest::UpdateNotRequested),
                ),
            };
            common.send_msg_encrypt(m);

            let write_key = self.key_schedule.next_client_application_traffic_secret();
            common.record_layer.set_message_encrypter(new_tls13_write(self.suite, &write_key));
        }
    }
}

impl ExpectQuicTraffic {
    pub open spec fn wf(&self) -> bool {
        self.inner.wf()
    }

    /// Over QUIC only NewSessionTicket arrives through this interface.
    pub fn handle(
        &mut self,
        data: &mut ClientConnectionData,
        storage: &mut SessionStorage,
        m: Message,
        now: u64,
    ) -> (r: Result<(), Error>)
        requires
            old(self).wf(),
        ensures
            final(self).wf(),
            m.payload matches MessagePayload::Handshake(
                HandshakePayload::NewSessionTicketTls13(_),
            ) ==> r is Ok && spec_ticket_cached(
                final(storage).entries@,
                old(storage).entries@,
                old(self).inner,
                old(data).server_cert_chain@,
                spec_nst_of(m),
                now,
            ) && *final(self) == *old(self) && *final(data) == *old(data),
            !(m.payload matches MessagePayload::Handshake(
                HandshakePayload::NewSessionTicketTls13(_),
            )) ==> r is Err && *final(self) == *old(self) && *final(data) == *old(data) && final(storage).entries@ == old(storage).entries@,
    {
        match m.payload {
            MessagePayload::Handshake(HandshakePayload::NewSessionTicketTls13(nst)) => {
                self.inner.handle_new_ticket_tls13(data, storage, &nst, now)
            },
            MessagePayload::Handshake(other) => {
                let mut expected: Vec<HandshakeType> = Vec::new();
                expected.push(HandshakeType::NewSessionTicket);
                Err(
                    Error::InappropriateHandshakeMessage {
                        expected,
                        got: other.handshake_type(),
                    },
                )
            },
            other => {
                let mut expected: Vec<crate::enums::ContentType> = Vec::new();
                expected.push(crate::enums::ContentType::Handshake);
                Err(Error::InappropriateMessage { expected, got: other.content_type() })
            },
        }
    }
}

} // verus!

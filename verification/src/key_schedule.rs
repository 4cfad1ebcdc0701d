//! The TLS 1.3 key schedule.
//!
//! HKDF is a cryptographic primitive and an external concern.  The model
//! pins down everything the state machine relies on: each stage owns its
//! secret and is consumed when promoted, and every derived secret is a
//! deterministic labelled function of exactly its inputs — so it is
//! visible, for instance, that no resumption material flows into the
//! traffic keys unless the early schedule was promoted.  A derivation is
//! modelled as a label byte followed by the secret and the context.

use vstd::prelude::*;
use crate::util;

verus! {

pub const LABEL_EARLY: u8 = 1;

pub const LABEL_BINDER: u8 = 2;

pub const LABEL_CLIENT_EARLY_TRAFFIC: u8 = 3;

pub const LABEL_HANDSHAKE: u8 = 4;

pub const LABEL_CLIENT_HS_TRAFFIC: u8 = 5;

pub const LABEL_SERVER_HS_TRAFFIC: u8 = 6;

pub const LABEL_FINISHED: u8 = 7;

pub const LABEL_MASTER: u8 = 8;

pub const LABEL_CLIENT_AP_TRAFFIC: u8 = 9;

pub const LABEL_SERVER_AP_TRAFFIC: u8 = 10;

pub const LABEL_RESUMPTION: u8 = 11;

pub const LABEL_TICKET_PSK: u8 = 12;

pub const LABEL_TRAFFIC_UPDATE: u8 = 13;

pub const LABEL_EXPORTER: u8 = 14;

/// The model derivation: a label byte, the secret, then the context.
pub open spec fn spec_derive(secret: Seq<u8>, label: u8, context: Seq<u8>) -> Seq<u8> {
    seq![label] + secret + context
}

/// Derive a secret from `secret` under `label` with `context`.
pub fn derive(secret: &Vec<u8>, label: u8, context: &Vec<u8>) -> (r: Vec<u8>)
    ensures
        r@ == spec_derive(secret@, label, context@),
{
    let mut out: Vec<u8> = Vec::new();
    out.push(label);
    util::extend_bytes(&mut out, secret);
    util::extend_bytes(&mut out, context);
    proof {
        assert(out@ =~= spec_derive(secret@, label, context@));
    }
    out
}

/// The early secret extracted from a resumption PSK.
pub open spec fn spec_early_secret(psk: Seq<u8>) -> Seq<u8> {
    spec_derive(psk, LABEL_EARLY, Seq::empty())
}

/// The early secret of the non-resuming branch: extracted from no PSK.
pub open spec fn spec_nonsecret_early() -> Seq<u8> {
    spec_early_secret(Seq::empty())
}

/// The PSK binder (and server's expected binder) for a ClientHello prefix.
pub open spec fn spec_binder(early_secret: Seq<u8>, hash: Seq<u8>) -> Seq<u8> {
    spec_derive(early_secret, LABEL_BINDER, hash)
}

/// The handshake secret after mixing in the ECDH shared secret.
pub open spec fn spec_handshake_secret(early_secret: Seq<u8>, shared: Seq<u8>) -> Seq<u8> {
    spec_derive(early_secret, LABEL_HANDSHAKE, shared)
}

/// Finished verify-data for a traffic secret and a transcript hash.
pub open spec fn spec_verify_data(traffic_secret: Seq<u8>, hash: Seq<u8>) -> Seq<u8> {
    spec_derive(traffic_secret, LABEL_FINISHED, hash)
}

/// The client handshake traffic secret.
pub open spec fn spec_client_hs_traffic(hs_secret: Seq<u8>, hash: Seq<u8>) -> Seq<u8> {
    spec_derive(hs_secret, LABEL_CLIENT_HS_TRAFFIC, hash)
}

/// The server handshake traffic secret.
pub open spec fn spec_server_hs_traffic(hs_secret: Seq<u8>, hash: Seq<u8>) -> Seq<u8> {
    spec_derive(hs_secret, LABEL_SERVER_HS_TRAFFIC, hash)
}

/// The master secret a handshake secret is promoted to.
pub open spec fn spec_master_secret(hs_secret: Seq<u8>) -> Seq<u8> {
    spec_derive(hs_secret, LABEL_MASTER, Seq::empty())
}

/// The client application traffic secret.
pub open spec fn spec_client_ap_traffic(master: Seq<u8>, hash: Seq<u8>) -> Seq<u8> {
    spec_derive(master, LABEL_CLIENT_AP_TRAFFIC, hash)
}

/// The server application traffic secret.
pub open spec fn spec_server_ap_traffic(master: Seq<u8>, hash: Seq<u8>) -> Seq<u8> {
    spec_derive(master, LABEL_SERVER_AP_TRAFFIC, hash)
}

/// The resumption secret a ticket nonce yields.
pub open spec fn spec_resumption_psk(master: Seq<u8>, hash: Seq<u8>, nonce: Seq<u8>) -> Seq<u8> {
    spec_derive(spec_derive(master, LABEL_RESUMPTION, hash), LABEL_TICKET_PSK, nonce)
}

/// The next generation of a traffic secret after a key update.
pub open spec fn spec_next_generation(traffic_secret: Seq<u8>) -> Seq<u8> {
    spec_derive(traffic_secret, LABEL_TRAFFIC_UPDATE, Seq::empty())
}

/// The Early stage: owns the early secret extracted from a PSK.
pub struct KeyScheduleEarly {
    pub secret: Vec<u8>,
}

impl KeyScheduleEarly {
    /// Extract the early secret from a resumption PSK.
    pub fn new(psk: &Vec<u8>) -> (r: KeyScheduleEarly)
        ensures
            r.secret@ == spec_early_secret(psk@),
    {
        KeyScheduleEarly { secret: derive(psk, LABEL_EARLY, &Vec::new()) }
    }

    /// The binder key signed over a ClientHello-prefix hash; the server
    /// derives the same value when it chooses to resume.
    pub fn resumption_psk_binder_key_and_sign_verify_data(&self, hash: &Vec<u8>) -> (r: Vec<u8>)
        ensures
            r@ == spec_binder(self.secret@, hash@),
    {
        derive(&self.secret, LABEL_BINDER, hash)
    }

    /// The secret 0-RTT application data is encrypted under.
    pub fn client_early_traffic_secret(&self, hash: &Vec<u8>) -> (r: Vec<u8>)
        ensures
            r@ == spec_derive(self.secret@, LABEL_CLIENT_EARLY_TRAFFIC, hash@),
    {
        derive(&self.secret, LABEL_CLIENT_EARLY_TRAFFIC, hash)
    }

    /// Promote to the handshake stage with the ECDH shared secret;
    /// consumes the early stage.
    pub fn into_handshake(self, shared: &Vec<u8>) -> (r: KeySchedulePreHandshake)
        ensures
            r.secret@ == spec_handshake_secret(self.secret@, shared@),
    {
        KeySchedulePreHandshake { secret: derive(&self.secret, LABEL_HANDSHAKE, shared) }
    }
}

/// The non-resuming stand-in for the early stage: the same extraction,
/// from no PSK at all.
pub struct KeyScheduleNonSecret {
    pub secret: Vec<u8>,
}

impl KeyScheduleNonSecret {
    /// Extract the early secret of the non-resuming branch.
    pub fn new() -> (r: KeyScheduleNonSecret)
        ensures
            r.secret@ == spec_nonsecret_early(),
    {
        KeyScheduleNonSecret { secret: derive(&Vec::new(), LABEL_EARLY, &Vec::new()) }
    }

    /// Promote to the handshake stage with the ECDH shared secret.
    pub fn into_handshake(self, shared: &Vec<u8>) -> (r: KeySchedulePreHandshake)
        ensures
            r.secret@ == spec_handshake_secret(self.secret@, shared@),
    {
        KeySchedulePreHandshake { secret: derive(&self.secret, LABEL_HANDSHAKE, shared) }
    }
}

/// The handshake stage before its traffic secrets are derived.
pub struct KeySchedulePreHandshake {
    pub secret: Vec<u8>,
}

impl KeySchedulePreHandshake {
    /// Derive both handshake traffic secrets at the ServerHello hash.
    pub fn derive_handshake_secrets(self, hs_hash: &Vec<u8>) -> (r: (
        KeyScheduleHandshake,
        Vec<u8>,
        Vec<u8>,
    ))
        ensures
            r.0.secret@ == self.secret@,
            r.0.client@ == spec_client_hs_traffic(self.secret@, hs_hash@),
            r.0.server@ == spec_server_hs_traffic(self.secret@, hs_hash@),
            r.1@ == r.0.client@,
            r.2@ == r.0.server@,
    {
        let client = derive(&self.secret, LABEL_CLIENT_HS_TRAFFIC, hs_hash);
        let server = derive(&self.secret, LABEL_SERVER_HS_TRAFFIC, hs_hash);
        let client_copy = util::copy_bytes(&client);
        let server_copy = util::copy_bytes(&server);
        (KeyScheduleHandshake { secret: self.secret, client, server }, client_copy, server_copy)
    }
}

/// The handshake stage: owns the handshake secret and both handshake
/// traffic secrets.
pub struct KeyScheduleHandshake {
    pub secret: Vec<u8>,
    pub client: Vec<u8>,
    pub server: Vec<u8>,
}

impl KeyScheduleHandshake {
    /// The client handshake traffic secret, for installing the encrypter.
    pub fn client_key(&self) -> (r: Vec<u8>)
        ensures
            r@ == self.client@,
    {
        util::copy_bytes(&self.client)
    }

    /// The verify-data expected in the server's Finished at this hash.
    pub fn sign_server_finish(&self, hash: &Vec<u8>) -> (r: Vec<u8>)
        ensures
            r@ == spec_verify_data(self.server@, hash@),
    {
        derive(&self.server, LABEL_FINISHED, hash)
    }

    /// Promote to the traffic stage, deriving both application traffic
    /// secrets at the post-server-Finished hash; the client Finished is
    /// still owed.
    pub fn into_traffic_with_client_finished_pending(self, hash_at_server_finished: &Vec<u8>) -> (r:
        (KeyScheduleTrafficWithClientFinishedPending, Vec<u8>, Vec<u8>))
        ensures
            r.0.client_hs@ == self.client@,
            r.0.master@ == spec_master_secret(self.secret@),
            r.0.client_ap@ == spec_client_ap_traffic(
                spec_master_secret(self.secret@),
                hash_at_server_finished@,
            ),
            r.0.server_ap@ == spec_server_ap_traffic(
                spec_master_secret(self.secret@),
                hash_at_server_finished@,
            ),
            r.1@ == r.0.client_ap@,
            r.2@ == r.0.server_ap@,
    {
        let master = derive(&self.secret, LABEL_MASTER, &Vec::new());
        let client_ap = derive(&master, LABEL_CLIENT_AP_TRAFFIC, hash_at_server_finished);
        let server_ap = derive(&master, LABEL_SERVER_AP_TRAFFIC, hash_at_server_finished);
        let client_copy = util::copy_bytes(&client_ap);
        let server_copy = util::copy_bytes(&server_ap);
        (
            KeyScheduleTrafficWithClientFinishedPending {
                client_hs: self.client,
                master,
                client_ap,
                server_ap,
            },
            client_copy,
            server_copy,
        )
    }
}

/// The traffic stage while the client's own Finished is still owed.
pub struct KeyScheduleTrafficWithClientFinishedPending {
    pub client_hs: Vec<u8>,
    pub master: Vec<u8>,
    pub client_ap: Vec<u8>,
    pub server_ap: Vec<u8>,
}

impl KeyScheduleTrafficWithClientFinishedPending {
    /// Sign the client Finished at this hash and move to plain traffic.
    pub fn sign_client_finish(self, hash: &Vec<u8>) -> (r: (KeyScheduleTraffic, Vec<u8>))
        ensures
            r.1@ == spec_verify_data(self.client_hs@, hash@),
            r.0.master@ == self.master@,
            r.0.current_client@ == self.client_ap@,
            r.0.current_server@ == self.server_ap@,
    {
        let verify_data = derive(&self.client_hs, LABEL_FINISHED, hash);
        (
            KeyScheduleTraffic {
                master: self.master,
                current_client: self.client_ap,
                current_server: self.server_ap,
            },
            verify_data,
        )
    }
}

/// The post-handshake traffic stage: owns the master secret and the
/// current generation of each application traffic secret.
pub struct KeyScheduleTraffic {
    pub master: Vec<u8>,
    pub current_client: Vec<u8>,
    pub current_server: Vec<u8>,
}

impl KeyScheduleTraffic {
    /// Derive the resumption secret a NewSessionTicket names.
    pub fn resumption_master_secret_and_derive_ticket_psk(
        &self,
        hash: &Vec<u8>,
        nonce: &Vec<u8>,
    ) -> (r: Vec<u8>)
        ensures
            r@ == spec_resumption_psk(self.master@, hash@, nonce@),
    {
        let resumption = derive(&self.master, LABEL_RESUMPTION, hash);
        derive(&resumption, LABEL_TICKET_PSK, nonce)
    }

    /// Step the server traffic secret to its next generation.
    pub fn next_server_application_traffic_secret(&mut self) -> (r: Vec<u8>)
        ensures
            final(self).current_server@ == spec_next_generation(old(self).current_server@),
            final(self).current_client@ == old(self).current_client@,
            final(self).master@ == old(self).master@,
            r@ == final(self).current_server@,
    {
        let next = derive(&self.current_server, LABEL_TRAFFIC_UPDATE, &Vec::new());
        self.current_server = next;
        util::copy_bytes(&self.current_server)
    }

    /// Step the client traffic secret to its next generation.
    pub fn next_client_application_traffic_secret(&mut self) -> (r: Vec<u8>)
        ensures
            final(self).current_client@ == spec_next_generation(old(self).current_client@),
            final(self).current_server@ == old(self).current_server@,
            final(self).master@ == old(self).master@,
            r@ == final(self).current_client@,
    {
        let next = derive(&self.current_client, LABEL_TRAFFIC_UPDATE, &Vec::new());
        self.current_client = next;
        util::copy_bytes(&self.current_client)
    }

    /// Exported keying material for a label and optional context.
    pub fn export_keying_material(&self, label: &Vec<u8>, context: &Vec<u8>) -> (r: Vec<u8>)
        ensures
            r@ == spec_derive(
                spec_derive(self.master@, LABEL_EXPORTER, label@),
                LABEL_EXPORTER,
                context@,
            ),
    {
        let exporter = derive(&self.master, LABEL_EXPORTER, label);
        derive(&exporter, LABEL_EXPORTER, context)
    }
}

} // verus!

//! The handshake transcript.
//!
//! The digest itself is a cryptographic primitive and an external concern.
//! What the state machine relies on — and what is modelled exactly — is
//! the shape of the accumulator: it is append-only, every handled message
//! enters it exactly once and in network order, and the running hash is a
//! deterministic function of the algorithm and of what was appended.  A
//! ghost sequence records the appended messages themselves; the
//! executable digest folds one tag byte per message.

use vstd::prelude::*;
use crate::enums::{HandshakeType, HashAlgorithm};
use crate::msgs::{HandshakePayload, Message, MessagePayload};

verus! {

/// The model tag a message type contributes to the digest input.
pub open spec fn spec_msg_tag(t: HandshakeType) -> u8 {
    match t {
        HandshakeType::ClientHello => 1,
        HandshakeType::ServerHello => 2,
        HandshakeType::NewSessionTicket => 4,
        HandshakeType::EndOfEarlyData => 5,
        HandshakeType::HelloRetryRequest => 6,
        HandshakeType::EncryptedExtensions => 8,
        HandshakeType::Certificate => 11,
        HandshakeType::CertificateRequest => 13,
        HandshakeType::CertificateVerify => 15,
        HandshakeType::Finished => 20,
        HandshakeType::KeyUpdate => 24,
        HandshakeType::MessageHash => 254,
    }
}

/// The tag of a message type, executably.
pub fn msg_tag(t: HandshakeType) -> (r: u8)
    ensures
        r == spec_msg_tag(t),
{
    match t {
        HandshakeType::ClientHello => 1,
        HandshakeType::ServerHello => 2,
        HandshakeType::NewSessionTicket => 4,
        HandshakeType::EndOfEarlyData => 5,
        HandshakeType::HelloRetryRequest => 6,
        HandshakeType::EncryptedExtensions => 8,
        HandshakeType::Certificate => 11,
        HandshakeType::CertificateRequest => 13,
        HandshakeType::CertificateVerify => 15,
        HandshakeType::Finished => 20,
        HandshakeType::KeyUpdate => 24,
        HandshakeType::MessageHash => 254,
    }
}

/// The digest input a message sequence contributes: one tag per message.
pub open spec fn spec_transcript_data(msgs: Seq<HandshakePayload>) -> Seq<u8> {
    msgs.map_values(|m: HandshakePayload| spec_msg_tag(m.spec_handshake_type()))
}

/// The model transcript hash: the algorithm's output length as a leading
/// byte, then the digest input.
pub open spec fn spec_hash_given(
    alg: HashAlgorithm,
    msgs: Seq<HandshakePayload>,
    extra: Seq<u8>,
) -> Seq<u8> {
    seq![alg.spec_output_len() as u8] + spec_transcript_data(msgs) + extra
}

/// The model transcript hash of exactly the appended messages.
pub open spec fn spec_hash_of(alg: HashAlgorithm, msgs: Seq<HandshakePayload>) -> Seq<u8> {
    spec_hash_given(alg, msgs, Seq::empty())
}

/// The accumulator before a cipher suite (and so a hash algorithm) is
/// known.
pub struct HandshakeHashBuffer {
    /// One tag byte per buffered message.
    pub data: Vec<u8>,
    /// The buffered messages themselves.
    pub msgs: Ghost<Seq<HandshakePayload>>,
}

impl HandshakeHashBuffer {
    /// The tag bytes record exactly the buffered messages.
    pub open spec fn wf(&self) -> bool {
        self.data@ == spec_transcript_data(self.msgs@)
    }

    /// An empty buffer.
    pub fn new() -> (r: HandshakeHashBuffer)
        ensures
            r.wf(),
            r.msgs@.len() == 0,
    {
        let r = HandshakeHashBuffer { data: Vec::new(), msgs: Ghost(Seq::empty()) };
        proof {
            assert(spec_transcript_data(r.msgs@) =~= Seq::<u8>::empty());
        }
        r
    }

    /// Append a handshake message; other message kinds never enter the
    /// transcript.
    pub fn add_message(&mut self, m: &Message)
        requires
            old(self).wf(),
        ensures
            final(self).wf(),
            match m.payload {
                MessagePayload::Handshake(hs) => final(self).msgs@ == old(self).msgs@.push(hs),
                _ => final(self).msgs@ == old(self).msgs@,
            },
    {
        match &m.payload {
            MessagePayload::Handshake(hs) => {
                self.data.push(msg_tag(hs.handshake_type()));
                proof {
                    self.msgs@ = self.msgs@.push(*hs);
                    assert(self.data@ =~= spec_transcript_data(self.msgs@));
                }
            },
            _ => {},
        }
    }

    /// The hash the suite's algorithm would give over the buffered
    /// messages followed by `extra` (used for the PSK binder, whose input
    /// ends with a truncated ClientHello encoding).
    pub fn get_hash_given(&self, alg: HashAlgorithm, extra: &Vec<u8>) -> (r: Vec<u8>)
        requires
            self.wf(),
        ensures
            r@ == spec_hash_given(alg, self.msgs@, extra@),
    {
        let mut out: Vec<u8> = Vec::new();
        out.push(alg.output_len() as u8);
        crate::util::extend_bytes(&mut out, &self.data);
        crate::util::extend_bytes(&mut out, extra);
        proof {
            assert(out@ =~= spec_hash_given(alg, self.msgs@, extra@));
        }
        out
    }

    /// Commit to a hash algorithm once the suite is known.
    pub fn start_hash(self, alg: HashAlgorithm) -> (r: HandshakeHash)
        requires
            self.wf(),
        ensures
            r.wf(),
            r.alg == alg,
            r.msgs@ == self.msgs@,
    {
        HandshakeHash { alg, data: self.data, msgs: self.msgs }
    }
}

/// The accumulator once the hash algorithm is fixed.
pub struct HandshakeHash {
    pub alg: HashAlgorithm,
    /// One tag byte per appended message.
    pub data: Vec<u8>,
    /// The appended messages themselves.
    pub msgs: Ghost<Seq<HandshakePayload>>,
}

impl HandshakeHash {
    /// The tag bytes record exactly the appended messages.
    pub open spec fn wf(&self) -> bool {
        self.data@ == spec_transcript_data(self.msgs@)
    }

    /// Append a handshake message; other message kinds never enter the
    /// transcript.
    pub fn add_message(&mut self, m: &Message)
        requires
            old(self).wf(),
        ensures
            final(self).wf(),
            final(self).alg == old(self).alg,
            match m.payload {
                MessagePayload::Handshake(hs) => final(self).msgs@ == old(self).msgs@.push(hs),
                _ => final(self).msgs@ == old(self).msgs@,
            },
    {
        match &m.payload {
            MessagePayload::Handshake(hs) => {
                self.data.push(msg_tag(hs.handshake_type()));
                proof {
                    self.msgs@ = self.msgs@.push(*hs);
                    assert(self.data@ =~= spec_transcript_data(self.msgs@));
                }
            },
            _ => {},
        }
    }

    /// The hash over everything appended so far.
    pub fn get_current_hash(&self) -> (r: Vec<u8>)
        requires
            self.wf(),
        ensures
            r@ == spec_hash_of(self.alg, self.msgs@),
    {
        let mut out: Vec<u8> = Vec::new();
        out.push(self.alg.output_len() as u8);
        crate::util::extend_bytes(&mut out, &self.data);
        proof {
            assert(out@ =~= spec_hash_of(self.alg, self.msgs@));
        }
        out
    }

    /// Restart the transcript after a HelloRetryRequest: the new buffer
    /// opens with a synthetic message-hash entry holding the hash of the
    /// old transcript.
    pub fn into_hrr_buffer(self) -> (r: HandshakeHashBuffer)
        requires
            self.wf(),
        ensures
            r.wf(),
            r.msgs@.len() == 1,
            r.msgs@[0] matches HandshakePayload::MessageHash(h) && h@ == spec_hash_of(
                self.alg,
                self.msgs@,
            ),
    {
        let old_hash = self.get_current_hash();
        let mut data: Vec<u8> = Vec::new();
        data.push(msg_tag(HandshakeType::MessageHash));
        let ghost new_msgs: Seq<HandshakePayload> = seq![HandshakePayload::MessageHash(old_hash)];
        let r = HandshakeHashBuffer { data, msgs: Ghost(new_msgs) };
        proof {
            assert(r.data@ =~= spec_transcript_data(r.msgs@));
        }
        r
    }
}

} // verus!

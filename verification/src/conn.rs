//! The connection state the handshake borrows: the record layer's key
//! installation points, the log of what was sent, negotiated parameters,
//! and the per-connection client data.
//!
//! Record framing, encryption and reassembly are external concerns.  The
//! model records which message was handed to the record layer, whether it
//! was to be encrypted, and under which traffic secret — which is exactly
//! what the handshake's observable behaviour consists of.

use vstd::prelude::*;
use crate::enums::{AlertDescription, ProtocolVersion};
use crate::error::{Error, PeerMisbehaved};
use crate::msgs::{Message, MessagePayload};
use crate::suites::{SupportedCipherSuite, Tls13CipherSuite};
use crate::util;

verus! {

/// The transport the connection runs over.
#[derive(Clone, Copy, Debug, PartialEq, Eq, Structural)]
pub enum Protocol {
    Tcp,
    Quic,
}

/// Keying material for one direction of the record layer.
#[derive(Clone, Debug)]
pub struct RecordKeys {
    pub suite: Tls13CipherSuite,
    pub secret: Vec<u8>,
}

/// Build the write-direction keys for a suite and traffic secret.
pub fn new_tls13_write(suite: Tls13CipherSuite, secret: &Vec<u8>) -> (r: RecordKeys)
    ensures
        r.suite == suite,
        r.secret@ == secret@,
{
    RecordKeys { suite, secret: util::copy_bytes(secret) }
}

/// Build the read-direction keys for a suite and traffic secret.
pub fn new_tls13_read(suite: Tls13CipherSuite, secret: &Vec<u8>) -> (r: RecordKeys)
    ensures
        r.suite == suite,
        r.secret@ == secret@,
{
    RecordKeys { suite, secret: util::copy_bytes(secret) }
}

/// A copy of record keys.
pub fn copy_record_keys(k: &RecordKeys) -> (r: RecordKeys)
    ensures
        r.suite == k.suite,
        r.secret@ == k.secret@,
{
    RecordKeys { suite: k.suite, secret: util::copy_bytes(&k.secret) }
}

/// One message handed to the record layer for sending.
pub struct OutboundRecord {
    pub msg: Message,
    pub encrypted: bool,
    /// The write keys installed when the message was sent, if it was to
    /// be encrypted.
    pub keys: Option<RecordKeys>,
}

/// The record layer's key installation points.
pub struct RecordLayer {
    pub encrypter: Option<RecordKeys>,
    pub decrypter: Option<RecordKeys>,
}

impl RecordLayer {
    /// Install the write keys.
    pub fn set_message_encrypter(&mut self, keys: RecordKeys)
        ensures
            final(self).encrypter == Some(keys),
            final(self).decrypter == old(self).decrypter,
    {
        self.encrypter = Some(keys);
    }

    /// Install the read keys.
    pub fn set_message_decrypter(&mut self, keys: RecordKeys)
        ensures
            final(self).decrypter == Some(keys),
            final(self).encrypter == old(self).encrypter,
    {
        self.decrypter = Some(keys);
    }
}

/// The sent keys agree with the installed keys: same suite, same secret.
pub open spec fn spec_keys_match(sent: Option<RecordKeys>, installed: Option<RecordKeys>) -> bool {
    match sent {
        Some(k) => installed matches Some(e) && k.suite == e.suite && k.secret@ == e.secret@,
        None => installed is None,
    }
}

/// How many of the sent records carry a ChangeCipherSpec.
pub open spec fn spec_ccs_count(sent: Seq<OutboundRecord>) -> int
    decreases sent.len(),
{
    if sent.len() == 0 {
        0
    } else {
        match sent.last().msg.payload {
            MessagePayload::ChangeCipherSpec => spec_ccs_count(sent.drop_last()) + 1,
            _ => spec_ccs_count(sent.drop_last()),
        }
    }
}

/// Connection state shared between the handshake and the record layer.
pub struct ConnectionCommon {
    pub protocol: Protocol,
    pub negotiated_version: Option<ProtocolVersion>,
    pub suite: Option<SupportedCipherSuite>,
    pub alpn_protocol: Option<Vec<u8>>,
    /// True while 0-RTT data is being encrypted under the early keys.
    pub early_traffic: bool,
    pub record_layer: RecordLayer,
    /// Every message handed to the record layer, in order.
    pub sent: Vec<OutboundRecord>,
    /// Every fatal alert emitted, in order.
    pub sent_alerts: Vec<AlertDescription>,
    /// Application data handed to the user, in order.
    pub received_plaintext: Vec<Vec<u8>>,
    /// No handshake fragment is pending in the joiner; keying changes are
    /// only legal when this holds.
    pub aligned: bool,
    pub traffic_started: bool,
}

impl ConnectionCommon {
    /// A fresh connection over the given transport.
    pub fn new(protocol: Protocol) -> (r: ConnectionCommon)
        ensures
            r.protocol == protocol,
            r.negotiated_version is None,
            r.suite is None,
            r.alpn_protocol is None,
            !r.early_traffic,
            r.record_layer.encrypter is None,
            r.record_layer.decrypter is None,
            r.sent@.len() == 0,
            r.sent_alerts@.len() == 0,
            r.received_plaintext@.len() == 0,
            r.aligned,
            !r.traffic_started,
    {
        ConnectionCommon {
            protocol,
            negotiated_version: None,
            suite: None,
            alpn_protocol: None,
            early_traffic: false,
            record_layer: RecordLayer { encrypter: None, decrypter: None },
            sent: Vec::new(),
            sent_alerts: Vec::new(),
            received_plaintext: Vec::new(),
            aligned: true,
            traffic_started: false,
        }
    }

    /// Is this a QUIC connection?
    pub fn is_quic(&self) -> (r: bool)
        ensures
            r == (self.protocol == Protocol::Quic),
    {
        match self.protocol {
            Protocol::Quic => true,
            Protocol::Tcp => false,
        }
    }

    /// Was TLS 1.3 negotiated?
    pub fn is_tls13(&self) -> (r: bool)
        ensures
            r == (self.negotiated_version == Some(ProtocolVersion::Tls13)),
    {
        match self.negotiated_version {
            Some(v) => v == ProtocolVersion::Tls13,
            None => false,
        }
    }

    /// Hand a message to the record layer.  An encrypted message is sent
    /// under the currently installed write keys.
    pub fn send_msg(&mut self, m: Message, must_encrypt: bool)
        ensures
            *final(self) == (ConnectionCommon {
                sent: final(self).sent,
                ..*old(self)
            }),
            final(self).sent@.len() == old(self).sent@.len() + 1,
            final(self).sent@.drop_last() == old(self).sent@,
            final(self).sent@.last().msg == m,
            final(self).sent@.last().encrypted == must_encrypt,
            spec_keys_match(
                final(self).sent@.last().keys,
                if must_encrypt {
                    old(self).record_layer.encrypter
                } else {
                    None::<RecordKeys>
                },
            ),
    {
        let keys = if must_encrypt {
            match &self.record_layer.encrypter {
                Some(k) => Some(copy_record_keys(k)),
                None => None,
            }
        } else {
            None
        };
        self.sent.push(OutboundRecord { msg: m, encrypted: must_encrypt, keys });
    }

    /// Hand a message to the record layer for encrypted sending.
    pub fn send_msg_encrypt(&mut self, m: Message)
        ensures
            *final(self) == (ConnectionCommon {
                sent: final(self).sent,
                ..*old(self)
            }),
            final(self).sent@.len() == old(self).sent@.len() + 1,
            final(self).sent@.drop_last() == old(self).sent@,
            final(self).sent@.last().msg == m,
            final(self).sent@.last().encrypted,
            spec_keys_match(final(self).sent@.last().keys, old(self).record_layer.encrypter),
    {
        self.send_msg(m, true)
    }

    /// Queue a fatal alert.
    pub fn send_fatal_alert(&mut self, desc: AlertDescription)
        ensures
            *final(self) == (ConnectionCommon {
                sent_alerts: final(self).sent_alerts,
                ..*old(self)
            }),
            final(self).sent_alerts@ == old(self).sent_alerts@.push(desc),
    {
        self.sent_alerts.push(desc);
    }

    /// Emit an IllegalParameter alert and return the misbehaviour error.
    pub fn illegal_param(&mut self, why: PeerMisbehaved) -> (r: Error)
        ensures
            *final(self) == (ConnectionCommon {
                sent_alerts: final(self).sent_alerts,
                ..*old(self)
            }),
            final(self).sent_alerts@ == old(self).sent_alerts@.push(
                AlertDescription::IllegalParameter,
            ),
            r == Error::PeerMisbehavedError(why),
    {
        self.send_fatal_alert(AlertDescription::IllegalParameter);
        Error::PeerMisbehavedError(why)
    }

    /// Keying changes are only legal at handshake-message boundaries.
    pub fn check_aligned_handshake(&mut self) -> (r: Result<(), Error>)
        ensures
            *final(self) == (ConnectionCommon {
                sent_alerts: final(self).sent_alerts,
                ..*old(self)
            }),
            r is Ok <==> old(self).aligned,
            old(self).aligned ==> *final(self) == *old(self),
            !old(self).aligned ==> {
                &&& final(self).sent_alerts@ == old(self).sent_alerts@.push(
                    AlertDescription::UnexpectedMessage,
                )
                &&& r == Err::<(), Error>(
                    Error::PeerMisbehavedError(PeerMisbehaved::KeyEpochWithPendingFragment),
                )
            },
    {
        if self.aligned {
            Ok(())
        } else {
            self.send_fatal_alert(AlertDescription::UnexpectedMessage);
            Err(Error::PeerMisbehavedError(PeerMisbehaved::KeyEpochWithPendingFragment))
        }
    }

    /// Hand decrypted application data to the user.
    pub fn take_received_plaintext(&mut self, bytes: Vec<u8>)
        ensures
            *final(self) == (ConnectionCommon {
                received_plaintext: final(self).received_plaintext,
                ..*old(self)
            }),
            final(self).received_plaintext@ == old(self).received_plaintext@.push(bytes),
    {
        self.received_plaintext.push(bytes);
    }

    /// The handshake is over; user traffic may flow.
    pub fn start_traffic(&mut self)
        ensures
            *final(self) == (ConnectionCommon {
                traffic_started: true,
                ..*old(self)
            }),
    {
        self.traffic_started = true;
    }
}

/// Where the 0-RTT decision stands.
#[derive(Clone, Copy, Debug, PartialEq, Eq, Structural)]
pub enum EarlyDataState {
    Disabled,
    Ready,
    Accepted,
    AcceptedFinished,
    Rejected,
}

/// The client's 0-RTT state and limit.
#[derive(Clone, Copy, Debug, PartialEq, Eq, Structural)]
pub struct EarlyData {
    pub state: EarlyDataState,
    pub max_size: u32,
}

impl EarlyData {
    /// 0-RTT not offered.
    pub fn new() -> (r: EarlyData)
        ensures
            r.state == EarlyDataState::Disabled,
            r.max_size == 0,
    {
        EarlyData { state: EarlyDataState::Disabled, max_size: 0 }
    }

    pub open spec fn spec_is_enabled(&self) -> bool {
        self.state == EarlyDataState::Ready || self.state == EarlyDataState::Accepted
    }

    /// May early data still be sent?
    #[verifier::when_used_as_spec(spec_is_enabled)]
    pub fn is_enabled(&self) -> (r: bool)
        ensures
            r == self.spec_is_enabled(),
    {
        self.state == EarlyDataState::Ready || self.state == EarlyDataState::Accepted
    }

    /// Enable 0-RTT up to `max_size` bytes.
    pub fn enable(&mut self, max_size: u32)
        ensures
            final(self).state == EarlyDataState::Ready,
            final(self).max_size == max_size,
    {
        self.state = EarlyDataState::Ready;
        self.max_size = max_size;
    }

    /// The server accepted the early data.
    pub fn accepted(&mut self)
        ensures
            final(self).state == EarlyDataState::Accepted,
            final(self).max_size == old(self).max_size,
    {
        self.state = EarlyDataState::Accepted;
    }

    /// The server rejected, or the client withdrew, the early data.
    pub fn rejected(&mut self)
        ensures
            final(self).state == EarlyDataState::Rejected,
            final(self).max_size == old(self).max_size,
    {
        self.state = EarlyDataState::Rejected;
    }

    /// EndOfEarlyData was sent; the early keys are retired.
    pub fn finished(&mut self)
        ensures
            final(self).state == EarlyDataState::AcceptedFinished,
            final(self).max_size == old(self).max_size,
    {
        self.state = EarlyDataState::AcceptedFinished;
    }
}

/// Per-connection client data.
pub struct ClientConnectionData {
    pub early_data: EarlyData,
    pub resumption_ciphersuite: Option<SupportedCipherSuite>,
    pub server_cert_chain: Vec<Vec<u8>>,
}

impl ClientConnectionData {
    /// Fresh per-connection data.
    pub fn new() -> (r: ClientConnectionData)
        ensures
            r.early_data.state == EarlyDataState::Disabled,
            r.early_data.max_size == 0,
            r.resumption_ciphersuite is None,
            r.server_cert_chain@.len() == 0,
    {
        ClientConnectionData {
            early_data: EarlyData::new(),
            resumption_ciphersuite: None,
            server_cert_chain: Vec::new(),
        }
    }
}

} // verus!

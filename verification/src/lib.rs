//! Client-side TLS 1.2/1.3 handshake state machine.
//!
//! The crate models the negotiation core of a TLS client: a phased
//! configuration builder, the ClientHello emission (including
//! HelloRetryRequest handling, session resumption with PSK binders and
//! 0-RTT), the validation of every server handshake message, the points at
//! which record-layer keys are installed, and the post-handshake traffic
//! states (session tickets, key updates).
//!
//! Raw cryptography, X.509 path validation and the byte-level wire codecs
//! are external collaborators.  Their observable interfaces are modelled
//! with plain data: the key schedule derives labelled byte strings, and the
//! transcript accumulates structured handshake messages.  Randomness and
//! the constant-time comparison of Finished verify-data come from `ring`.

pub mod common;
pub mod conn;
pub mod enums;
pub mod error;
pub mod hash_hs;
pub mod hs;
pub mod key_schedule;
pub mod kx;
pub mod laws;
pub mod rand;
pub mod msgs;
pub mod name;
pub mod persist;
pub mod sign;
pub mod suites;
pub mod tls13;
pub mod util;
pub mod versions;
pub mod config;
pub mod builder;

use vstd::prelude::*;

verus! {

} // verus!

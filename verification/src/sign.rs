//! Signatures over the handshake transcript.
//!
//! Producing and checking a signature is a cryptographic primitive and an
//! external concern; the model pins down everything the state machine
//! observes: the exact message that is signed, which schemes a key can
//! use, and that a signature checks out exactly when it was made with the
//! signer's key over the same message.  A model signature is the labelled
//! concatenation of the key and the message.

use vstd::prelude::*;
use crate::enums::SignatureScheme;
use crate::util;

verus! {

/// A signature as carried in a CertificateVerify message.
#[derive(Clone, Debug)]
pub struct DigitallySignedStruct {
    pub scheme: SignatureScheme,
    pub sig: Vec<u8>,
}

/// The signing schemes this client can use for TLS 1.3 client authentication.
pub open spec fn spec_supported_sign_tls13() -> Seq<SignatureScheme> {
    seq![
        SignatureScheme::EcdsaNistp384Sha384,
        SignatureScheme::EcdsaNistp256Sha256,
        SignatureScheme::Ed25519,
        SignatureScheme::RsaPssSha256,
    ]
}

/// Build the TLS 1.3 signing-scheme list.
pub fn supported_sign_tls13() -> (r: Vec<SignatureScheme>)
    ensures
        r@ == spec_supported_sign_tls13(),
{
    let mut v: Vec<SignatureScheme> = Vec::new();
    v.push(SignatureScheme::EcdsaNistp384Sha384);
    v.push(SignatureScheme::EcdsaNistp256Sha256);
    v.push(SignatureScheme::Ed25519);
    v.push(SignatureScheme::RsaPssSha256);
    proof {
        assert(v@ =~= spec_supported_sign_tls13());
    }
    v
}

/// The model signature a key makes over a message.
pub open spec fn spec_signature(key: Seq<u8>, message: Seq<u8>) -> Seq<u8> {
    seq![115u8] + key + seq![58u8] + message
}

/// Sign `message` with `key` in the model.
pub fn signature(key: &Vec<u8>, message: &Vec<u8>) -> (r: Vec<u8>)
    ensures
        r@ == spec_signature(key@, message@),
{
    let mut out: Vec<u8> = Vec::new();
    out.push(115u8);
    util::extend_bytes(&mut out, key);
    out.push(58u8);
    util::extend_bytes(&mut out, message);
    proof {
        assert(out@ =~= spec_signature(key@, message@));
    }
    out
}

/// The body every TLS 1.3 verify-message starts with: 64 spaces.
pub open spec fn spec_verify_message_padding() -> Seq<u8> {
    Seq::new(64, |i: int| 32u8)
}

/// The message a server signs in CertificateVerify: 64 spaces, the server
/// context string, a zero separator, then the transcript hash.
pub open spec fn spec_tls13_server_verify_message(handshake_hash: Seq<u8>) -> Seq<u8> {
    spec_verify_message_padding() + seq![84u8, 83u8, 118u8] + seq![0u8] + handshake_hash
}

/// The message a client signs in CertificateVerify: 64 spaces, the client
/// context string, a zero separator, then the transcript hash.
pub open spec fn spec_tls13_client_verify_message(handshake_hash: Seq<u8>) -> Seq<u8> {
    spec_verify_message_padding() + seq![84u8, 83u8, 99u8] + seq![0u8] + handshake_hash
}

/// Push 64 padding spaces.
fn push_verify_message_padding(out: &mut Vec<u8>)
    ensures
        final(out)@ == old(out)@ + spec_verify_message_padding(),
{
    let mut i: usize = 0;
    while i < 64
        invariant
            i <= 64,
            out@ == old(out)@ + Seq::new(i as nat, |k: int| 32u8),
        decreases 64 - i,
    {
        out.push(32u8);
        proof {
            assert(old(out)@ + Seq::new((i + 1) as nat, |k: int| 32u8) =~= (old(out)@ + Seq::new(
                i as nat,
                |k: int| 32u8,
            )).push(32u8));
        }
        i = i + 1;
    }
}

/// Construct the server CertificateVerify message for a transcript hash.
pub fn construct_tls13_server_verify_message(handshake_hash: &Vec<u8>) -> (r: Vec<u8>)
    ensures
        r@ == spec_tls13_server_verify_message(handshake_hash@),
{
    let mut out: Vec<u8> = Vec::new();
    push_verify_message_padding(&mut out);
    out.push(84u8);
    out.push(83u8);
    out.push(118u8);
    out.push(0u8);
    util::extend_bytes(&mut out, handshake_hash);
    proof {
        assert(out@ =~= spec_tls13_server_verify_message(handshake_hash@));
    }
    out
}

/// Construct the client CertificateVerify message for a transcript hash.
pub fn construct_tls13_client_verify_message(handshake_hash: &Vec<u8>) -> (r: Vec<u8>)
    ensures
        r@ == spec_tls13_client_verify_message(handshake_hash@),
{
    let mut out: Vec<u8> = Vec::new();
    push_verify_message_padding(&mut out);
    out.push(84u8);
    out.push(83u8);
    out.push(99u8);
    out.push(0u8);
    util::extend_bytes(&mut out, handshake_hash);
    proof {
        assert(out@ =~= spec_tls13_client_verify_message(handshake_hash@));
    }
    out
}

/// A client credential's private key with the schemes it can use.
#[derive(Clone, Debug)]
pub struct SigningKey {
    pub key: Vec<u8>,
    pub schemes: Vec<SignatureScheme>,
}

/// A signer: a key committed to one scheme.
#[derive(Clone, Debug)]
pub struct Signer {
    pub key: Vec<u8>,
    pub scheme: SignatureScheme,
}

impl SigningKey {
    /// Pick the first offered scheme this key supports.
    pub fn choose_scheme(&self, offered: &Vec<SignatureScheme>) -> (r: Option<Signer>)
        ensures
            match r {
                Some(s) => {
                    &&& s.key@ == self.key@
                    &&& offered@.contains(s.scheme)
                    &&& self.schemes@.contains(s.scheme)
                },
                None => forall|i: int|
                    0 <= i < offered@.len() ==> !self.schemes@.contains(offered@[i]),
            },
    {
        let mut i: usize = 0;
        while i < offered.len()
            invariant
                i <= offered@.len(),
                forall|j: int| 0 <= j < i ==> !self.schemes@.contains(offered@[j]),
            decreases offered@.len() - i,
        {
            if util::schemes_contain(&self.schemes, offered[i]) {
                return Some(Signer { key: util::copy_bytes(&self.key), scheme: offered[i] });
            }
            i = i + 1;
        }
        None
    }
}

impl Signer {
    /// Sign a message with this signer's key.
    pub fn sign(&self, message: &Vec<u8>) -> (r: Vec<u8>)
        ensures
            r@ == spec_signature(self.key@, message@),
    {
        signature(&self.key, message)
    }

    /// The scheme this signer uses.
    pub fn get_scheme(&self) -> (s: SignatureScheme)
        ensures
            s == self.scheme,
    {
        self.scheme
    }
}

/// A client credential: certificate chain plus signing key.
#[derive(Clone, Debug)]
pub struct CertifiedKey {
    pub cert: Vec<Vec<u8>>,
    pub key: SigningKey,
}

} // verus!

//! Ephemeral key exchange.
//!
//! The Diffie-Hellman primitive is an external concern.  The model keeps
//! what the state machine observes: a fresh exchange owns a random
//! private key, its public share is a function of that key, completion
//! combines the private key with the peer's share, and an empty peer
//! share is rejected.

use vstd::prelude::*;
use crate::enums::NamedGroup;
use crate::rand;
use crate::util;

verus! {

/// The model public share of a private key.
pub open spec fn spec_pubkey_of(privkey: Seq<u8>) -> Seq<u8> {
    seq![80u8] + privkey
}

/// The model shared secret of a private key and a peer's share.
pub open spec fn spec_shared_secret(privkey: Seq<u8>, peer_pub: Seq<u8>) -> Seq<u8> {
    seq![75u8] + privkey + peer_pub
}

/// An in-progress ephemeral key exchange.
pub struct KeyExchange {
    pub group: NamedGroup,
    pub privkey: Vec<u8>,
    pub pubkey: Vec<u8>,
}

impl KeyExchange {
    /// The share and key belong together.
    pub open spec fn wf(&self) -> bool {
        self.pubkey@ == spec_pubkey_of(self.privkey@)
    }

    /// The group this exchange runs in.
    pub fn group(&self) -> (g: NamedGroup)
        ensures
            g == self.group,
    {
        self.group
    }

    /// Pick `group` if it is configured.
    pub fn choose_group(group: NamedGroup, kx_groups: &Vec<NamedGroup>) -> (r: Option<NamedGroup>)
        ensures
            r == if kx_groups@.contains(group) {
                Some(group)
            } else {
                None::<NamedGroup>
            },
    {
        if util::groups_contain(kx_groups, group) {
            Some(group)
        } else {
            None
        }
    }

    /// Start an exchange in `group` with a fresh private key; fails only
    /// when the random source does.
    pub fn start(group: NamedGroup) -> (r: Option<KeyExchange>)
        ensures
            r matches Some(kx) ==> kx.wf() && kx.group == group,
    {
        let privkey = match rand::random_vec(32) {
            Ok(k) => k,
            Err(_) => {
                return None;
            },
        };
        let mut pubkey: Vec<u8> = Vec::new();
        pubkey.push(80u8);
        util::extend_bytes(&mut pubkey, &privkey);
        proof {
            assert(pubkey@ =~= spec_pubkey_of(privkey@));
        }
        Some(KeyExchange { group, privkey, pubkey })
    }

    /// Complete the exchange against the peer's share; an empty share is
    /// malformed and rejected.
    pub fn complete(self, peer_pub: &Vec<u8>) -> (r: Option<Vec<u8>>)
        ensures
            match r {
                Some(shared) => peer_pub@.len() > 0 && shared@ == spec_shared_secret(
                    self.privkey@,
                    peer_pub@,
                ),
                None => peer_pub@.len() == 0,
            },
    {
        if peer_pub.len() == 0 {
            return None;
        }
        let mut shared: Vec<u8> = Vec::new();
        shared.push(75u8);
        util::extend_bytes(&mut shared, &self.privkey);
        util::extend_bytes(&mut shared, peer_pub);
        proof {
            assert(shared@ =~= spec_shared_secret(self.privkey@, peer_pub@));
        }
        Some(shared)
    }
}

} // verus!

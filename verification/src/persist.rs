//! Persisted session state: cache keys, cached session values, the
//! key-exchange group hint, and the storage map itself.
//!
//! The storage backend is an external collaborator offering `get` and
//! `put` over opaque keys; the model is a last-writer-wins association
//! list.  A cache key is one tag byte — distinguishing a session entry
//! from a group hint — followed by the server name's bytes.

use vstd::prelude::*;
use crate::enums::{CipherSuite, NamedGroup, ProtocolVersion};
use crate::msgs::SessionId;
use crate::name::ServerName;
use crate::suites::SupportedCipherSuite;
use crate::util;

verus! {

pub const KEY_TAG_SESSION: u8 = 0;

pub const KEY_TAG_KX_HINT: u8 = 1;

/// The encoded cache key for a tag and server name.
pub open spec fn spec_key_encoding(tag: u8, name: &ServerName) -> Seq<u8> {
    seq![tag] + name.spec_bytes()
}

/// A cache key: which kind of entry, for which server name.
pub struct ClientSessionKey {
    pub tag: u8,
    pub name_bytes: Vec<u8>,
}

impl ClientSessionKey {
    /// The key under which a session for `name` is cached.
    pub fn session_for_server_name(name: &ServerName) -> (r: ClientSessionKey)
        ensures
            r.tag == KEY_TAG_SESSION,
            r.name_bytes@ == name.spec_bytes(),
    {
        ClientSessionKey { tag: KEY_TAG_SESSION, name_bytes: name.bytes() }
    }

    /// The key under which a group hint for `name` is cached.
    pub fn hint_for_server_name(name: &ServerName) -> (r: ClientSessionKey)
        ensures
            r.tag == KEY_TAG_KX_HINT,
            r.name_bytes@ == name.spec_bytes(),
    {
        ClientSessionKey { tag: KEY_TAG_KX_HINT, name_bytes: name.bytes() }
    }

    /// The key's byte encoding: the tag, then the name.
    pub fn get_encoding(&self) -> (r: Vec<u8>)
        ensures
            r@ == seq![self.tag] + self.name_bytes@,
    {
        let mut out: Vec<u8> = Vec::new();
        out.push(self.tag);
        util::extend_bytes(&mut out, &self.name_bytes);
        proof {
            assert(out@ =~= seq![self.tag] + self.name_bytes@);
        }
        out
    }
}

/// A cached session: everything needed to offer a resumption.
pub struct ClientSessionValue {
    pub version: ProtocolVersion,
    pub cipher_suite: CipherSuite,
    pub session_id: SessionId,
    pub ticket: Vec<u8>,
    /// The master secret (TLS 1.2) or resumption secret (TLS 1.3).
    pub master_secret: Vec<u8>,
    pub server_cert_chain: Vec<Vec<u8>>,
    /// Issuance time, seconds.
    pub epoch: u64,
    /// Lifetime hint, seconds.
    pub lifetime: u32,
    pub age_add: u32,
    pub max_early_data_size: u32,
}

impl ClientSessionValue {
    /// A fresh entry with no lifetime, age-add or early-data limit yet.
    pub fn new(
        version: ProtocolVersion,
        cipher_suite: CipherSuite,
        session_id: &SessionId,
        ticket: Vec<u8>,
        master_secret: Vec<u8>,
        server_cert_chain: &Vec<Vec<u8>>,
        time_now: u64,
    ) -> (r: ClientSessionValue)
        ensures
            r.version == version,
            r.cipher_suite == cipher_suite,
            r.session_id.bytes@ == session_id.bytes@,
            r.ticket@ == ticket@,
            r.master_secret@ == master_secret@,
            util::views_of(r.server_cert_chain@) == util::views_of(server_cert_chain@),
            r.epoch == time_now,
            r.lifetime == 0,
            r.age_add == 0,
            r.max_early_data_size == 0,
    {
        ClientSessionValue {
            version,
            cipher_suite,
            session_id: session_id.duplicate(),
            ticket,
            master_secret,
            server_cert_chain: util::copy_bytes_list(server_cert_chain),
            epoch: time_now,
            lifetime: 0,
            age_add: 0,
            max_early_data_size: 0,
        }
    }

    /// Record the ticket's lifetime and age-add.
    pub fn set_times(&mut self, lifetime: u32, age_add: u32)
        ensures
            *final(self) == (ClientSessionValue { lifetime, age_add, ..*old(self) }),
    {
        self.lifetime = lifetime;
        self.age_add = age_add;
    }

    /// Record the ticket's early-data limit.
    pub fn set_max_early_data_size(&mut self, sz: u32)
        ensures
            *final(self) == (ClientSessionValue { max_early_data_size: sz, ..*old(self) }),
    {
        self.max_early_data_size = sz;
    }

    /// An element-wise copy.
    pub fn duplicate(&self) -> (r: ClientSessionValue)
        ensures
            r.version == self.version,
            r.cipher_suite == self.cipher_suite,
            r.session_id.bytes@ == self.session_id.bytes@,
            r.ticket@ == self.ticket@,
            r.master_secret@ == self.master_secret@,
            util::views_of(r.server_cert_chain@) == util::views_of(self.server_cert_chain@),
            r.epoch == self.epoch,
            r.lifetime == self.lifetime,
            r.age_add == self.age_add,
            r.max_early_data_size == self.max_early_data_size,
    {
        ClientSessionValue {
            version: self.version,
            cipher_suite: self.cipher_suite,
            session_id: self.session_id.duplicate(),
            ticket: util::copy_bytes(&self.ticket),
            master_secret: util::copy_bytes(&self.master_secret),
            server_cert_chain: util::copy_bytes_list(&self.server_cert_chain),
            epoch: self.epoch,
            lifetime: self.lifetime,
            age_add: self.age_add,
            max_early_data_size: self.max_early_data_size,
        }
    }
}

/// A cached session whose suite was found in the current configuration,
/// together with the time it was retrieved from the cache.
pub struct ResolvedSession {
    pub value: ClientSessionValue,
    pub supported_suite: SupportedCipherSuite,
    pub time_retrieved: u64,
}

impl ResolvedSession {
    /// The suite agrees with the cached identifiers.
    pub open spec fn wf(&self) -> bool {
        &&& self.supported_suite.spec_suite() == self.value.cipher_suite
        &&& self.supported_suite.spec_version() == self.value.version
    }

    /// Resolve a cached value against the configured suites; the cached
    /// suite must be configured and must belong to the cached version.
    pub fn resolve_cipher_suite(
        value: ClientSessionValue,
        cipher_suites: &Vec<SupportedCipherSuite>,
        time_now: u64,
    ) -> (r: Option<ResolvedSession>)
        ensures
            match r {
                Some(rs) => {
                    &&& rs.wf()
                    &&& rs.value == value
                    &&& rs.time_retrieved == time_now
                    &&& cipher_suites@.contains(rs.supported_suite)
                },
                None => forall|i: int|
                    0 <= i < cipher_suites@.len() ==> !(
                    #[trigger] cipher_suites@[i].spec_suite() == value.cipher_suite
                        && cipher_suites@[i].spec_version() == value.version),
            },
    {
        let mut i: usize = 0;
        while i < cipher_suites.len()
            invariant
                i <= cipher_suites@.len(),
                forall|j: int|
                    0 <= j < i ==> !(#[trigger] cipher_suites@[j].spec_suite()
                        == value.cipher_suite && cipher_suites@[j].spec_version() == value.version),
            decreases cipher_suites@.len() - i,
        {
            let scs = cipher_suites[i];
            if scs.suite() == value.cipher_suite && scs.version() == value.version {
                return Some(
                    ResolvedSession { value, supported_suite: scs, time_retrieved: time_now },
                );
            }
            i = i + 1;
        }
        None
    }

    /// Has the entry outlived its lifetime hint at the retrieval time?
    pub open spec fn spec_has_expired(&self) -> bool {
        self.value.lifetime != 0 && self.value.epoch + self.value.lifetime
            < self.time_retrieved
    }

    /// Check expiry against the time the entry was retrieved.
    pub fn has_expired(&self) -> (r: bool)
        ensures
            r == self.spec_has_expired(),
    {
        if self.value.lifetime == 0 {
            return false;
        }
        let deadline: u64 = if self.value.epoch <= u64::MAX - (self.value.lifetime as u64) {
            self.value.epoch + (self.value.lifetime as u64)
        } else {
            u64::MAX
        };
        if self.value.epoch > u64::MAX - (self.value.lifetime as u64) {
            proof {
                assert(self.value.epoch + self.value.lifetime >= self.time_retrieved);
            }
        }
        deadline < self.time_retrieved
    }

    /// The obfuscated ticket age sent in a PSK offer: the age in
    /// milliseconds plus the age-add, both mod 2^32.
    pub open spec fn spec_obfuscated_ticket_age(&self, time_now: u64) -> u32 {
        (((if time_now >= self.value.epoch {
            time_now - self.value.epoch
        } else {
            0
        } % 0x1_0000_0000) * 1000 + self.value.age_add) % 0x1_0000_0000) as u32
    }

    /// Compute the obfuscated ticket age at `time_now`.
    pub fn get_obfuscated_ticket_age(&self, time_now: u64) -> (r: u32)
        ensures
            r == self.spec_obfuscated_ticket_age(time_now),
    {
        let age_secs: u64 = if time_now >= self.value.epoch {
            time_now - self.value.epoch
        } else {
            0
        };
        let reduced: u64 = age_secs % 0x1_0000_0000;
        let millis: u64 = reduced * 1000;
        let obfuscated: u64 = (millis + (self.value.age_add as u64)) % 0x1_0000_0000;
        obfuscated as u32
    }

    /// Replace the session id.
    pub fn set_session_id(&mut self, id: SessionId)
        ensures
            final(self).value.session_id == id,
            final(self).value == (ClientSessionValue {
                session_id: id,
                ..old(self).value
            }),
            final(self).supported_suite == old(self).supported_suite,
            final(self).time_retrieved == old(self).time_retrieved,
    {
        self.value.session_id = id;
    }

    /// The suite of this cached session, in supported form.
    pub fn supported_cipher_suite(&self) -> (r: SupportedCipherSuite)
        ensures
            r == self.supported_suite,
    {
        self.supported_suite
    }
}

/// A value held in the session storage.
pub enum StoredValue {
    Session(ClientSessionValue),
    KxHint(NamedGroup),
}

impl StoredValue {
    /// An element-wise copy.
    pub fn duplicate(&self) -> (r: StoredValue)
        ensures
            spec_stored_values_match(r, *self),
    {
        match self {
            StoredValue::Session(v) => StoredValue::Session(v.duplicate()),
            StoredValue::KxHint(g) => StoredValue::KxHint(*g),
        }
    }
}

/// Two stored values agree field for field.
pub open spec fn spec_stored_values_match(a: StoredValue, b: StoredValue) -> bool {
    match a {
        StoredValue::Session(av) => b matches StoredValue::Session(bv) && {
            &&& av.version == bv.version
            &&& av.cipher_suite == bv.cipher_suite
            &&& av.session_id.bytes@ == bv.session_id.bytes@
            &&& av.ticket@ == bv.ticket@
            &&& av.master_secret@ == bv.master_secret@
            &&& util::views_of(av.server_cert_chain@) == util::views_of(bv.server_cert_chain@)
            &&& av.epoch == bv.epoch
            &&& av.lifetime == bv.lifetime
            &&& av.age_add == bv.age_add
            &&& av.max_early_data_size == bv.max_early_data_size
        },
        StoredValue::KxHint(ag) => b matches StoredValue::KxHint(bg) && ag == bg,
    }
}

/// The last value stored under `key`, if any.
pub open spec fn spec_lookup(entries: Seq<(Vec<u8>, StoredValue)>, key: Seq<u8>) -> Option<
    StoredValue,
>
    decreases entries.len(),
{
    if entries.len() == 0 {
        None
    } else if entries.last().0@ == key {
        Some(entries.last().1)
    } else {
        spec_lookup(entries.drop_last(), key)
    }
}

/// The session storage: a last-writer-wins map from opaque keys to
/// stored values.
pub struct SessionStorage {
    pub entries: Vec<(Vec<u8>, StoredValue)>,
}

impl SessionStorage {
    /// An empty cache.
    pub fn new() -> (r: SessionStorage)
        ensures
            r.entries@.len() == 0,
    {
        SessionStorage { entries: Vec::new() }
    }

    /// Look up the last value stored under `key`.
    pub fn get(&self, key: &Vec<u8>) -> (r: Option<StoredValue>)
        ensures
            match r {
                Some(v) => spec_lookup(self.entries@, key@) matches Some(stored)
                    && spec_stored_values_match(v, stored),
                None => spec_lookup(self.entries@, key@) is None,
            },
    {
        let ghost s = self.entries@;
        proof {
            assert(s.take(s.len() as int) =~= s);
        }
        let mut i: usize = self.entries.len();
        while i > 0
            invariant
                i <= s.len(),
                s == self.entries@,
                spec_lookup(s, key@) == spec_lookup(s.take(i as int), key@),
            decreases i,
        {
            i = i - 1;
            proof {
                assert(s.take(i + 1).last() == s[i as int]);
                assert(s.take(i + 1).drop_last() =~= s.take(i as int));
            }
            if util::bytes_eq(&self.entries[i].0, key) {
                return Some(self.entries[i].1.duplicate());
            }
        }
        proof {
            assert(s.take(0).len() == 0);
        }
        None
    }

    /// Store `value` under `key`; later writers win.  Always succeeds.
    pub fn put(&mut self, key: Vec<u8>, value: StoredValue) -> (r: bool)
        ensures
            r,
            final(self).entries@ == old(self).entries@.push((key, value)),
            spec_lookup(final(self).entries@, key@) == Some(value),
            forall|other: Seq<u8>|
                other != key@ ==> #[trigger] spec_lookup(final(self).entries@, other)
                    == spec_lookup(old(self).entries@, other),
    {
        let ghost pair = (key, value);
        self.entries.push((key, value));
        proof {
            assert(self.entries@.last() == pair);
            assert(self.entries@.drop_last() =~= old(self).entries@);
        }
        true
    }
}

} // verus!

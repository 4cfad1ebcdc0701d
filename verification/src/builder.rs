//! Building a client or server configuration in a linker-friendly way.
//!
//! The builder forces four choices in a fixed order — cipher suites, key
//! exchange groups, protocol versions, peer role — each phase a distinct
//! type, so an incomplete policy cannot compile.  Role selection validates
//! the accumulated choices: there must be at least one cipher suite whose
//! protocol version is enabled, and at least one key exchange group.

use vstd::prelude::*;
use crate::config::{CertVerifier, ClientCertResolver, ClientConfig};
use crate::enums::{NamedGroup, ProtocolVersion};
use crate::error::{Error, GeneralErrorKind};
use crate::suites::{self, SupportedCipherSuite};
use crate::util;
use crate::versions::{self, EnabledVersions};

verus! {

/// A config builder where we want to know the cipher suites.
pub struct ConfigWantsCipherSuites;

/// A config builder where we want to know which key exchange groups to use.
pub struct ConfigWantsKxGroups {
    pub cipher_suites: Vec<SupportedCipherSuite>,
}

/// A config builder where we want to know the TLS versions.
pub struct ConfigWantsVersions {
    pub cipher_suites: Vec<SupportedCipherSuite>,
    pub kx_groups: Vec<NamedGroup>,
}

/// A config builder where we want to know whether this will be a client
/// or a server.
pub struct ConfigWantsPeerType {
    pub cipher_suites: Vec<SupportedCipherSuite>,
    pub kx_groups: Vec<NamedGroup>,
    pub versions: EnabledVersions,
}

/// A validated client-side builder that still wants a server certificate
/// verifier.
pub struct ConfigWantsServerVerifier {
    pub cipher_suites: Vec<SupportedCipherSuite>,
    pub kx_groups: Vec<NamedGroup>,
    pub versions: EnabledVersions,
}

/// A validated server-side builder that still wants a client certificate
/// verifier.  The server side of the handshake is handled elsewhere; this
/// type only witnesses that validation passed.
pub struct ConfigWantsClientVerifier {
    pub cipher_suites: Vec<SupportedCipherSuite>,
    pub kx_groups: Vec<NamedGroup>,
    pub versions: EnabledVersions,
}

/// A client builder that wants the client-authentication decision.
pub struct ConfigWantsClientCert {
    pub cipher_suites: Vec<SupportedCipherSuite>,
    pub kx_groups: Vec<NamedGroup>,
    pub versions: EnabledVersions,
    pub verifier: CertVerifier,
}

/// Start building a config: the first choice is the cipher suites.
pub fn config_builder() -> ConfigWantsCipherSuites {
    ConfigWantsCipherSuites
}

/// Choose every default in one step.
fn config_builder_with_safe_defaults() -> (r: ConfigWantsPeerType)
    ensures
        r.cipher_suites@ == suites::spec_default_cipher_suites(),
        r.kx_groups@ == suites::spec_default_kx_groups(),
        r.versions == EnabledVersions::spec_new(versions::spec_default_versions()),
{
    config_builder()
        .with_safe_default_cipher_suites()
        .with_safe_default_kx_groups()
        .with_safe_default_protocol_versions()
}

/// Start building a client config with the default cryptography choices.
/// The defaults always validate, so role selection cannot fail.
pub fn client_config_builder_with_safe_defaults() -> (r: ConfigWantsServerVerifier)
    ensures
        r.cipher_suites@ == suites::spec_default_cipher_suites(),
        r.kx_groups@ == suites::spec_default_kx_groups(),
        r.versions == EnabledVersions::spec_new(versions::spec_default_versions()),
{
    let b = config_builder_with_safe_defaults();
    proof {
        lemma_default_builder_validates(b);
    }
    match b.for_client() {
        Ok(r) => r,
        Err(_) => {
            proof {
                assert(false);
            }
            ConfigWantsServerVerifier {
                cipher_suites: Vec::new(),
                kx_groups: Vec::new(),
                versions: EnabledVersions { tls12: false, tls13: false },
            }
        },
    }
}

/// Start building a server config with the default cryptography choices.
/// The defaults always validate, so role selection cannot fail.
pub fn server_config_builder_with_safe_defaults() -> (r: ConfigWantsClientVerifier)
    ensures
        r.cipher_suites@ == suites::spec_default_cipher_suites(),
        r.kx_groups@ == suites::spec_default_kx_groups(),
        r.versions == EnabledVersions::spec_new(versions::spec_default_versions()),
{
    let b = config_builder_with_safe_defaults();
    proof {
        lemma_default_builder_validates(b);
    }
    match b.for_server() {
        Ok(r) => r,
        Err(_) => {
            proof {
                assert(false);
            }
            ConfigWantsClientVerifier {
                cipher_suites: Vec::new(),
                kx_groups: Vec::new(),
                versions: EnabledVersions { tls12: false, tls13: false },
            }
        },
    }
}

impl ConfigWantsCipherSuites {
    /// Choose a specific set of cipher suites.
    pub fn with_cipher_suites(&self, cipher_suites: &Vec<SupportedCipherSuite>) -> (r:
        ConfigWantsKxGroups)
        ensures
            r.cipher_suites@ == cipher_suites@,
    {
        let mut v: Vec<SupportedCipherSuite> = Vec::new();
        let mut i: usize = 0;
        while i < cipher_suites.len()
            invariant
                i <= cipher_suites@.len(),
                v@ == cipher_suites@.take(i as int),
            decreases cipher_suites@.len() - i,
        {
            v.push(cipher_suites[i]);
            proof {
                assert(cipher_suites@.take(i + 1) =~= cipher_suites@.take(i as int).push(
                    cipher_suites@[i as int],
                ));
            }
            i = i + 1;
        }
        proof {
            assert(cipher_suites@.take(cipher_suites@.len() as int) =~= cipher_suites@);
        }
        ConfigWantsKxGroups { cipher_suites: v }
    }

    /// Choose the default set of cipher suites.
    pub fn with_safe_default_cipher_suites(&self) -> (r: ConfigWantsKxGroups)
        ensures
            r.cipher_suites@ == suites::spec_default_cipher_suites(),
    {
        self.with_cipher_suites(&suites::default_cipher_suites())
    }
}

impl ConfigWantsKxGroups {
    /// Choose a specific set of key exchange groups.
    pub fn with_kx_groups(self, kx_groups: &Vec<NamedGroup>) -> (r: ConfigWantsVersions)
        ensures
            r.cipher_suites@ == self.cipher_suites@,
            r.kx_groups@ == kx_groups@,
    {
        let mut v: Vec<NamedGroup> = Vec::new();
        let mut i: usize = 0;
        while i < kx_groups.len()
            invariant
                i <= kx_groups@.len(),
                v@ == kx_groups@.take(i as int),
            decreases kx_groups@.len() - i,
        {
            v.push(kx_groups[i]);
            proof {
                assert(kx_groups@.take(i + 1) =~= kx_groups@.take(i as int).push(
                    kx_groups@[i as int],
                ));
            }
            i = i + 1;
        }
        proof {
            assert(kx_groups@.take(kx_groups@.len() as int) =~= kx_groups@);
        }
        ConfigWantsVersions { cipher_suites: self.cipher_suites, kx_groups: v }
    }

    /// Choose the default set of key exchange groups.
    pub fn with_safe_default_kx_groups(self) -> (r: ConfigWantsVersions)
        ensures
            r.cipher_suites@ == self.cipher_suites@,
            r.kx_groups@ == suites::spec_default_kx_groups(),
    {
        self.with_kx_groups(&suites::default_kx_groups())
    }
}

impl ConfigWantsVersions {
    /// Accept the default protocol versions: both TLS 1.2 and TLS 1.3.
    pub fn with_safe_default_protocol_versions(self) -> (r: ConfigWantsPeerType)
        ensures
            r.cipher_suites@ == self.cipher_suites@,
            r.kx_groups@ == self.kx_groups@,
            r.versions == EnabledVersions::spec_new(versions::spec_default_versions()),
    {
        self.with_protocol_versions(&versions::default_versions())
    }

    /// Use a specific set of protocol versions.
    pub fn with_protocol_versions(self, versions: &Vec<ProtocolVersion>) -> (r:
        ConfigWantsPeerType)
        ensures
            r.cipher_suites@ == self.cipher_suites@,
            r.kx_groups@ == self.kx_groups@,
            r.versions == EnabledVersions::spec_new(versions@),
    {
        ConfigWantsPeerType {
            cipher_suites: self.cipher_suites,
            kx_groups: self.kx_groups,
            versions: EnabledVersions::new(versions),
        }
    }
}

impl ConfigWantsPeerType {
    /// Some configured suite can be used under the enabled versions.
    pub open spec fn spec_any_usable_suite(&self) -> bool {
        exists|i: int|
            0 <= i < self.cipher_suites@.len() && self.versions.spec_contains(
                self.cipher_suites@[i].spec_version(),
            )
    }

    /// The accumulated choices validate exactly when some suite's version
    /// is enabled and the group list is non-empty.
    pub open spec fn spec_valid(&self) -> bool {
        self.spec_any_usable_suite() && self.kx_groups@.len() > 0
    }

    /// Check the accumulated choices.
    pub fn validate(&self) -> (r: Result<(), Error>)
        ensures
            r is Ok <==> self.spec_valid(),
            !self.spec_any_usable_suite() ==> r == Err::<(), Error>(
                Error::General(GeneralErrorKind::NoUsableCipherSuitesConfigured),
            ),
            self.spec_any_usable_suite() && self.kx_groups@.len() == 0 ==> r == Err::<(), Error>(
                Error::General(GeneralErrorKind::NoKxGroupsConfigured),
            ),
    {
        let mut any_usable_suite = false;
        let mut i: usize = 0;
        while i < self.cipher_suites.len()
            invariant
                i <= self.cipher_suites@.len(),
                any_usable_suite == (exists|j: int|
                    0 <= j < i && self.versions.spec_contains(
                        self.cipher_suites@[j].spec_version(),
                    )),
            decreases self.cipher_suites@.len() - i,
        {
            if self.versions.contains(self.cipher_suites[i].version()) {
                any_usable_suite = true;
            }
            i = i + 1;
        }

        if !any_usable_suite {
            return Err(Error::General(GeneralErrorKind::NoUsableCipherSuitesConfigured));
        }

        if self.kx_groups.len() == 0 {
            return Err(Error::General(GeneralErrorKind::NoKxGroupsConfigured));
        }

        Ok(())
    }

    /// This config is for a client; validation may fail.
    pub fn for_client(self) -> (r: Result<ConfigWantsServerVerifier, Error>)
        ensures
            r is Ok <==> self.spec_valid(),
            r is Ok ==> {
                &&& r->Ok_0.cipher_suites@ == self.cipher_suites@
                &&& r->Ok_0.kx_groups@ == self.kx_groups@
                &&& r->Ok_0.versions == self.versions
            },
            !self.spec_any_usable_suite() ==> r == Err::<ConfigWantsServerVerifier, Error>(
                Error::General(GeneralErrorKind::NoUsableCipherSuitesConfigured),
            ),
            self.spec_any_usable_suite() && self.kx_groups@.len() == 0 ==> r == Err::<
                ConfigWantsServerVerifier,
                Error,
            >(Error::General(GeneralErrorKind::NoKxGroupsConfigured)),
    {
        match self.validate() {
            Ok(_) => Ok(
                ConfigWantsServerVerifier {
                    cipher_suites: self.cipher_suites,
                    kx_groups: self.kx_groups,
                    versions: self.versions,
                },
            ),
            Err(e) => Err(e),
        }
    }

    /// This config is for a server; validation may fail.
    pub fn for_server(self) -> (r: Result<ConfigWantsClientVerifier, Error>)
        ensures
            r is Ok <==> self.spec_valid(),
            r is Ok ==> {
                &&& r->Ok_0.cipher_suites@ == self.cipher_suites@
                &&& r->Ok_0.kx_groups@ == self.kx_groups@
                &&& r->Ok_0.versions == self.versions
            },
            !self.spec_any_usable_suite() ==> r == Err::<ConfigWantsClientVerifier, Error>(
                Error::General(GeneralErrorKind::NoUsableCipherSuitesConfigured),
            ),
            self.spec_any_usable_suite() && self.kx_groups@.len() == 0 ==> r == Err::<
                ConfigWantsClientVerifier,
                Error,
            >(Error::General(GeneralErrorKind::NoKxGroupsConfigured)),
    {
        match self.validate() {
            Ok(_) => Ok(
                ConfigWantsClientVerifier {
                    cipher_suites: self.cipher_suites,
                    kx_groups: self.kx_groups,
                    versions: self.versions,
                },
            ),
            Err(e) => Err(e),
        }
    }
}

impl ConfigWantsServerVerifier {
    /// Provide the server certificate verifier.
    pub fn with_server_verifier(self, verifier: CertVerifier) -> (r: ConfigWantsClientCert)
        ensures
            r.cipher_suites@ == self.cipher_suites@,
            r.kx_groups@ == self.kx_groups@,
            r.versions == self.versions,
            r.verifier == verifier,
    {
        ConfigWantsClientCert {
            cipher_suites: self.cipher_suites,
            kx_groups: self.kx_groups,
            versions: self.versions,
            verifier,
        }
    }
}

impl ConfigWantsClientCert {
    /// Finish the config with a client credential resolver.
    pub fn with_client_cert_resolver(self, resolver: ClientCertResolver) -> (r: ClientConfig)
        ensures
            r.cipher_suites@ == self.cipher_suites@,
            r.kx_groups@ == self.kx_groups@,
            r.versions == self.versions,
            r.verifier == self.verifier,
            r.client_auth_cert_resolver == resolver,
            r.alpn_protocols@.len() == 0,
            r.enable_sni,
            r.enable_tickets,
            !r.enable_early_data,
    {
        ClientConfig {
            cipher_suites: self.cipher_suites,
            kx_groups: self.kx_groups,
            versions: self.versions,
            verifier: self.verifier,
            client_auth_cert_resolver: resolver,
            alpn_protocols: Vec::new(),
            enable_sni: true,
            enable_tickets: true,
            enable_early_data: false,
        }
    }

    /// Finish the config without client authentication.
    pub fn with_no_client_auth(self) -> (r: ClientConfig)
        ensures
            r.cipher_suites@ == self.cipher_suites@,
            r.kx_groups@ == self.kx_groups@,
            r.versions == self.versions,
            r.verifier == self.verifier,
            r.client_auth_cert_resolver.credential is None,
            r.alpn_protocols@.len() == 0,
            r.enable_sni,
            r.enable_tickets,
            !r.enable_early_data,
    {
        self.with_client_cert_resolver(ClientCertResolver { credential: None })
    }
}

/// The builder of the defaults always validates: the default suite list
/// holds a TLS 1.3 suite and both default versions are enabled, and the
/// default group list is non-empty.
pub proof fn lemma_default_builder_validates(b: ConfigWantsPeerType)
    requires
        b.cipher_suites@ == suites::spec_default_cipher_suites(),
        b.kx_groups@ == suites::spec_default_kx_groups(),
        b.versions == EnabledVersions::spec_new(versions::spec_default_versions()),
    ensures
        b.spec_valid(),
{
    assert(b.cipher_suites@[0].spec_version() == ProtocolVersion::Tls13);
    assert(b.versions.spec_contains(b.cipher_suites@[0].spec_version()));
}

} // verus!

//! The set of protocol versions a configuration enables.

use vstd::prelude::*;
use crate::enums::ProtocolVersion;

verus! {

/// Which protocol versions a built configuration may negotiate.
#[derive(Clone, Copy, Debug, PartialEq, Eq, Structural)]
pub struct EnabledVersions {
    pub tls12: bool,
    pub tls13: bool,
}

impl EnabledVersions {
    pub open spec fn spec_contains(&self, v: ProtocolVersion) -> bool {
        match v {
            ProtocolVersion::Tls12 => self.tls12,
            ProtocolVersion::Tls13 => self.tls13,
            _ => false,
        }
    }

    /// Is `v` an enabled version?
    #[verifier::when_used_as_spec(spec_contains)]
    pub fn contains(&self, v: ProtocolVersion) -> (r: bool)
        ensures
            r == self.spec_contains(v),
    {
        match v {
            ProtocolVersion::Tls12 => self.tls12,
            ProtocolVersion::Tls13 => self.tls13,
            _ => false,
        }
    }

    /// The set built from an explicit version list.
    pub open spec fn spec_new(versions: Seq<ProtocolVersion>) -> EnabledVersions {
        EnabledVersions {
            tls12: versions.contains(ProtocolVersion::Tls12),
            tls13: versions.contains(ProtocolVersion::Tls13),
        }
    }

    /// Collect an explicit version list into the enabled set.
    pub fn new(versions: &Vec<ProtocolVersion>) -> (r: EnabledVersions)
        ensures
            r == EnabledVersions::spec_new(versions@),
    {
        let mut tls12 = false;
        let mut tls13 = false;
        let mut i: usize = 0;
        while i < versions.len()
            invariant
                i <= versions@.len(),
                tls12 == (exists|j: int| 0 <= j < i && versions@[j] == ProtocolVersion::Tls12),
                tls13 == (exists|j: int| 0 <= j < i && versions@[j] == ProtocolVersion::Tls13),
            decreases versions@.len() - i,
        {
            let v = versions[i];
            if v == ProtocolVersion::Tls12 {
                tls12 = true;
            } else if v == ProtocolVersion::Tls13 {
                tls13 = true;
            }
            i = i + 1;
        }
        proof {
            assert(tls12 == versions@.contains(ProtocolVersion::Tls12));
            assert(tls13 == versions@.contains(ProtocolVersion::Tls13));
        }
        EnabledVersions { tls12, tls13 }
    }
}

/// The default: both TLS 1.2 and TLS 1.3 enabled.
pub open spec fn spec_default_versions() -> Seq<ProtocolVersion> {
    seq![ProtocolVersion::Tls13, ProtocolVersion::Tls12]
}

/// Build the default version list.
pub fn default_versions() -> (r: Vec<ProtocolVersion>)
    ensures
        r@ == spec_default_versions(),
{
    let mut v: Vec<ProtocolVersion> = Vec::new();
    v.push(ProtocolVersion::Tls13);
    v.push(ProtocolVersion::Tls12);
    proof {
        assert(v@ =~= spec_default_versions());
    }
    v
}

} // verus!

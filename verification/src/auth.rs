//! The authorization gate. It runs before any handler and decides, from the
//! route's policy and the outcome of resolving the caller's identity, whether
//! the handler may run. The resolution itself is an external capability of
//! the Module Runtime (mapping a connection to the name of a running module);
//! this module only consumes its outcome, and denies on any doubt: an
//! unknown caller or a failed resolution is never treated as permission
//! granted.

use vstd::prelude::*;

use crate::route::{Policy, PolicyV};

verus! {

/// The outcome of resolving a caller's identity from its connection.
#[derive(Debug, Clone, PartialEq, Eq)]
pub enum IdentityLookup {
    /// The connection belongs to the named running module.
    Resolved(String),
    /// The connection could not be tied to any known module.
    Unknown,
    /// The Module Runtime itself failed while resolving; treated exactly
    /// like an unknown caller, never retried and never granted.
    Failed,
}

/// Mathematical model of an `IdentityLookup`.
pub ghost enum IdentityV {
    Resolved(Seq<char>),
    Unknown,
    Failed,
}

impl View for IdentityLookup {
    type V = IdentityV;

    open spec fn view(&self) -> IdentityV {
        match self {
            IdentityLookup::Resolved(name) => IdentityV::Resolved(name@),
            IdentityLookup::Unknown => IdentityV::Unknown,
            IdentityLookup::Failed => IdentityV::Failed,
        }
    }
}

/// Whether `policy` admits a caller whose identity resolved as `id`: an
/// anonymous route admits every caller; a restricted route admits exactly
/// the caller that resolved to its owner's name.
pub open spec fn spec_authorized(policy: PolicyV, id: IdentityV) -> bool {
    match policy {
        PolicyV::Anonymous => true,
        PolicyV::RestrictedToOwner(owner) => id == IdentityV::Resolved(owner),
    }
}

/// Evaluates `policy` against the resolved identity of the caller. For an
/// anonymous policy this always succeeds, whatever the identity and even if
/// resolution failed; for a restricted policy it succeeds iff the identity
/// resolved to the owner's name, so an unknown caller, a resolution failure,
/// and any other name are all denied.
pub fn authorize(policy: &Policy, identity: &IdentityLookup) -> (r: bool)
    ensures
        r == spec_authorized(policy@, identity@),
{
    match policy {
        Policy::Anonymous => true,
        Policy::RestrictedToOwner(owner) => match identity {
            IdentityLookup::Resolved(name) => crate::text::str_eq(owner.as_str(), name.as_str()),
            IdentityLookup::Unknown => false,
            IdentityLookup::Failed => false,
        },
    }
}

} // verus!

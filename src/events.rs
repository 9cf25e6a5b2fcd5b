use vstd::prelude::*;
use crate::principal::PrincipalId;

verus! {

/// Emitted when a contribution is approved.
#[derive(Clone, Copy, Debug, PartialEq)]
pub struct ContributionApproval {
    pub id: u64,
    pub contributor: PrincipalId,
}

/// Emitted when an aspiring contributor registers an identity.
#[derive(Clone, Debug, PartialEq)]
pub struct IdentityRegistered {
    pub id: String,
    pub caller: PrincipalId,
}

} // verus!

//! An owner-gated approval registry.
//!
//! One principal, the owner, is fixed when a [`Demo`] is constructed. Only the
//! owner may approve a contribution id, and each id can be approved at most
//! once. Any principal may then ask whether it is the contributor recorded for
//! an id. The host that runs the registry supplies the caller of each
//! operation and receives the notifications that successful approvals emit.

mod demo;
mod errors;
mod events;
pub mod laws;
mod principal;

pub use demo::{
    after_approve, approve_result, check_result, events_after, Contribution, ContributionId,
    Demo, RegistryState,
};
pub use errors::{AccessError, ApprovalError};
pub use events::{ContributionApproval, IdentityRegistered};
pub use principal::PrincipalId;

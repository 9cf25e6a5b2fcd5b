use vstd::prelude::*;

verus! {

/// Why the ownership guard refused a caller.
#[derive(Clone, Copy, Debug, PartialEq, Eq, Structural)]
pub enum AccessError {
    /// The caller is not the owner.
    CallerIsNotOwner,
}

/// Why an approval or an attribution query failed.
#[derive(Clone, Copy, Debug, PartialEq, Eq, Structural)]
pub enum ApprovalError {
    /// The ownership guard refused the caller of `approve`.
    NotOwner(AccessError),
    /// The id already has an approval record.
    AlreadyApproved,
    /// The id has no approval record.
    NoApprovalYet,
}

} // verus!

use std::collections::HashMap;
use vstd::prelude::*;
use crate::errors::{AccessError, ApprovalError};
use crate::events::ContributionApproval;
use crate::principal::PrincipalId;

verus! {

broadcast use vstd::std_specs::hash::group_hash_axioms;

/// The key of an approval record, chosen by the owner at approval time.
pub type ContributionId = u64;

/// An approval record: the contributor credited for a contribution id.
#[derive(Clone, Copy, Debug, PartialEq)]
pub struct Contribution {
    pub id: ContributionId,
    pub contributor: PrincipalId,
}

/// What a registry holds, as mathematical values.
pub struct RegistryState {
    pub owner: PrincipalId,
    pub approvals: Map<ContributionId, Contribution>,
}

impl RegistryState {
    /// Each record is stored under its own id.
    pub open spec fn wf(self) -> bool {
        forall|k: ContributionId| #[trigger]
            self.approvals.contains_key(k) ==> self.approvals[k].id == k
    }
}

/// What `approve(id, _)` called by `caller` returns on state `s`: the owner
/// gate comes first, then the first-write-wins rule.
pub open spec fn approve_result(s: RegistryState, id: ContributionId, caller: PrincipalId) -> Result<
    (),
    ApprovalError,
> {
    if caller != s.owner {
        Err(ApprovalError::NotOwner(AccessError::CallerIsNotOwner))
    } else if s.approvals.contains_key(id) {
        Err(ApprovalError::AlreadyApproved)
    } else {
        Ok(())
    }
}

/// The state after `approve(id, contributor)` called by `caller` on `s`: one
/// new record on success, nothing changed on failure.
pub open spec fn after_approve(
    s: RegistryState,
    id: ContributionId,
    contributor: PrincipalId,
    caller: PrincipalId,
) -> RegistryState {
    if approve_result(s, id, caller) is Ok {
        RegistryState {
            owner: s.owner,
            approvals: s.approvals.insert(id, Contribution { id, contributor }),
        }
    } else {
        s
    }
}

/// The notifications emitted so far, `evs`, after `approve(id, contributor)`
/// called by `caller` on `s`: one more on success, none on failure.
pub open spec fn events_after(
    evs: Seq<ContributionApproval>,
    s: RegistryState,
    id: ContributionId,
    contributor: PrincipalId,
    caller: PrincipalId,
) -> Seq<ContributionApproval> {
    if approve_result(s, id, caller) is Ok {
        evs.push(ContributionApproval { id, contributor })
    } else {
        evs
    }
}

/// What `check(id)` called by `caller` returns on state `s`.
pub open spec fn check_result(s: RegistryState, id: ContributionId, caller: PrincipalId) -> Result<
    bool,
    ApprovalError,
> {
    if s.approvals.contains_key(id) {
        Ok(s.approvals[id].contributor == caller)
    } else {
        Err(ApprovalError::NoApprovalYet)
    }
}

/// The registry: its owner and its approval records.
pub struct Demo {
    owner: PrincipalId,
    contributions: HashMap<ContributionId, Contribution>,
}

impl View for Demo {
    type V = RegistryState;

    closed spec fn view(&self) -> RegistryState {
        RegistryState { owner: self.owner, approvals: self.contributions@ }
    }
}

impl Demo {
    /// A registry owned by the principal that constructs it, `caller`, with
    /// no approval records.
    pub fn new(caller: PrincipalId) -> (r: Demo)
        ensures
            r@.owner == caller,
            r@.approvals == Map::<ContributionId, Contribution>::empty(),
            r@.wf(),
    {
        Demo { owner: caller, contributions: HashMap::new() }
    }

    /// The owner.
    pub fn owner(&self) -> (r: PrincipalId)
        ensures
            r == self@.owner,
    {
        self.owner
    }

    /// The ownership guard: succeeds exactly when `caller` is the owner.
    pub fn require_owner(&self, caller: PrincipalId) -> (r: Result<(), AccessError>)
        ensures
            r == (if caller == self@.owner {
                Ok::<(), AccessError>(())
            } else {
                Err(AccessError::CallerIsNotOwner)
            }),
    {
        if caller == self.owner {
            Ok(())
        } else {
            Err(AccessError::CallerIsNotOwner)
        }
    }

    /// The owner, as `caller`, approves contribution `contribution_id` for
    /// `contributor`. On success the record is stored and one
    /// `ContributionApproval` is appended to `events`; on failure nothing
    /// changes.
    pub fn approve(
        &mut self,
        contribution_id: ContributionId,
        contributor: PrincipalId,
        caller: PrincipalId,
        events: &mut Vec<ContributionApproval>,
    ) -> (r: Result<(), ApprovalError>)
        requires
            old(self)@.wf(),
        ensures
            r == approve_result(old(self)@, contribution_id, caller),
            final(self)@ == after_approve(old(self)@, contribution_id, contributor, caller),
            final(self)@.wf(),
            final(events)@ == events_after(
                old(events)@,
                old(self)@,
                contribution_id,
                contributor,
                caller,
            ),
    {
        match self.require_owner(caller) {
            Err(e) => {
                return Err(ApprovalError::NotOwner(e));
            },
            Ok(()) => {},
        }
        match self.contributions.get(&contribution_id) {
            Some(_) => Err(ApprovalError::AlreadyApproved),
            None => {
                let contribution = Contribution { id: contribution_id, contributor };
                self.contributions.insert(contribution_id, contribution);
                events.push(ContributionApproval { id: contribution_id, contributor });
                Ok(())
            },
        }
    }

    /// Whether `caller` is the contributor recorded for `contribution_id`;
    /// `NoApprovalYet` when the id has no record.
    pub fn check(&self, contribution_id: ContributionId, caller: PrincipalId) -> (r: Result<
        bool,
        ApprovalError,
    >)
        ensures
            r == check_result(self@, contribution_id, caller),
    {
        match self.contributions.get(&contribution_id) {
            Some(contribution) => Ok(contribution.contributor == caller),
            None => Err(ApprovalError::NoApprovalYet),
        }
    }

    /// The approval record of `contribution_id`, if any.
    pub fn contribution(&self, contribution_id: ContributionId) -> (r: Option<Contribution>)
        ensures
            r == (if self@.approvals.contains_key(contribution_id) {
                Some(self@.approvals[contribution_id])
            } else {
                None
            }),
    {
        match self.contributions.get(&contribution_id) {
            Some(contribution) => Some(*contribution),
            None => None,
        }
    }
}

} // verus!

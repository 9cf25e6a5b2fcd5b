use vstd::prelude::*;
use crate::demo::{
    after_approve, approve_result, check_result, events_after, Contribution, ContributionId,
    RegistryState,
};
use crate::errors::{AccessError, ApprovalError};
use crate::events::ContributionApproval;
use crate::principal::PrincipalId;

verus! {

/// A caller other than the owner is refused with `NotOwner`, and the records
/// are left exactly as they were.
pub proof fn lemma_owner_gate(
    s: RegistryState,
    id: ContributionId,
    contributor: PrincipalId,
    caller: PrincipalId,
)
    requires
        caller != s.owner,
    ensures
        approve_result(s, id, caller) == Err::<(), ApprovalError>(
            ApprovalError::NotOwner(AccessError::CallerIsNotOwner),
        ),
        after_approve(s, id, contributor, caller).approvals == s.approvals,
        after_approve(s, id, contributor, caller).approvals.len() == s.approvals.len(),
{
}

/// Once the owner has approved `id` for `c1`, a second approval of `id` by the
/// owner, for any `c2`, fails with `AlreadyApproved` and the record of `id`
/// stays `{id, c1}`.
pub proof fn lemma_first_write_wins(
    s: RegistryState,
    id: ContributionId,
    c1: PrincipalId,
    c2: PrincipalId,
)
    requires
        approve_result(s, id, s.owner) is Ok,
    ensures
        ({
            let s1 = after_approve(s, id, c1, s.owner);
            let s2 = after_approve(s1, id, c2, s.owner);
            &&& approve_result(s1, id, s.owner) == Err::<(), ApprovalError>(
                ApprovalError::AlreadyApproved,
            )
            &&& s2 == s1
            &&& s2.approvals[id] == Contribution { id, contributor: c1 }
        }),
{
}

/// After `approve(id, c)` succeeds, `check(id)` by `q` returns `Ok(true)` if
/// `q` is `c` and `Ok(false)` otherwise.
pub proof fn lemma_attribution(
    s: RegistryState,
    id: ContributionId,
    c: PrincipalId,
    caller: PrincipalId,
    q: PrincipalId,
)
    requires
        approve_result(s, id, caller) is Ok,
    ensures
        check_result(after_approve(s, id, c, caller), id, q) == Ok::<bool, ApprovalError>(q == c),
{
}

/// `check(id)` fails with `NoApprovalYet` for an id without a record, whoever
/// asks.
pub proof fn lemma_unknown_id(s: RegistryState, id: ContributionId, q: PrincipalId)
    requires
        !s.approvals.contains_key(id),
    ensures
        check_result(s, id, q) == Err::<bool, ApprovalError>(ApprovalError::NoApprovalYet),
{
}

/// An id without a record before an approval of another id still has none
/// after it, whatever its outcome: an id gets a record only through a
/// successful approval of that id.
pub proof fn lemma_record_only_by_own_approval(
    s: RegistryState,
    id: ContributionId,
    other: ContributionId,
    contributor: PrincipalId,
    caller: PrincipalId,
)
    requires
        !s.approvals.contains_key(id),
        other != id,
    ensures
        !after_approve(s, other, contributor, caller).approvals.contains_key(id),
{
}

/// Records are never removed or overwritten: every record before an approval
/// is there, unchanged, after it.
pub proof fn lemma_records_persist(
    s: RegistryState,
    id: ContributionId,
    contributor: PrincipalId,
    caller: PrincipalId,
    k: ContributionId,
)
    requires
        s.approvals.contains_key(k),
    ensures
        after_approve(s, id, contributor, caller).approvals.contains_key(k),
        after_approve(s, id, contributor, caller).approvals[k] == s.approvals[k],
        after_approve(s, id, contributor, caller).owner == s.owner,
{
}

/// A successful approval emits exactly one notification, carrying its id and
/// contributor; a failing one emits none.
pub proof fn lemma_one_notification_per_approval(
    evs: Seq<ContributionApproval>,
    s: RegistryState,
    id: ContributionId,
    contributor: PrincipalId,
    caller: PrincipalId,
)
    ensures
        approve_result(s, id, caller) is Ok ==> {
            let after = events_after(evs, s, id, contributor, caller);
            &&& after.len() == evs.len() + 1
            &&& after.subrange(0, evs.len() as int) == evs
            &&& after.last() == ContributionApproval { id, contributor }
        },
        approve_result(s, id, caller) is Err ==> events_after(evs, s, id, contributor, caller)
            == evs,
{
    if approve_result(s, id, caller) is Ok {
        let after = events_after(evs, s, id, contributor, caller);
        assert(after.subrange(0, evs.len() as int) =~= evs);
    }
}

} // verus!

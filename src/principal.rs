use vstd::prelude::*;

verus! {

/// The identity of an acting principal: the 32 bytes of an account address.
/// Principals are compared by value.
#[derive(Clone, Copy, Debug)]
pub struct PrincipalId {
    pub bytes: [u8; 32],
}

impl PrincipalId {
    /// The principal whose address is `bytes`.
    pub fn new(bytes: [u8; 32]) -> (r: PrincipalId)
        ensures
            r.bytes == bytes,
    {
        PrincipalId { bytes }
    }
}

impl PartialEq for PrincipalId {
    fn eq(&self, other: &PrincipalId) -> (r: bool)
        ensures
            r == (*self == *other),
    {
        broadcast use vstd::array::group_array_axioms;

        let mut i: usize = 0;
        while i < 32
            invariant
                0 <= i <= 32,
                forall|j: int| 0 <= j < i ==> self.bytes[j] == other.bytes[j],
            decreases 32 - i,
        {
            if self.bytes[i] != other.bytes[i] {
                return false;
            }
            i = i + 1;
        }
        assert(self.bytes =~= other.bytes);
        true
    }
}

impl vstd::std_specs::cmp::PartialEqSpecImpl for PrincipalId {
    open spec fn obeys_eq_spec() -> bool {
        true
    }

    open spec fn eq_spec(&self, other: &PrincipalId) -> bool {
        *self == *other
    }
}

impl Eq for PrincipalId {
}

} // verus!

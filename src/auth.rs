use vstd::prelude::*;
use crate::address::Address;

verus! {

/// Whether `who` is among the identities that supplied a capability proof for
/// the current call.
pub open spec fn signed_by(signers: Seq<Address>, who: Seq<char>) -> bool {
    exists|i: int| 0 <= i < signers.len() && (#[trigger] signers[i])@ == who
}

/// Checks that `who` authorized the current call: `signers` lists the
/// identities whose capability proofs the host verified for it.
pub fn require_auth(signers: &Vec<Address>, who: &Address) -> (r: bool)
    ensures
        r == signed_by(signers@, who@),
{
    let n = signers.len();
    let mut i: usize = 0;
    while i < n
        invariant
            n == signers@.len(),
            i <= n,
            forall|j: int| 0 <= j < i ==> (#[trigger] signers@[j])@ != who@,
        decreases n - i,
    {
        if signers[i].same_as(who) {
            return true;
        }
        i = i + 1;
    }
    false
}

} // verus!

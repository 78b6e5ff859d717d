use vstd::prelude::*;

verus! {

/// The radix of one 64-bit limb.
#[verifier::inline]
pub open spec fn limb_base() -> nat {
    0x1_0000_0000_0000_0000nat
}

/// Value of the limbs `s[i..]`, least significant limb first.
pub open spec fn limbs_value_from(s: Seq<u64>, i: nat) -> nat
    decreases s.len() - i,
{
    if i >= s.len() {
        0
    } else {
        s[i as int] as nat + limb_base() * limbs_value_from(s, i + 1)
    }
}

/// Value of a little-endian sequence of 64-bit limbs.
pub open spec fn limbs_value(s: Seq<u64>) -> nat {
    limbs_value_from(s, 0)
}

/// Whether two limb arrays of one length are equal, limb by limb.
pub fn limbs_eq<const N: usize>(a: &[u64; N], b: &[u64; N]) -> (r: bool)
    ensures
        r == (a@ == b@),
{
    let mut i: usize = 0;
    while i < N
        invariant
            0 <= i <= N,
            a@.len() == N,
            b@.len() == N,
            forall|j: int| 0 <= j < i ==> a@[j] == b@[j],
        decreases N - i,
    {
        if a[i] != b[i] {
            return false;
        }
        i = i + 1;
    }
    assert(a@ =~= b@);
    true
}

} // verus!

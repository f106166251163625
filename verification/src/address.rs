//! Ledger addresses as plain 32-byte values.

use vstd::prelude::*;

verus! {

/// A ledger address: the 32-byte public identity of an account or a program.
pub type Address = [u8; 32];

/// Two addresses are the same exactly when their byte sequences are equal.
pub fn addr_eq(a: &Address, b: &Address) -> (r: bool)
    ensures
        r == (a@ == b@),
{
    let mut i: usize = 0;
    while i < 32
        invariant
            i <= 32,
            forall|j: int| 0 <= j < i ==> a@[j] == b@[j],
        decreases 32 - i,
    {
        if a[i] != b[i] {
            assert(a@ != b@);
            return false;
        }
        i += 1;
    }
    assert(a@ =~= b@);
    true
}

} // verus!

//! Plain 32-byte identities (wallet addresses, token mints, derived record
//! addresses) and verified comparisons on them.

use vstd::prelude::*;

verus! {

/// A 32-byte public-key-sized identifier: a wallet, a mint, a program, or a
/// derived record address.
pub type KeyBytes = [u8; 32];

/// Byte-for-byte equality of two identifiers.
pub fn key_eq(a: &KeyBytes, b: &KeyBytes) -> (r: bool)
    ensures
        r == (a@ == b@),
{
    let mut i: usize = 0;
    while i < 32
        invariant
            i <= 32,
            forall|j: int| 0 <= j < i ==> a@[j] == b@[j],
        decreases 32 - i,
    {
        if a[i] != b[i] {
            assert(a@ != b@);
            return false;
        }
        i += 1;
    }
    assert(a@ =~= b@);
    true
}

} // verus!

//! Ledger identities and the fixed constants that the handler's contract
//! names: the seed tag used for authority derivation and the single identity
//! that the caller-declared new update authority must equal.

use vstd::prelude::*;

verus! {

/// A ledger identity: the raw 32 bytes of a public key.
pub type Key = [u8; 32];

/// The fixed seed tag used in authority derivation; the bytes of the string
/// `"amoebit_minter"`.
pub const SEED_PREFIX: [u8; 14] = [97, 109, 111, 101, 98, 105, 116, 95, 109, 105, 110, 116, 101, 114];

/// The single identity that the caller-declared new update authority must
/// equal; the bytes of the key written `VLawmZTgLAbdeqrU579ohsdey9H1h3Mi1UeUJpg2mQB`
/// in base-58.
pub const EXPECTED_UPDATE_AUTHORITY: Key = [
    7, 66, 104, 99, 33, 43, 17, 248, 83, 57, 104, 189, 21, 111, 178, 237, 10, 158, 4, 96, 37, 87,
    66, 132, 194, 199, 47, 3, 190, 55, 8, 40,
];

/// The view of an optional key as an optional byte sequence.
pub open spec fn key_opt_view(o: Option<Key>) -> Option<Seq<u8>> {
    match o {
        Option::Some(k) => Option::Some(k@),
        Option::None => Option::None,
    }
}

/// Byte-for-byte equality of two ledger identities.
pub fn key_eq(a: &Key, b: &Key) -> (r: bool)
    ensures
        r == (a@ == b@),
{
    let mut i: usize = 0;
    while i < 32
        invariant
            0 <= i <= 32,
            forall|j: int| 0 <= j < i ==> a@[j] == b@[j],
        decreases 32 - i,
    {
        if a[i] != b[i] {
            assert(a@ != b@);
            return false;
        }
        i = i + 1;
    }
    assert(a@ =~= b@);
    true
}

} // verus!

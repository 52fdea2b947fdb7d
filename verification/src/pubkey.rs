//! Account addresses as 32 raw bytes.
use vstd::prelude::*;

verus! {

/// An account address: the 32 bytes of an ed25519 public key or of a
/// program-derived address.
pub type Pubkey = [u8; 32];

/// The all-zero address, which the return-data record uses for "none".
pub open spec fn zero_key_bytes() -> Seq<u8> {
    Seq::new(32, |i: int| 0u8)
}

/// The all-zero address.
pub open spec fn zero_key() -> Pubkey {
    vstd::array::spec_array_fill_for_copy_type::<u8, 32>(0u8)
}

/// The bytes of the all-zero address are all zero.
pub proof fn lemma_zero_key_bytes()
    ensures
        zero_key()@ == zero_key_bytes(),
{
    broadcast use vstd::array::group_array_axioms;

    assert(zero_key()@ =~= zero_key_bytes());
}

/// Returns the all-zero address.
pub fn zero_pubkey() -> (key: Pubkey)
    ensures
        key == zero_key(),
        key@ == zero_key_bytes(),
{
    broadcast use vstd::array::group_array_axioms;

    let key: Pubkey = [0u8; 32];
    proof {
        lemma_zero_key_bytes();
    }
    assert(key@ =~= zero_key_bytes());
    assert(key =~= zero_key());
    key
}

/// Compares two addresses byte by byte.
pub fn pubkey_eq(a: &Pubkey, b: &Pubkey) -> (eq: bool)
    ensures
        eq == (a@ == b@),
{
    let mut i: usize = 0;
    while i < 32
        invariant
            i <= 32,
            forall|j: int| 0 <= j < i ==> a@[j] == b@[j],
        decreases 32 - i,
    {
        if a[i] != b[i] {
            assert(a@[i as int] != b@[i as int]);
            return false;
        }
        i = i + 1;
    }
    assert(a@ =~= b@);
    true
}

} // verus!

//! The record that the program returns: who may withdraw and stake, which vote
//! account the stake is delegated to, and how much of it is effective,
//! activating and deactivating.
use vstd::prelude::*;
use vstd::bytes::{spec_u64_to_le_bytes, u64_to_le_bytes};

use crate::pubkey::{Pubkey, zero_key, zero_pubkey, zero_key_bytes};

verus! {

/// The number of bytes of an encoded [`GetStakeActivatingAndDeactivatingReturnData`]:
/// three addresses and three little-endian `u64` amounts, with no padding.
pub const RETURN_DATA_LEN: usize = 120;

/// The return data of `GetStakeActivatingAndDeactivating`. An all-zero address
/// stands for "none".
#[derive(Clone, Copy, Debug, PartialEq, Eq)]
pub struct GetStakeActivatingAndDeactivatingReturnData {
    pub staker: Pubkey,
    pub withdrawer: Pubkey,
    pub delegated_vote: Pubkey,
    pub effective: u64,
    pub activating: u64,
    pub deactivating: u64,
}

impl GetStakeActivatingAndDeactivatingReturnData {
    /// The record with every address and amount zero.
    pub open spec fn zeroed() -> Self {
        GetStakeActivatingAndDeactivatingReturnData {
            staker: zero_key(),
            withdrawer: zero_key(),
            delegated_vote: zero_key(),
            effective: 0,
            activating: 0,
            deactivating: 0,
        }
    }

    /// All addresses zero and all amounts zero.
    pub open spec fn is_zeroed(self) -> bool {
        &&& self.staker@ == zero_key_bytes()
        &&& self.withdrawer@ == zero_key_bytes()
        &&& self.delegated_vote@ == zero_key_bytes()
        &&& self.effective == 0
        &&& self.activating == 0
        &&& self.deactivating == 0
    }

    /// The encoding of the record: the fields in declaration order, the
    /// addresses as their 32 bytes and the amounts little-endian.
    pub open spec fn spec_to_bytes(self) -> Seq<u8> {
        self.staker@ + self.withdrawer@ + self.delegated_vote@ + spec_u64_to_le_bytes(
            self.effective,
        ) + spec_u64_to_le_bytes(self.activating) + spec_u64_to_le_bytes(self.deactivating)
    }

    /// Encodes the record as the bytes that the program returns.
    pub fn to_bytes(&self) -> (bytes: Vec<u8>)
        ensures
            bytes@ == self.spec_to_bytes(),
            bytes@.len() == RETURN_DATA_LEN,
    {
        proof {
            vstd::bytes::lemma_auto_spec_u64_to_from_le_bytes();
        }
        let mut bytes: Vec<u8> = Vec::new();
        push_key(&mut bytes, &self.staker);
        push_key(&mut bytes, &self.withdrawer);
        push_key(&mut bytes, &self.delegated_vote);
        let mut effective = u64_to_le_bytes(self.effective);
        bytes.append(&mut effective);
        let mut activating = u64_to_le_bytes(self.activating);
        bytes.append(&mut activating);
        let mut deactivating = u64_to_le_bytes(self.deactivating);
        bytes.append(&mut deactivating);
        bytes
    }
}

impl Default for GetStakeActivatingAndDeactivatingReturnData {
    /// The record with every address and amount zero.
    fn default() -> (data: Self)
        ensures
            data == Self::zeroed(),
            data.is_zeroed(),
    {
        GetStakeActivatingAndDeactivatingReturnData {
            staker: zero_pubkey(),
            withdrawer: zero_pubkey(),
            delegated_vote: zero_pubkey(),
            effective: 0,
            activating: 0,
            deactivating: 0,
        }
    }
}

/// Appends the 32 bytes of `key`.
fn push_key(bytes: &mut Vec<u8>, key: &Pubkey)
    ensures
        final(bytes)@ == old(bytes)@ + key@,
{
    let ghost start = bytes@;
    let mut i: usize = 0;
    while i < 32
        invariant
            i <= 32,
            bytes@ == start + key@.subrange(0, i as int),
        decreases 32 - i,
    {
        bytes.push(key[i]);
        assert(key@.subrange(0, i + 1) =~= key@.subrange(0, i as int).push(key@[i as int]));
        i = i + 1;
    }
    assert(key@.subrange(0, 32) =~= key@);
}

} // verus!

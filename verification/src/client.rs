//! What a client reads back from the program: the return-data record with each
//! address decoded as optional.
use base64::Engine;
use vstd::prelude::*;
use vstd::bytes::{spec_u64_from_le_bytes, spec_u64_to_le_bytes, u64_from_le_bytes};

use crate::pubkey::{Pubkey, pubkey_eq, zero_pubkey, zero_key_bytes};
use crate::state::RETURN_DATA_LEN;
use crate::state::GetStakeActivatingAndDeactivatingReturnData as ProgramReturnData;

verus! {

broadcast use vstd::array::group_array_axioms;

/// Helper struct to easily handle the return data created by the
/// `GetStakeActivatingAndDeactivating` instruction. An address that the
/// program left all-zero reads as `None`.
#[derive(Clone, Copy, Debug, PartialEq, Eq)]
pub struct GetStakeActivatingAndDeactivatingReturnData {
    pub staker: Option<Pubkey>,
    pub withdrawer: Option<Pubkey>,
    pub delegated_vote: Option<Pubkey>,
    pub effective: u64,
    pub activating: u64,
    pub deactivating: u64,
}

/// Why the returned bytes could not be read as a record.
#[derive(Clone, Copy, Debug, PartialEq, Eq, Structural)]
pub enum ReturnDataError {
    /// The text is not standard base64.
    InvalidBase64,
    /// The bytes are not exactly one record long.
    SizeMismatch,
}

/// An optional address as it is stored: `None` as 32 zero bytes.
pub open spec fn optional_key_bytes(key: Option<Pubkey>) -> Seq<u8> {
    match key {
        Some(k) => k@,
        None => zero_key_bytes(),
    }
}

/// An optional address that can be stored: `Some` never holds the zero address.
pub open spec fn optional_key_wf(key: Option<Pubkey>) -> bool {
    key matches Some(k) ==> k@ != zero_key_bytes()
}

/// How a stored address reads: the zero address as `None`.
pub open spec fn optional_key_of(key: Pubkey) -> Option<Pubkey> {
    if key@ == zero_key_bytes() {
        None
    } else {
        Some(key)
    }
}

/// How an optional address is stored: `None` as the zero address.
pub open spec fn key_of_optional(key: Option<Pubkey>) -> Pubkey {
    match key {
        Some(k) => k,
        None => vstd::array::spec_array_fill_for_copy_type::<u8, 32>(0u8),
    }
}

impl GetStakeActivatingAndDeactivatingReturnData {
    /// No field holds `Some` of the zero address.
    pub open spec fn wf(self) -> bool {
        &&& optional_key_wf(self.staker)
        &&& optional_key_wf(self.withdrawer)
        &&& optional_key_wf(self.delegated_vote)
    }

    /// The bytes of the record: the fields in declaration order, each address
    /// as 32 bytes (`None` as zeros) and the amounts little-endian.
    pub open spec fn spec_to_bytes(self) -> Seq<u8> {
        optional_key_bytes(self.staker) + optional_key_bytes(self.withdrawer)
            + optional_key_bytes(self.delegated_vote) + spec_u64_to_le_bytes(self.effective)
            + spec_u64_to_le_bytes(self.activating) + spec_u64_to_le_bytes(self.deactivating)
    }

    /// Reads a record from exactly [`RETURN_DATA_LEN`] bytes. The result is the
    /// one well-formed record whose bytes are `bytes`
    /// (see [`lemma_encoding_injective`]); any other length is a size mismatch.
    pub fn try_from_bytes(bytes: &[u8]) -> (res: Result<Self, ReturnDataError>)
        ensures
            res is Ok <==> bytes@.len() == RETURN_DATA_LEN,
            res is Err ==> res == Err::<Self, ReturnDataError>(ReturnDataError::SizeMismatch),
            res matches Ok(data) ==> data.wf() && data.spec_to_bytes() == bytes@,
    {
        if bytes.len() != RETURN_DATA_LEN {
            return Err(ReturnDataError::SizeMismatch);
        }
        let staker = read_optional_key(bytes, 0);
        let withdrawer = read_optional_key(bytes, 32);
        let delegated_vote = read_optional_key(bytes, 64);
        let effective = read_u64(bytes, 96);
        let activating = read_u64(bytes, 104);
        let deactivating = read_u64(bytes, 112);
        let data = GetStakeActivatingAndDeactivatingReturnData {
            staker,
            withdrawer,
            delegated_vote,
            effective,
            activating,
            deactivating,
        };
        assert(data.spec_to_bytes() =~= bytes@);
        Ok(data)
    }
}

impl Default for GetStakeActivatingAndDeactivatingReturnData {
    /// No addresses and all amounts zero.
    fn default() -> (data: Self)
        ensures
            data.staker is None,
            data.withdrawer is None,
            data.delegated_vote is None,
            data.effective == 0,
            data.activating == 0,
            data.deactivating == 0,
    {
        GetStakeActivatingAndDeactivatingReturnData {
            staker: None,
            withdrawer: None,
            delegated_vote: None,
            effective: 0,
            activating: 0,
            deactivating: 0,
        }
    }
}

/// Reads the address stored at `start`, the zero address as `None`.
fn read_optional_key(bytes: &[u8], start: usize) -> (key: Option<Pubkey>)
    requires
        start + 32 <= bytes@.len(),
    ensures
        optional_key_wf(key),
        optional_key_bytes(key) == bytes@.subrange(start as int, start + 32),
{
    let mut k: Pubkey = [0u8; 32];
    let mut i: usize = 0;
    while i < 32
        invariant
            i <= 32,
            start + 32 <= bytes.len(),
            forall|j: int| 0 <= j < i ==> k@[j] == bytes@[start + j],
        decreases 32 - i,
    {
        k[i] = bytes[start + i];
        i = i + 1;
    }
    assert(k@ =~= bytes@.subrange(start as int, start + 32));
    let zero = zero_pubkey();
    if pubkey_eq(&k, &zero) {
        None
    } else {
        Some(k)
    }
}

/// Reads the little-endian `u64` stored at `start`.
fn read_u64(bytes: &[u8], start: usize) -> (value: u64)
    requires
        start + 8 <= bytes@.len(),
    ensures
        spec_u64_to_le_bytes(value) == bytes@.subrange(start as int, start + 8),
        value == spec_u64_from_le_bytes(bytes@.subrange(start as int, start + 8)),
{
    let mut v: Vec<u8> = Vec::new();
    let mut i: usize = 0;
    while i < 8
        invariant
            i <= 8,
            start + 8 <= bytes.len(),
            v@ == bytes@.subrange(start as int, start + i),
        decreases 8 - i,
    {
        v.push(bytes[start + i]);
        assert(bytes@.subrange(start as int, start + i + 1) =~= bytes@.subrange(
            start as int,
            start + i,
        ).push(bytes@[start + i]));
        i = i + 1;
    }
    proof {
        vstd::bytes::lemma_auto_spec_u64_to_from_le_bytes();
    }
    u64_from_le_bytes(v.as_slice())
}

/// What the standard base64 engine decodes `encoded` to; `None` where the text
/// is not valid standard base64.
pub uninterp spec fn base64_standard_decode(encoded: Seq<char>) -> Option<Seq<u8>>;

/// Trusted: `base64::engine::general_purpose::STANDARD.decode`, read as a
/// function of the text alone; its result is named
/// [`base64_standard_decode`].
#[verifier::external_body]
fn decode_base64(encoded: &str) -> (bytes: Option<Vec<u8>>)
    ensures
        match bytes {
            Some(b) => base64_standard_decode(encoded@) == Some(b@),
            None => base64_standard_decode(encoded@) is None,
        },
{
    base64::prelude::BASE64_STANDARD.decode(encoded).ok()
}

/// Reads a record from the base64 text in which an RPC node reports the
/// return data of a simulated transaction. Text that is not standard base64,
/// or that does not decode to exactly one record, is reported as an error
/// rather than panicked on; a command-line caller that wants to stop there
/// unwraps the result.
pub fn decode_return_data_base64(encoded: &str) -> (res: Result<
    GetStakeActivatingAndDeactivatingReturnData,
    ReturnDataError,
>)
    ensures
        base64_standard_decode(encoded@) is None ==> res == Err::<
            GetStakeActivatingAndDeactivatingReturnData,
            ReturnDataError,
        >(ReturnDataError::InvalidBase64),
        base64_standard_decode(encoded@) matches Some(b) ==> {
            &&& res is Ok <==> b.len() == RETURN_DATA_LEN
            &&& res is Err ==> res == Err::<
                GetStakeActivatingAndDeactivatingReturnData,
                ReturnDataError,
            >(ReturnDataError::SizeMismatch)
            &&& res matches Ok(data) ==> data.wf() && data.spec_to_bytes() == b
        },
{
    match decode_base64(encoded) {
        None => Err(ReturnDataError::InvalidBase64),
        Some(bytes) => GetStakeActivatingAndDeactivatingReturnData::try_from_bytes(
            bytes.as_slice(),
        ),
    }
}

/// How the client reads a record that the program encoded: each zero address
/// as `None`, the amounts unchanged.
pub open spec fn client_view(data: ProgramReturnData) -> GetStakeActivatingAndDeactivatingReturnData {
    GetStakeActivatingAndDeactivatingReturnData {
        staker: optional_key_of(data.staker),
        withdrawer: optional_key_of(data.withdrawer),
        delegated_vote: optional_key_of(data.delegated_vote),
        effective: data.effective,
        activating: data.activating,
        deactivating: data.deactivating,
    }
}

/// The program's record that a client record stands for: each `None` as the
/// zero address, the amounts unchanged.
pub open spec fn program_view(data: GetStakeActivatingAndDeactivatingReturnData) -> ProgramReturnData {
    ProgramReturnData {
        staker: key_of_optional(data.staker),
        withdrawer: key_of_optional(data.withdrawer),
        delegated_vote: key_of_optional(data.delegated_vote),
        effective: data.effective,
        activating: data.activating,
        deactivating: data.deactivating,
    }
}


proof fn lemma_optional_key_bytes(key: Option<Pubkey>)
    ensures
        optional_key_bytes(key).len() == 32,
{
}

proof fn lemma_optional_key_injective(a: Option<Pubkey>, b: Option<Pubkey>)
    requires
        optional_key_wf(a),
        optional_key_wf(b),
        optional_key_bytes(a) == optional_key_bytes(b),
    ensures
        a == b,
{
    if let (Some(ka), Some(kb)) = (a, b) {
        assert(ka =~= kb);
    }
}

/// Two well-formed client records with the same bytes are the same record, so
/// [`GetStakeActivatingAndDeactivatingReturnData::try_from_bytes`] determines
/// its result.
pub proof fn lemma_encoding_injective(
    a: GetStakeActivatingAndDeactivatingReturnData,
    b: GetStakeActivatingAndDeactivatingReturnData,
)
    requires
        a.wf(),
        b.wf(),
        a.spec_to_bytes() == b.spec_to_bytes(),
    ensures
        a == b,
{
    vstd::bytes::lemma_auto_spec_u64_to_from_le_bytes();
    lemma_optional_key_bytes(a.staker);
    lemma_optional_key_bytes(a.withdrawer);
    lemma_optional_key_bytes(a.delegated_vote);
    lemma_optional_key_bytes(b.staker);
    lemma_optional_key_bytes(b.withdrawer);
    lemma_optional_key_bytes(b.delegated_vote);
    let x = a.spec_to_bytes();
    assert(x.subrange(0, 32) =~= optional_key_bytes(a.staker));
    assert(x.subrange(0, 32) =~= optional_key_bytes(b.staker));
    assert(x.subrange(32, 64) =~= optional_key_bytes(a.withdrawer));
    assert(x.subrange(32, 64) =~= optional_key_bytes(b.withdrawer));
    assert(x.subrange(64, 96) =~= optional_key_bytes(a.delegated_vote));
    assert(x.subrange(64, 96) =~= optional_key_bytes(b.delegated_vote));
    assert(x.subrange(96, 104) =~= spec_u64_to_le_bytes(a.effective));
    assert(x.subrange(96, 104) =~= spec_u64_to_le_bytes(b.effective));
    assert(x.subrange(104, 112) =~= spec_u64_to_le_bytes(a.activating));
    assert(x.subrange(104, 112) =~= spec_u64_to_le_bytes(b.activating));
    assert(x.subrange(112, 120) =~= spec_u64_to_le_bytes(a.deactivating));
    assert(x.subrange(112, 120) =~= spec_u64_to_le_bytes(b.deactivating));
    lemma_optional_key_injective(a.staker, b.staker);
    lemma_optional_key_injective(a.withdrawer, b.withdrawer);
    lemma_optional_key_injective(a.delegated_vote, b.delegated_vote);
}

/// What a client reads from the bytes that the program returns is the
/// program's record with every zero address read as `None`: whatever
/// [`GetStakeActivatingAndDeactivatingReturnData::try_from_bytes`] returns on
/// `p.to_bytes()` is `client_view(p)`.
pub proof fn lemma_client_reads_program(
    p: ProgramReturnData,
    d: GetStakeActivatingAndDeactivatingReturnData,
)
    requires
        d.wf(),
        d.spec_to_bytes() == p.spec_to_bytes(),
    ensures
        d == client_view(p),
{
    let c = client_view(p);
    assert(optional_key_bytes(c.staker) == p.staker@);
    assert(optional_key_bytes(c.withdrawer) == p.withdrawer@);
    assert(optional_key_bytes(c.delegated_vote) == p.delegated_vote@);
    assert(c.spec_to_bytes() =~= p.spec_to_bytes());
    lemma_encoding_injective(c, d);
}

proof fn lemma_key_of_optional(key: Option<Pubkey>)
    ensures
        key_of_optional(key)@ == optional_key_bytes(key),
{
    if key is None {
        assert(key_of_optional(key)@ =~= zero_key_bytes());
    }
}

/// Nothing is lost in reading: the program's record that a client record
/// stands for encodes to the same bytes, so the client record can be read from
/// those bytes again.
pub proof fn lemma_program_view_same_bytes(d: GetStakeActivatingAndDeactivatingReturnData)
    ensures
        program_view(d).spec_to_bytes() == d.spec_to_bytes(),
{
    lemma_key_of_optional(d.staker);
    lemma_key_of_optional(d.withdrawer);
    lemma_key_of_optional(d.delegated_vote);
}

} // verus!

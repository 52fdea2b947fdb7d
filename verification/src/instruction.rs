//! The instructions that the program accepts.
use vstd::prelude::*;

verus! {

/// The instructions of the SOL stake view program. The first byte of the
/// instruction data is the instruction's discriminant.
#[derive(Clone, Copy, Debug, PartialEq, Eq, Structural)]
pub enum SolStakeViewInstruction {
    /// Outputs the staker and withdrawer of a stake account, the validator vote
    /// account that it is delegated to, and its effective, activating and
    /// deactivating SOL stake amount. An account that the stake program does
    /// not own gives the all-zero record.
    ///
    /// Accounts: `[0]` the target SOL stake account; `[1]` the stake history
    /// sysvar.
    GetStakeActivatingAndDeactivating,
}

/// The discriminant of an instruction.
pub open spec fn discriminant(instruction: SolStakeViewInstruction) -> u8 {
    match instruction {
        SolStakeViewInstruction::GetStakeActivatingAndDeactivating => 0,
    }
}

/// The instruction whose discriminant is `value`, if there is one.
pub open spec fn instruction_of(value: u8) -> Option<SolStakeViewInstruction> {
    if value == 0 {
        Some(SolStakeViewInstruction::GetStakeActivatingAndDeactivating)
    } else {
        None
    }
}

impl SolStakeViewInstruction {
    /// The instruction whose discriminant is `value`; `None` for any other byte.
    pub fn from_u8(value: u8) -> (instruction: Option<Self>)
        ensures
            instruction == instruction_of(value),
    {
        if value == 0 {
            Some(SolStakeViewInstruction::GetStakeActivatingAndDeactivating)
        } else {
            None
        }
    }

    /// The discriminant of this instruction; every instruction has one.
    pub fn to_u8(&self) -> (value: Option<u8>)
        ensures
            value == Some(discriminant(*self)),
    {
        match self {
            SolStakeViewInstruction::GetStakeActivatingAndDeactivating => Some(0),
        }
    }
}

/// Decoding the discriminant of an instruction gives the instruction back.
pub proof fn lemma_decode_encode(instruction: SolStakeViewInstruction)
    ensures
        instruction_of(discriminant(instruction)) == Some(instruction),
{
}

/// A byte that decodes to an instruction is that instruction's discriminant.
pub proof fn lemma_encode_decode(value: u8)
    ensures
        instruction_of(value) matches Some(instruction) ==> discriminant(instruction) == value,
{
}

} // verus!

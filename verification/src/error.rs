//! Why the program refuses an instruction.
use vstd::prelude::*;

verus! {

/// The errors of the program; each stands for the program error of the same
/// name, and [`StakeViewError::Sysvar`] carries the code of the program error
/// that reading a sysvar reported.
#[derive(Clone, Debug, PartialEq, Eq)]
pub enum StakeViewError {
    /// The instruction data is empty or names no instruction, or the second
    /// account is not the stake history sysvar.
    InvalidArgument,
    /// Fewer accounts than the instruction reads.
    NotEnoughAccountKeys,
    /// The stake history account does not hold a stake history.
    InvalidAccountData,
    /// The stake account's data could not be read as a stake state; the message
    /// of the I/O error.
    BorshIoError(String),
    /// Reading the clock sysvar failed with this program-error code.
    Sysvar(u64),
    /// The stake history's entries could make the delegation's warm-up
    /// overflow a `u64`, so its activation status is not computed.
    ArithmeticOverflow,
}

} // verus!

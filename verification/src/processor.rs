//! The program's instruction processing: which accounts it checks, what it
//! reads from them and what record it returns.
use vstd::prelude::*;

use crate::error::StakeViewError;
use crate::instruction::{instruction_of, SolStakeViewInstruction};
use crate::pubkey::{Pubkey, pubkey_eq, zero_key};
use crate::stake::{
    current_epoch, decode_stake_history, decode_stake_state,
    stake_activating_and_deactivating, stake_activation, stake_history_entries,
    stake_history_from_bincode, stake_history_sysvar_id, stake_history_sysvar_key,
    stake_program_id, stake_program_key, stake_state_from_borsh, warm_up_bounded,
    warm_up_cannot_overflow, lemma_no_activation_entry_cannot_overflow, stake_history_get_entry,
    Authorized, Delegation, StakeActivationStatus, StakeState,
};
use crate::state::GetStakeActivatingAndDeactivatingReturnData;
use solana_program::sysvar::stake_history::StakeHistory;

verus! {

/// What the program reads of an account passed to it: its address, the
/// program that owns it, and its data.
#[derive(Clone, Copy, Debug, PartialEq, Eq)]
pub struct AccountView<'a> {
    pub key: Pubkey,
    pub owner: Pubkey,
    pub data: &'a [u8],
}

/// The result of processing an instruction: the record to return, or why the
/// instruction was refused.
pub type StakeViewResult = Result<GetStakeActivatingAndDeactivatingReturnData, StakeViewError>;

/// The epoch from which the lower warm-up and cool-down rate applies, as the
/// program passes it to the stake interface.
pub open spec fn new_rate_activation_epoch() -> Option<u64> {
    Some(0u64)
}

/// The record for a stake account in state `state`, given the activation
/// status of its delegation at the current epoch (`None` when it has none):
/// the authorities of an initialized account, and, for a delegation with any
/// stake effective, activating or deactivating, its vote account and those
/// amounts; every other field zero.
pub open spec fn spec_stake_view(
    state: StakeState,
    activation: Option<StakeActivationStatus>,
) -> GetStakeActivatingAndDeactivatingReturnData {
    let zero = GetStakeActivatingAndDeactivatingReturnData::zeroed();
    let authorized = match state.spec_authorized() {
        Some(a) => GetStakeActivatingAndDeactivatingReturnData {
            staker: a.staker,
            withdrawer: a.withdrawer,
            ..zero
        },
        None => zero,
    };
    match (state.spec_delegation(), activation) {
        (Some(d), Some(s)) => if s.effective != 0 || s.activating != 0 || s.deactivating != 0 {
            GetStakeActivatingAndDeactivatingReturnData {
                delegated_vote: d.voter_pubkey,
                effective: s.effective,
                activating: s.activating,
                deactivating: s.deactivating,
                ..authorized
            }
        } else {
            authorized
        },
        _ => authorized,
    }
}

/// Builds the record for a stake account in state `state`, given the
/// activation status of its delegation (see [`spec_stake_view`]).
pub fn stake_view(
    state: &StakeState,
    activation: Option<StakeActivationStatus>,
) -> (data: GetStakeActivatingAndDeactivatingReturnData)
    ensures
        data == spec_stake_view(*state, activation),
        *state matches StakeState::Initialized(a) ==> data.staker == a.staker && data.withdrawer
            == a.withdrawer,
        *state matches StakeState::Stake(a, _) ==> data.staker == a.staker && data.withdrawer
            == a.withdrawer,
        (*state is Uninitialized || *state is RewardsPool) ==> data.staker == zero_key()
            && data.withdrawer == zero_key(),
        *state matches StakeState::Stake(_, d) ==> (activation matches Some(s) ==> ((s.effective
            != 0 || s.activating != 0 || s.deactivating != 0) ==> {
            &&& data.delegated_vote == d.voter_pubkey
            &&& data.effective == s.effective
            &&& data.activating == s.activating
            &&& data.deactivating == s.deactivating
        })),
        (!(*state is Stake) || activation is None) ==> {
            &&& data.delegated_vote == zero_key()
            &&& data.effective == 0
            &&& data.activating == 0
            &&& data.deactivating == 0
        },
        activation matches Some(s) ==> ((s.effective == 0 && s.activating == 0 && s.deactivating
            == 0) ==> {
            &&& data.delegated_vote == zero_key()
            &&& data.effective == 0
            &&& data.activating == 0
            &&& data.deactivating == 0
        }),
{
    let mut data = GetStakeActivatingAndDeactivatingReturnData::default();
    if let Some(authorized) = state.authorized() {
        data.staker = authorized.staker;
        data.withdrawer = authorized.withdrawer;
    }
    if let Some(delegation) = state.delegation() {
        if let Some(status) = activation {
            if status.effective != 0 || status.activating != 0 || status.deactivating != 0 {
                data.delegated_vote = delegation.voter_pubkey;
                data.effective = status.effective;
                data.activating = status.activating;
                data.deactivating = status.deactivating;
            }
        }
    }
    data
}

/// The activation status at `epoch` of the delegation of a stake account in
/// state `state`, from the cluster's stake history `history`, with the lower
/// warm-up and cool-down rate in force from epoch 0; `None` for an account
/// without delegation.
pub open spec fn spec_activation_at_epoch(
    state: StakeState,
    history: StakeHistory,
    epoch: u64,
) -> Option<StakeActivationStatus> {
    match state.spec_delegation() {
        Some(d) => Some(
            stake_activation(
                d.stake,
                d.activation_epoch,
                d.deactivation_epoch,
                epoch,
                stake_history_entries(history),
                new_rate_activation_epoch(),
            ),
        ),
        None => None,
    }
}

/// The entries of the stake history that the warm-up of the delegation of
/// `state` reads on its way to `epoch` cannot make it overflow (see
/// [`warm_up_cannot_overflow`]); nothing is asked of an account without
/// delegation.
pub open spec fn warm_up_safe(
    state: StakeState,
    entries: Seq<(u64, StakeActivationStatus)>,
    epoch: u64,
) -> bool {
    state.spec_delegation() matches Some(d) ==> warm_up_cannot_overflow(
        d.stake,
        d.activation_epoch,
        d.deactivation_epoch,
        epoch,
        entries,
    )
}

/// Builds the record for a stake account in state `state` at epoch `epoch`,
/// from the cluster's stake history `history`, whose entries must not make the
/// warm-up overflow ([`get_stake_activating_and_deactivating`] tests this).
pub fn stake_view_at_epoch(
    state: &StakeState,
    history: &StakeHistory,
    epoch: u64,
) -> (data: GetStakeActivatingAndDeactivatingReturnData)
    requires
        warm_up_safe(*state, stake_history_entries(*history), epoch),
    ensures
        data == spec_stake_view(*state, spec_activation_at_epoch(*state, *history, epoch)),
{
    let activation = match state.delegation() {
        Some(delegation) => Some(
            stake_activating_and_deactivating(&delegation, epoch, history, Some(0)),
        ),
        None => None,
    };
    stake_view(state, activation)
}

/// The result for a stake account in state `state`, whose delegation (if
/// any) is read over a stake history holding `entries`, when reading the clock
/// gives `clock`: for a delegation, the clock's error as `Sysvar`;
/// `ArithmeticOverflow` where the history could make the warm-up at the
/// clock's epoch overflow; otherwise the record with the delegation's
/// activation status at that epoch, with the lower rate in force from epoch 0.
/// Without delegation the clock is not read and the result is the record
/// without activation.
pub open spec fn spec_stake_view_for_clock(
    state: StakeState,
    entries: Seq<(u64, StakeActivationStatus)>,
    clock: Result<u64, u64>,
) -> StakeViewResult {
    match state.spec_delegation() {
        None => StakeViewResult::Ok(spec_stake_view(state, None)),
        Some(d) => match clock {
            Err(code) => StakeViewResult::Err(StakeViewError::Sysvar(code)),
            Ok(epoch) => if warm_up_safe(state, entries, epoch) {
                StakeViewResult::Ok(
                    spec_stake_view(
                        state,
                        Some(
                            stake_activation(
                                d.stake,
                                d.activation_epoch,
                                d.deactivation_epoch,
                                epoch,
                                entries,
                                new_rate_activation_epoch(),
                            ),
                        ),
                    ),
                )
            } else {
                StakeViewResult::Err(StakeViewError::ArithmeticOverflow)
            },
        },
    }
}

/// Builds the result for a stake account in state `state` over the stake
/// history `history`, given the outcome of reading the clock (see
/// [`spec_stake_view_for_clock`]).
pub fn stake_view_for_clock(
    state: &StakeState,
    history: &StakeHistory,
    clock: Result<u64, u64>,
) -> (res: StakeViewResult)
    ensures
        res == spec_stake_view_for_clock(*state, stake_history_entries(*history), clock),
        *state is Stake ==> (clock matches Err(code) ==> res == StakeViewResult::Err(
            StakeViewError::Sysvar(code),
        )),
        *state matches StakeState::Stake(a, d) ==> (clock matches Ok(epoch) ==> (
        warm_up_cannot_overflow(
            d.stake,
            d.activation_epoch,
            d.deactivation_epoch,
            epoch,
            stake_history_entries(*history),
        ) ==> (res matches Ok(data) && {
            let status = stake_activation(
                d.stake,
                d.activation_epoch,
                d.deactivation_epoch,
                epoch,
                stake_history_entries(*history),
                Some(0u64),
            );
            &&& data.staker == a.staker
            &&& data.withdrawer == a.withdrawer
            &&& (status.effective != 0 || status.activating != 0 || status.deactivating != 0) ==> {
                &&& data.delegated_vote == d.voter_pubkey
                &&& data.effective == status.effective
                &&& data.activating == status.activating
                &&& data.deactivating == status.deactivating
            }
            &&& (status.effective == 0 && status.activating == 0 && status.deactivating == 0) ==> {
                &&& data.delegated_vote == zero_key()
                &&& data.effective == 0
                &&& data.activating == 0
                &&& data.deactivating == 0
            }
        }))),
        *state matches StakeState::Stake(_, d) ==> (clock matches Ok(epoch) ==> (
        !warm_up_cannot_overflow(
            d.stake,
            d.activation_epoch,
            d.deactivation_epoch,
            epoch,
            stake_history_entries(*history),
        ) ==> res == StakeViewResult::Err(StakeViewError::ArithmeticOverflow))),
        *state matches StakeState::Stake(_, d) ==> ((clock is Ok && (forall|i: int|
            0 <= i < stake_history_entries(*history).len()
                ==> #[trigger] stake_history_entries(*history)[i].0 != d.activation_epoch))
            ==> res is Ok),
        !(*state is Stake) ==> (res matches Ok(data) && data.delegated_vote == zero_key()
            && data.effective == 0 && data.activating == 0 && data.deactivating == 0),
{
    match state.delegation() {
        None => Ok(stake_view(state, None)),
        Some(delegation) => match clock {
            Err(code) => Err(StakeViewError::Sysvar(code)),
            Ok(epoch) => if warm_up_bounded(&delegation, epoch, history) {
                Ok(stake_view_at_epoch(state, history, epoch))
            } else {
                Err(StakeViewError::ArithmeticOverflow)
            },
        },
    }
}

/// The result of `GetStakeActivatingAndDeactivating` on `accounts` when
/// reading the clock gives `clock` (its epoch, or the code of its error), in
/// the order in which it checks:
/// - fewer than two accounts: `NotEnoughAccountKeys`;
/// - the second account is not the stake history sysvar: `InvalidArgument`;
/// - the first account is not owned by the stake program: the zeroed record;
/// - its data is not a stake state: `BorshIoError` with the reader's message;
/// - a stake state without delegation: its record without activation;
/// - with a delegation, the stake history account's data is not a stake
///   history: `InvalidAccountData`;
/// - the clock reports an error: `Sysvar` with its code;
/// - the history's entries could make the warm-up at the clock's epoch
///   overflow: `ArithmeticOverflow`;
/// - otherwise the record with the delegation's activation status at the
///   clock's epoch, from that history, with the lower rate in force from
///   epoch 0.
/// The clock is read only in the last three cases; `res` is fixed by
/// `accounts` and `clock` up to the text of a `BorshIoError` message, which is
/// fixed as a sequence of characters.
pub open spec fn spec_stake_view_with_clock(
    accounts: Seq<AccountView<'_>>,
    clock: Result<u64, u64>,
    res: StakeViewResult,
) -> bool {
    if accounts.len() < 2 {
        res == StakeViewResult::Err(StakeViewError::NotEnoughAccountKeys)
    } else if accounts[1].key@ != stake_history_sysvar_key() {
        res == StakeViewResult::Err(StakeViewError::InvalidArgument)
    } else if accounts[0].owner@ != stake_program_key() {
        res == StakeViewResult::Ok(GetStakeActivatingAndDeactivatingReturnData::zeroed())
    } else {
        match stake_state_from_borsh(accounts[0].data@) {
            Err(message) => res matches Err(StakeViewError::BorshIoError(m)) && m@ == message,
            Ok(state) => match state.spec_delegation() {
                None => res == StakeViewResult::Ok(spec_stake_view(state, None)),
                Some(d) => match stake_history_from_bincode(accounts[1].data@) {
                    None => res == StakeViewResult::Err(StakeViewError::InvalidAccountData),
                    Some(entries) => res == spec_stake_view_for_clock(state, entries, clock),
                },
            },
        }
    }
}

/// The results that `GetStakeActivatingAndDeactivating` may give on
/// `accounts`: the result for some outcome of reading the clock (see
/// [`spec_stake_view_with_clock`]); the clock's outcome comes from the runtime.
pub open spec fn spec_stake_view_result(accounts: Seq<AccountView<'_>>, res: StakeViewResult) -> bool {
    exists|clock: Result<u64, u64>| #[trigger] spec_stake_view_with_clock(accounts, clock, res)
}

/// Reads the stake account `accounts[0]` with the stake history sysvar
/// `accounts[1]` and builds its record (see [`spec_stake_view_result`]).
pub fn get_stake_activating_and_deactivating(accounts: &[AccountView<'_>]) -> (res: StakeViewResult)
    ensures
        spec_stake_view_result(accounts@, res),
{
    let ghost unread: Result<u64, u64> = Err(0);
    if accounts.len() < 2 {
        let res = Err(StakeViewError::NotEnoughAccountKeys);
        assert(spec_stake_view_with_clock(accounts@, unread, res));
        return res;
    }
    let stake_info = &accounts[0];
    let stake_history_info = &accounts[1];
    let history_id = stake_history_sysvar_id();
    if !pubkey_eq(&stake_history_info.key, &history_id) {
        let res = Err(StakeViewError::InvalidArgument);
        assert(spec_stake_view_with_clock(accounts@, unread, res));
        return res;
    }
    // if it's not a SOL stake, that's fine, all zeros
    let stake_program = stake_program_id();
    if !pubkey_eq(&stake_info.owner, &stake_program) {
        let res = Ok(GetStakeActivatingAndDeactivatingReturnData::default());
        assert(spec_stake_view_with_clock(accounts@, unread, res));
        return res;
    }
    let state = match decode_stake_state(stake_info.data) {
        Ok(state) => state,
        Err(message) => {
            let res = Err(StakeViewError::BorshIoError(message));
            assert(spec_stake_view_with_clock(accounts@, unread, res));
            return res;
        },
    };
    // if not delegated, that's fine, no amounts
    match state.delegation() {
        None => {
            let res = Ok(stake_view(&state, None));
            assert(spec_stake_view_with_clock(accounts@, unread, res));
            res
        },
        Some(delegation) => {
            let history = match decode_stake_history(stake_history_info.data) {
                Some(history) => history,
                None => {
                    let res = Err(StakeViewError::InvalidAccountData);
                    assert(spec_stake_view_with_clock(accounts@, unread, res));
                    return res;
                },
            };
            let clock = current_epoch();
            let res = stake_view_for_clock(&state, &history, clock);
            assert(spec_stake_view_with_clock(accounts@, clock, res));
            res
        },
    }
}

/// The result of an instruction with data `data` on `accounts` when reading
/// the clock gives `clock`: empty data or a first byte that names no
/// instruction is refused with `InvalidArgument`; otherwise the result of the
/// instruction it names. The program's address is not read.
pub open spec fn spec_process_with_clock(
    program_id: Pubkey,
    data: Seq<u8>,
    accounts: Seq<AccountView<'_>>,
    clock: Result<u64, u64>,
    res: StakeViewResult,
) -> bool {
    if data.len() == 0 {
        res == StakeViewResult::Err(StakeViewError::InvalidArgument)
    } else {
        match instruction_of(data[0]) {
            None => res == StakeViewResult::Err(StakeViewError::InvalidArgument),
            Some(SolStakeViewInstruction::GetStakeActivatingAndDeactivating) => {
                spec_stake_view_with_clock(accounts, clock, res)
            },
        }
    }
}

/// Processes an instruction: its first byte names it, and an empty or unknown
/// instruction is refused with `InvalidArgument`. The program's address is not
/// read.
pub fn process_instruction(
    _program_id: &Pubkey,
    accounts: &[AccountView<'_>],
    instruction_data: &[u8],
) -> (res: StakeViewResult)
    ensures
        exists|clock: Result<u64, u64>|
            #[trigger] spec_process_with_clock(
                *_program_id,
                instruction_data@,
                accounts@,
                clock,
                res,
            ),
        instruction_data@.len() == 0 ==> res == StakeViewResult::Err(
            StakeViewError::InvalidArgument,
        ),
        instruction_data@.len() > 0 && instruction_of(instruction_data@[0]) is None ==> res
            == StakeViewResult::Err(StakeViewError::InvalidArgument),
        instruction_data@.len() > 0 && instruction_of(instruction_data@[0]) == Some(
            SolStakeViewInstruction::GetStakeActivatingAndDeactivating,
        ) ==> spec_stake_view_result(accounts@, res),
{
    let ghost unread: Result<u64, u64> = Err(0);
    if instruction_data.len() == 0 {
        let res = Err(StakeViewError::InvalidArgument);
        assert(spec_process_with_clock(*_program_id, instruction_data@, accounts@, unread, res));
        return res;
    }
    match SolStakeViewInstruction::from_u8(instruction_data[0]) {
        None => {
            let res = Err(StakeViewError::InvalidArgument);
            assert(spec_process_with_clock(*_program_id, instruction_data@, accounts@, unread, res));
            res
        },
        Some(SolStakeViewInstruction::GetStakeActivatingAndDeactivating) => {
            let res = get_stake_activating_and_deactivating(accounts);
            let ghost clock = choose|clock: Result<u64, u64>|
                spec_stake_view_with_clock(accounts@, clock, res);
            assert(spec_process_with_clock(*_program_id, instruction_data@, accounts@, clock, res));
            res
        },
    }
}

/// The instruction reads only the first byte of its data and not the
/// program's address: data with the same first byte gives the same results
/// under the same clock, for any program address; and with first byte 0 those
/// are the results of `GetStakeActivatingAndDeactivating`.
pub proof fn lemma_process_reads_first_byte(
    program_a: Pubkey,
    program_b: Pubkey,
    data_a: Seq<u8>,
    data_b: Seq<u8>,
    accounts: Seq<AccountView<'_>>,
    clock: Result<u64, u64>,
    res: StakeViewResult,
)
    requires
        data_a.len() > 0,
        data_b.len() > 0,
        data_a[0] == data_b[0],
    ensures
        spec_process_with_clock(program_a, data_a, accounts, clock, res)
            == spec_process_with_clock(program_b, data_b, accounts, clock, res),
        data_a[0] == 0 ==> spec_process_with_clock(program_a, data_a, accounts, clock, res)
            == spec_stake_view_with_clock(accounts, clock, res),
{
}

/// Two results are the same: equal records, or equal errors, a `BorshIoError`
/// message compared as a sequence of characters.
pub open spec fn same_result(a: StakeViewResult, b: StakeViewResult) -> bool {
    match (a, b) {
        (Ok(x), Ok(y)) => x == y,
        (Err(StakeViewError::BorshIoError(m)), Err(StakeViewError::BorshIoError(n))) => m@ == n@,
        (Err(e), Err(f)) => e == f,
        _ => false,
    }
}

/// Apart from the accounts, the only outside value the instruction reads is
/// the clock: the same accounts under the same clock outcome give the same
/// result.
pub proof fn lemma_same_clock_same_result(
    accounts: Seq<AccountView<'_>>,
    clock: Result<u64, u64>,
    a: StakeViewResult,
    b: StakeViewResult,
)
    requires
        spec_stake_view_with_clock(accounts, clock, a),
        spec_stake_view_with_clock(accounts, clock, b),
    ensures
        same_result(a, b),
{
}

/// An account whose delegation has no stake effective, activating or
/// deactivating reads as if it had no delegation: only its authorities are
/// set.
pub proof fn lemma_inactive_reads_as_undelegated(state: StakeState, status: StakeActivationStatus)
    requires
        status.effective == 0,
        status.activating == 0,
        status.deactivating == 0,
    ensures
        spec_stake_view(state, Some(status)) == spec_stake_view(state, None),
{
}

/// The record never names a vote account without stake: when every amount is
/// zero, the delegated vote is the zero address; and the authorities are those
/// of the stake state, or zero when it has none.
pub proof fn lemma_stake_view_fields(state: StakeState, activation: Option<StakeActivationStatus>)
    ensures
        ({
            let data = spec_stake_view(state, activation);
            &&& (data.effective == 0 && data.activating == 0 && data.deactivating == 0) ==> data.delegated_vote == zero_key()
            &&& state.spec_authorized() matches Some(a) ==> data.staker == a.staker && data.withdrawer == a.withdrawer
            &&& state.spec_authorized() is None ==> data.staker == zero_key() && data.withdrawer == zero_key()
            &&& state.spec_delegation() is None ==> data.effective == 0 && data.activating == 0 && data.deactivating == 0
        }),
{
}


/// The record shows the amounts of the activation status it is given, each in
/// its own field, and the delegation's vote account, whenever any amount is
/// nonzero; and the authorities that the stake state stores.
pub proof fn lemma_record_shows_status(a: Authorized, d: Delegation, s: StakeActivationStatus)
    requires
        s.effective != 0 || s.activating != 0 || s.deactivating != 0,
    ensures
        spec_stake_view(StakeState::Stake(a, d), Some(s)) == (GetStakeActivatingAndDeactivatingReturnData {
            staker: a.staker,
            withdrawer: a.withdrawer,
            delegated_vote: d.voter_pubkey,
            effective: s.effective,
            activating: s.activating,
            deactivating: s.deactivating,
        }),
{
}

/// The record's staker and withdrawer are those that the stake state stores,
/// whatever the activation status.
pub proof fn lemma_record_shows_authorities(
    a: Authorized,
    d: Delegation,
    activation: Option<StakeActivationStatus>,
)
    ensures
        spec_stake_view(StakeState::Initialized(a), activation).staker == a.staker,
        spec_stake_view(StakeState::Initialized(a), activation).withdrawer == a.withdrawer,
        spec_stake_view(StakeState::Stake(a, d), activation).staker == a.staker,
        spec_stake_view(StakeState::Stake(a, d), activation).withdrawer == a.withdrawer,
{
}

/// For a delegated account and a clock at epoch `epoch`, where the warm-up
/// cannot overflow, the result is the record of the delegation's activation
/// status at `epoch` itself, for every epoch, before or after the
/// deactivation epoch.
pub proof fn lemma_status_at_clock_epoch(
    a: Authorized,
    d: Delegation,
    entries: Seq<(u64, StakeActivationStatus)>,
    epoch: u64,
)
    requires
        warm_up_cannot_overflow(d.stake, d.activation_epoch, d.deactivation_epoch, epoch, entries),
    ensures
        spec_stake_view_for_clock(StakeState::Stake(a, d), entries, Ok(epoch)) == StakeViewResult::Ok(
            spec_stake_view(
                StakeState::Stake(a, d),
                Some(
                    stake_activation(
                        d.stake,
                        d.activation_epoch,
                        d.deactivation_epoch,
                        epoch,
                        entries,
                        Some(0u64),
                    ),
                ),
            ),
        ),
{
}

/// A history without an entry for the delegation's activation epoch never
/// leads to `ArithmeticOverflow`: with the clock read, the result is the
/// record, at any epoch.
pub proof fn lemma_missing_activation_entry_gives_record(
    a: Authorized,
    d: Delegation,
    entries: Seq<(u64, StakeActivationStatus)>,
    epoch: u64,
)
    requires
        stake_history_get_entry(entries, d.activation_epoch) is None,
    ensures
        spec_stake_view_for_clock(StakeState::Stake(a, d), entries, Ok(epoch)) is Ok,
{
    lemma_no_activation_entry_cannot_overflow(
        d.stake,
        d.activation_epoch,
        d.deactivation_epoch,
        epoch,
        entries,
    );
}

} // verus!

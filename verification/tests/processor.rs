use paladin_sol_stake_view_program::client::GetStakeActivatingAndDeactivatingReturnData as ClientData;
use paladin_sol_stake_view_program::error::StakeViewError;
use paladin_sol_stake_view_program::processor::{
    process_instruction, stake_view, stake_view_at_epoch, stake_view_for_clock, AccountView,
};
use paladin_sol_stake_view_program::stake::{
    warm_up_bounded,
    Authorized, Delegation, StakeActivationStatus, StakeState,
};
use paladin_sol_stake_view_program::state::GetStakeActivatingAndDeactivatingReturnData as ProgramData;
use solana_program::program_error::ProgramError;
use solana_program::pubkey::Pubkey as SolanaPubkey;
use solana_program::stake::stake_flags::StakeFlags;
use solana_program::stake::state as stake_state;
use solana_program::sysvar::stake_history::{StakeHistory, StakeHistoryEntry};

const STAKE_AMOUNT: u64 = 1_000_000_000;

fn payer() -> [u8; 32] {
    [7u8; 32]
}

fn vote() -> [u8; 32] {
    [9u8; 32]
}

fn stake_program() -> [u8; 32] {
    solana_program::stake::program::id().to_bytes()
}

fn stake_history_id() -> [u8; 32] {
    solana_program::sysvar::stake_history::id().to_bytes()
}

fn padded(mut data: Vec<u8>) -> Vec<u8> {
    data.resize(200, 0);
    data
}

fn initialized_stake_data() -> Vec<u8> {
    let meta = stake_state::Meta::auto(&SolanaPubkey::new_from_array(payer()));
    padded(bincode::serialize(&stake_state::StakeStateV2::Initialized(meta)).unwrap())
}

fn delegated_stake_data() -> Vec<u8> {
    let meta = stake_state::Meta::auto(&SolanaPubkey::new_from_array(payer()));
    let stake = stake_state::Stake {
        delegation: stake_state::Delegation::new(
            &SolanaPubkey::new_from_array(vote()),
            STAKE_AMOUNT,
            0,
        ),
        credits_observed: 0,
    };
    padded(bincode::serialize(&stake_state::StakeStateV2::Stake(meta, stake, StakeFlags::empty())).unwrap())
}

fn history_data() -> Vec<u8> {
    let mut history = StakeHistory::default();
    history.add(
        0,
        StakeHistoryEntry {
            effective: 0,
            activating: STAKE_AMOUNT,
            deactivating: 0,
        },
    );
    bincode::serialize(&history).unwrap()
}

struct Fixture {
    stake_owner: [u8; 32],
    stake_data: Vec<u8>,
    history_key: [u8; 32],
    history: Vec<u8>,
}

impl Fixture {
    fn views(&self) -> Vec<AccountView<'_>> {
        vec![
            AccountView { key: [3u8; 32], owner: self.stake_owner, data: &self.stake_data },
            AccountView { key: self.history_key, owner: [0u8; 32], data: &self.history },
        ]
    }
}

fn accounts(stake_owner: [u8; 32], stake_data: Vec<u8>, history_key: [u8; 32], history: Vec<u8>) -> Fixture {
    Fixture { stake_owner, stake_data, history_key, history }
}

fn view(data: &ProgramData) -> ClientData {
    ClientData::try_from_bytes(&data.to_bytes()).unwrap()
}

fn authorized() -> Authorized {
    Authorized { staker: payer(), withdrawer: payer() }
}

fn delegated_state(activation_epoch: u64, deactivation_epoch: u64) -> StakeState {
    let model = Delegation {
        voter_pubkey: vote(),
        stake: STAKE_AMOUNT,
        activation_epoch,
        deactivation_epoch,
    };
    StakeState::Stake(authorized(), model)
}

/// The cluster's history after the delegation at epoch 0 and its deactivation
/// at epoch 1, with a large bootstrap stake already effective.
fn cluster_history() -> StakeHistory {
    let mut history = StakeHistory::default();
    history.add(
        0,
        StakeHistoryEntry { effective: 1_000_000_000_000, activating: STAKE_AMOUNT, deactivating: 0 },
    );
    history.add(
        1,
        StakeHistoryEntry {
            effective: 1_000_000_000_000 + STAKE_AMOUNT,
            activating: 0,
            deactivating: STAKE_AMOUNT,
        },
    );
    history
}

#[test]
fn success_undelegated() {
    let fixture = accounts(stake_program(), initialized_stake_data(), stake_history_id(), history_data());
    let accounts = fixture.views();
    let data = process_instruction(&[1u8; 32], &accounts, &[0]).unwrap();
    let expected = ClientData {
        staker: Some(payer()),
        withdrawer: Some(payer()),
        ..Default::default()
    };
    assert_eq!(expected, view(&data));
}

#[test]
fn success_activating() {
    let state = delegated_state(0, u64::MAX);
    let data = stake_view_at_epoch(&state, &StakeHistory::default(), 0);
    let expected = ClientData {
        staker: Some(payer()),
        withdrawer: Some(payer()),
        delegated_vote: Some(vote()),
        activating: STAKE_AMOUNT,
        ..Default::default()
    };
    assert_eq!(expected, view(&data));
}

#[test]
fn success_effective() {
    let state = delegated_state(0, u64::MAX);
    let data = stake_view_at_epoch(&state, &cluster_history(), 1);
    let expected = ClientData {
        staker: Some(payer()),
        withdrawer: Some(payer()),
        delegated_vote: Some(vote()),
        effective: STAKE_AMOUNT,
        ..Default::default()
    };
    assert_eq!(expected, view(&data));
}

#[test]
fn success_deactivating() {
    let state = delegated_state(0, 1);
    let data = stake_view_at_epoch(&state, &cluster_history(), 1);
    let expected = ClientData {
        staker: Some(payer()),
        withdrawer: Some(payer()),
        delegated_vote: Some(vote()),
        effective: STAKE_AMOUNT,
        deactivating: STAKE_AMOUNT,
        ..Default::default()
    };
    assert_eq!(expected, view(&data));
}

#[test]
fn success_inactive() {
    let state = delegated_state(0, 1);
    let data = stake_view_at_epoch(&state, &cluster_history(), 2);
    let expected = ClientData {
        staker: Some(payer()),
        withdrawer: Some(payer()),
        ..Default::default()
    };
    assert_eq!(expected, view(&data));
}

#[test]
fn fail_not_stake_history() {
    let fixture = accounts(stake_program(), delegated_stake_data(), [5u8; 32], history_data());
    let accounts = fixture.views();
    assert_eq!(
        process_instruction(&[1u8; 32], &accounts, &[0]),
        Err(StakeViewError::InvalidArgument)
    );
}

#[test]
fn success_not_stake() {
    let fixture = accounts([0u8; 32], Vec::new(), stake_history_id(), Vec::new());
    let accounts = fixture.views();
    let data = process_instruction(&[1u8; 32], &accounts, &[0]).unwrap();
    assert_eq!(data, ProgramData::default());
    assert_eq!(ClientData::default(), view(&data));
}

#[test]
fn empty_instruction_data_is_refused() {
    let fixture = accounts(stake_program(), initialized_stake_data(), stake_history_id(), history_data());
    let accounts = fixture.views();
    assert_eq!(
        process_instruction(&[1u8; 32], &accounts, &[]),
        Err(StakeViewError::InvalidArgument)
    );
}

#[test]
fn unknown_instruction_is_refused() {
    let fixture = accounts(stake_program(), initialized_stake_data(), stake_history_id(), history_data());
    let accounts = fixture.views();
    assert_eq!(
        process_instruction(&[1u8; 32], &accounts, &[1, 0]),
        Err(StakeViewError::InvalidArgument)
    );
}

#[test]
fn missing_accounts_are_refused() {
    let fixture = accounts(stake_program(), initialized_stake_data(), stake_history_id(), history_data());
    let mut accounts = fixture.views();
    accounts.pop();
    assert_eq!(
        process_instruction(&[1u8; 32], &accounts, &[0]),
        Err(StakeViewError::NotEnoughAccountKeys)
    );
    assert_eq!(
        process_instruction(&[1u8; 32], &[], &[0]),
        Err(StakeViewError::NotEnoughAccountKeys)
    );
}

#[test]
fn unreadable_stake_state_is_a_borsh_error() {
    let mut bad = vec![0u8; 200];
    bad[0] = 7;
    let fixture = accounts(stake_program(), bad, stake_history_id(), history_data());
    let accounts = fixture.views();
    match process_instruction(&[1u8; 32], &accounts, &[0]) {
        Err(StakeViewError::BorshIoError(message)) => assert!(!message.is_empty()),
        other => panic!("unexpected result {:?}", other),
    }
    let short = accounts_with_short_stake();
    assert!(matches!(
        process_instruction(&[1u8; 32], &short.views(), &[0]),
        Err(StakeViewError::BorshIoError(_))
    ));
}

fn accounts_with_short_stake() -> Fixture {
    let mut data = initialized_stake_data();
    data.truncate(20);
    accounts(stake_program(), data, stake_history_id(), history_data())
}

#[test]
fn uninitialized_stake_reads_as_zeroes() {
    let fixture = accounts(stake_program(), vec![0u8; 200], stake_history_id(), Vec::new());
    let accounts = fixture.views();
    assert_eq!(
        process_instruction(&[1u8; 32], &accounts, &[0]).unwrap(),
        ProgramData::default()
    );
}

#[test]
fn delegated_stake_with_unreadable_history_is_invalid_account_data() {
    let fixture = accounts(stake_program(), delegated_stake_data(), stake_history_id(), vec![1, 2, 3]);
    let accounts = fixture.views();
    assert_eq!(
        process_instruction(&[1u8; 32], &accounts, &[0]),
        Err(StakeViewError::InvalidAccountData)
    );
}

#[test]
fn delegated_stake_without_clock_reports_the_sysvar_error() {
    let fixture = accounts(stake_program(), delegated_stake_data(), stake_history_id(), history_data());
    let accounts = fixture.views();
    assert_eq!(
        process_instruction(&[1u8; 32], &accounts, &[0]),
        Err(StakeViewError::Sysvar(u64::from(ProgramError::UnsupportedSysvar)))
    );
}

#[test]
fn initialized_stake_ignores_unreadable_history() {
    let fixture = accounts(stake_program(), initialized_stake_data(), stake_history_id(), vec![1]);
    let accounts = fixture.views();
    let data = process_instruction(&[1u8; 32], &accounts, &[0]).unwrap();
    assert_eq!(data.staker, payer());
    assert_eq!(data.withdrawer, payer());
    assert_eq!(data.delegated_vote, [0u8; 32]);
}

#[test]
fn inactive_delegation_reads_as_undelegated() {
    let state = delegated_state(0, 1);
    let zero = StakeActivationStatus { effective: 0, activating: 0, deactivating: 0 };
    assert_eq!(stake_view(&state, Some(zero)), stake_view(&state, None));
    assert_eq!(stake_view(&state, None).delegated_vote, [0u8; 32]);
}

#[test]
fn rewards_pool_reads_as_zeroes() {
    let data = stake_view(&StakeState::RewardsPool, None);
    assert_eq!(data, ProgramData::default());
}

#[test]
fn view_at_epoch_before_activation_has_no_amounts() {
    let state = delegated_state(3, u64::MAX);
    let data = stake_view_at_epoch(&state, &cluster_history(), 2);
    assert_eq!(data.delegated_vote, [0u8; 32]);
    assert_eq!(data.staker, payer());
    assert_eq!((data.effective, data.activating, data.deactivating), (0, 0, 0));
}

#[test]
fn view_at_epoch_of_undelegated_account_ignores_history() {
    let state = StakeState::Initialized(authorized());
    let data = stake_view_at_epoch(&state, &cluster_history(), 1);
    assert_eq!(data, stake_view(&state, None));
}

fn history_of(entries: &[(u64, u64, u64)]) -> StakeHistory {
    let mut history = StakeHistory::default();
    for (epoch, effective, activating) in entries {
        history.add(*epoch, StakeHistoryEntry { effective: *effective, activating: *activating, deactivating: 0 });
    }
    history
}

fn delegation(stake: u64, activation_epoch: u64, deactivation_epoch: u64) -> Delegation {
    Delegation { voter_pubkey: vote(), stake, activation_epoch, deactivation_epoch }
}

#[test]
fn warm_up_bound_accepts_a_consistent_history() {
    let history = history_of(&[(0, 1_000_000_000_000, STAKE_AMOUNT), (1, 1_000_000_000_000, 0)]);
    assert!(warm_up_bounded(&delegation(STAKE_AMOUNT, 0, u64::MAX), 5, &history));
}

#[test]
fn warm_up_bound_ignores_entries_read_after_full_activation() {
    // fully effective in its first step: the entry of epoch 1 is never read
    let history = history_of(&[(0, 1_000_000_000_000, STAKE_AMOUNT), (1, 1_000_000_000_000, 1)]);
    assert!(warm_up_bounded(&delegation(STAKE_AMOUNT, 0, u64::MAX), 5, &history));
    let state = StakeState::Stake(authorized(), delegation(STAKE_AMOUNT, 0, u64::MAX));
    let data = stake_view_for_clock(&state, &history, Ok(5)).unwrap();
    assert_eq!(data.effective, STAKE_AMOUNT);
    assert_eq!(data.activating, 0);
}

#[test]
fn warm_up_bound_refuses_a_step_that_can_overflow() {
    let stake = 1u64 << 63;
    // the first step makes about nothing effective; the second reads a
    // cluster with one lamport activating and huge effective stake
    let history = history_of(&[(0, 1, stake), (1, u64::MAX, 1)]);
    assert!(!warm_up_bounded(&delegation(stake, 0, u64::MAX), 5, &history));
    let state = StakeState::Stake(authorized(), delegation(stake, 0, u64::MAX));
    assert_eq!(
        stake_view_for_clock(&state, &history, Ok(5)),
        Err(StakeViewError::ArithmeticOverflow)
    );
    // the risky entry is not read when the warm-up stops before it
    assert!(warm_up_bounded(&delegation(stake, 0, u64::MAX), 1, &history));
    assert!(warm_up_bounded(&delegation(stake, 0, 1), 5, &history));
    assert!(warm_up_bounded(&delegation(stake, u64::MAX, u64::MAX), 5, &history));
}

#[test]
fn clock_error_is_reported_for_a_delegation() {
    let state = delegated_state(0, u64::MAX);
    assert_eq!(
        stake_view_for_clock(&state, &cluster_history(), Err(42)),
        Err(StakeViewError::Sysvar(42))
    );
    let undelegated = StakeState::Initialized(authorized());
    assert_eq!(
        stake_view_for_clock(&undelegated, &cluster_history(), Err(42)),
        Ok(stake_view(&undelegated, None))
    );
}

#[test]
fn warm_up_at_the_bound_does_not_overflow() {
    let stake = u64::MAX / 2;
    let activating: u64 = 1 << 40;
    let effective = 1u64 << 42;
    let entries: Vec<(u64, u64, u64)> = (0..5u64).map(|epoch| (epoch, effective, activating)).collect();
    let history = history_of(&entries);
    assert!(warm_up_bounded(&delegation(stake, 0, u64::MAX), 5, &history));
    let state = StakeState::Stake(authorized(), delegation(stake, 0, u64::MAX));
    let data = stake_view_at_epoch(&state, &history, 5);
    assert_eq!(data.effective as u128 + data.activating as u128, stake as u128);
}

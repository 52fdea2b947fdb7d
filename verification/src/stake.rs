//! What the program reads of a stake account and of the stake history, and the
//! calls into the stake interface that read and interpret them.
use solana_program::stake::state::StakeStateV2;
use solana_program::sysvar::stake_history::{StakeHistory, StakeHistoryEntry, StakeHistoryGetEntry};
use solana_program::sysvar::Sysvar;
use vstd::prelude::*;

use crate::pubkey::Pubkey;

verus! {

/// The authorities of a stake account.
#[derive(Clone, Copy, Debug, PartialEq, Eq)]
pub struct Authorized {
    pub staker: Pubkey,
    pub withdrawer: Pubkey,
}

/// The delegation of a stake account: to whom, how much, and in which epochs it
/// was activated and deactivated (`u64::MAX` for "never").
#[derive(Clone, Copy, Debug, PartialEq, Eq)]
pub struct Delegation {
    pub voter_pubkey: Pubkey,
    pub stake: u64,
    pub activation_epoch: u64,
    pub deactivation_epoch: u64,
}

/// The state of a stake account, as far as this program reads it: the
/// authorities of an initialized account and the delegation of a delegated one.
#[derive(Clone, Copy, Debug, PartialEq, Eq)]
pub enum StakeState {
    Uninitialized,
    Initialized(Authorized),
    Stake(Authorized, Delegation),
    RewardsPool,
}

/// Stake amounts of a delegation at one epoch, or of the whole cluster in a
/// stake history entry.
#[derive(Clone, Copy, Debug, PartialEq, Eq, Structural)]
pub struct StakeActivationStatus {
    pub effective: u64,
    pub activating: u64,
    pub deactivating: u64,
}

impl StakeState {
    /// The authorities, for an initialized or delegated account.
    pub open spec fn spec_authorized(self) -> Option<Authorized> {
        match self {
            StakeState::Initialized(a) => Some(a),
            StakeState::Stake(a, _) => Some(a),
            _ => None,
        }
    }

    /// The delegation, for a delegated account.
    pub open spec fn spec_delegation(self) -> Option<Delegation> {
        match self {
            StakeState::Stake(_, d) => Some(d),
            _ => None,
        }
    }

    /// The authorities, for an initialized or delegated account.
    pub fn authorized(&self) -> (res: Option<Authorized>)
        ensures
            res == self.spec_authorized(),
            *self matches StakeState::Initialized(a) ==> res == Some(a),
            *self matches StakeState::Stake(a, _) ==> res == Some(a),
            (*self is Uninitialized || *self is RewardsPool) ==> res is None,
    {
        match self {
            StakeState::Initialized(a) => Some(*a),
            StakeState::Stake(a, _) => Some(*a),
            _ => None,
        }
    }

    /// The delegation, for a delegated account.
    pub fn delegation(&self) -> (res: Option<Delegation>)
        ensures
            res == self.spec_delegation(),
            *self matches StakeState::Stake(_, d) ==> res == Some(d),
            !(*self is Stake) ==> res is None,
    {
        match self {
            StakeState::Stake(_, d) => Some(*d),
            _ => None,
        }
    }
}

/// A stake state gives back the authorities and the delegation that it
/// stores: an initialized account its authorities, a delegated one its
/// authorities and its delegation, and the others neither.
pub proof fn lemma_stake_state_stores(a: Authorized, d: Delegation)
    ensures
        StakeState::Initialized(a).spec_authorized() == Some(a),
        StakeState::Initialized(a).spec_delegation() is None,
        StakeState::Stake(a, d).spec_authorized() == Some(a),
        StakeState::Stake(a, d).spec_delegation() == Some(d),
        StakeState::Uninitialized.spec_authorized() is None,
        StakeState::Uninitialized.spec_delegation() is None,
        StakeState::RewardsPool.spec_authorized() is None,
        StakeState::RewardsPool.spec_delegation() is None,
{
}

/// The address of the stake history sysvar,
/// `SysvarStakeHistory1111111111111111111111111`.
pub open spec fn stake_history_sysvar_key() -> Seq<u8> {
    seq![
        6u8, 167, 213, 23, 25, 53, 132, 208, 254, 237, 155, 179, 67, 29, 19, 32,
        107, 229, 68, 40, 27, 87, 184, 86, 108, 197, 55, 95, 244, 0, 0, 0,
    ]
}

/// The address of the stake program,
/// `Stake11111111111111111111111111111111111111`.
pub open spec fn stake_program_key() -> Seq<u8> {
    seq![
        6u8, 161, 216, 23, 145, 55, 84, 42, 152, 52, 55, 189, 254, 42, 122, 178,
        85, 127, 83, 92, 138, 120, 114, 43, 104, 164, 157, 192, 0, 0, 0, 0,
    ]
}

/// Trusted: `solana_program::sysvar::stake_history::id()`, the constant that
/// its source declares as `SysvarStakeHistory1111111111111111111111111`; the
/// contract gives its 32 bytes.
#[verifier::external_body]
pub(crate) fn stake_history_sysvar_id() -> (key: Pubkey)
    ensures
        key@ == stake_history_sysvar_key(),
{
    solana_program::sysvar::stake_history::id().to_bytes()
}

/// Trusted: `solana_program::stake::program::id()`, the constant that its
/// source declares as `Stake11111111111111111111111111111111111111`; the
/// contract gives its 32 bytes.
#[verifier::external_body]
pub(crate) fn stake_program_id() -> (key: Pubkey)
    ensures
        key@ == stake_program_key(),
{
    solana_program::stake::program::id().to_bytes()
}

/// The stake state that `borsh1::try_from_slice_unchecked::<StakeStateV2>`
/// reads from the start of `data` (trailing bytes ignored), or the message of
/// the I/O error it reports.
pub uninterp spec fn stake_state_from_borsh(data: Seq<u8>) -> Result<StakeState, Seq<char>>;

/// Trusted: `solana_program::borsh1::try_from_slice_unchecked::<StakeStateV2>`.
/// Its result, with each variant's authorities and delegation moved into
/// [`StakeState`] and an error turned into its message, is named
/// [`stake_state_from_borsh`]. Rent reserve, lockup, credits, stake flags and
/// the deprecated warm-up rate of the delegation are not carried.
#[verifier::external_body]
pub(crate) fn decode_stake_state(data: &[u8]) -> (res: Result<StakeState, String>)
    ensures
        match res {
            Ok(state) => stake_state_from_borsh(data@) == Ok::<StakeState, Seq<char>>(state),
            Err(message) => stake_state_from_borsh(data@) == Err::<StakeState, Seq<char>>(message@),
        },
{
    match solana_program::borsh1::try_from_slice_unchecked::<StakeStateV2>(data) {
        Ok(StakeStateV2::Uninitialized) => Ok(StakeState::Uninitialized),
        Ok(StakeStateV2::Initialized(m)) => Ok(StakeState::Initialized(Authorized {
            staker: m.authorized.staker.to_bytes(), withdrawer: m.authorized.withdrawer.to_bytes() })),
        Ok(StakeStateV2::Stake(m, s, _)) => Ok(StakeState::Stake(Authorized {
            staker: m.authorized.staker.to_bytes(), withdrawer: m.authorized.withdrawer.to_bytes() },
            Delegation { voter_pubkey: s.delegation.voter_pubkey.to_bytes(), stake: s.delegation.stake,
            activation_epoch: s.delegation.activation_epoch,
            deactivation_epoch: s.delegation.deactivation_epoch })),
        Ok(StakeStateV2::RewardsPool) => Ok(StakeState::RewardsPool),
        Err(e) => Err(e.to_string()),
    }
}


#[verifier::external_type_specification]
#[verifier::external_body]
pub struct ExStakeHistory(StakeHistory);

// `StakeHistory` dereferences to a vector of these, so Verus needs the type
// declared before it accepts `StakeHistory`.
#[verifier::external_type_specification]
#[verifier::external_body]
pub struct ExStakeHistoryEntry(StakeHistoryEntry);

/// The entries of a stake history in the order in which it holds them: an
/// epoch and the cluster's effective, activating and deactivating stake at
/// that epoch.
pub uninterp spec fn stake_history_entries(history: StakeHistory) -> Seq<(u64, StakeActivationStatus)>;

/// The entries of the stake history that `bincode::deserialize::<StakeHistory>`
/// reads from `data`, or `None` where it reports an error.
pub uninterp spec fn stake_history_from_bincode(data: Seq<u8>) -> Option<
    Seq<(u64, StakeActivationStatus)>,
>;

/// Trusted: `bincode::deserialize::<StakeHistory>`. It succeeds or fails as a
/// function of `data` alone, named [`stake_history_from_bincode`], and the
/// history it returns holds the entries that the name gives. Its error is
/// dropped: the caller reports every failure alike.
#[verifier::external_body]
pub(crate) fn decode_stake_history(data: &[u8]) -> (res: Option<StakeHistory>)
    ensures
        match res {
            Some(history) => stake_history_from_bincode(data@) == Some(
                stake_history_entries(history),
            ),
            None => stake_history_from_bincode(data@) is None,
        },
{
    bincode::deserialize::<StakeHistory>(data).ok()
}

/// The effective, activating and deactivating stake at `target_epoch` that
/// `Delegation::stake_activating_and_deactivating` computes for a delegation of
/// `stake` activated at `activation_epoch` and deactivated at
/// `deactivation_epoch`, from the cluster's stake history `history` and the
/// epoch `new_rate_activation_epoch` from which the lower warm-up and cool-down
/// rate applies.
pub uninterp spec fn stake_activation(
    stake: u64,
    activation_epoch: u64,
    deactivation_epoch: u64,
    target_epoch: u64,
    history: Seq<(u64, StakeActivationStatus)>,
    new_rate_activation_epoch: Option<u64>,
) -> StakeActivationStatus;

/// The entry that `StakeHistoryGetEntry::get_entry` finds for `epoch` in a
/// stake history holding `entries` (a binary search over them), or `None`.
pub uninterp spec fn stake_history_get_entry(
    entries: Seq<(u64, StakeActivationStatus)>,
    epoch: u64,
) -> Option<StakeActivationStatus>;

/// Trusted: `<StakeHistory as StakeHistoryGetEntry>::get_entry`, the lookup
/// through which the stake interface reads a history, its entry's amounts
/// copied field by field; its result is named [`stake_history_get_entry`].
/// Its source returns an entry only where the binary search ends on a probe
/// whose epoch equals `epoch`, so an entry it finds is one the history holds
/// for that epoch.
#[verifier::external_body]
pub(crate) fn history_get_entry(history: &StakeHistory, epoch: u64) -> (entry: Option<
    StakeActivationStatus,
>)
    ensures
        entry == stake_history_get_entry(stake_history_entries(*history), epoch),
        entry matches Some(e) ==> exists|i: int|
            0 <= i < stake_history_entries(*history).len() && #[trigger] stake_history_entries(
                *history,
            )[i] == (epoch, e),
{
    history.get_entry(epoch).map(|e| StakeActivationStatus {
        effective: e.effective, activating: e.activating, deactivating: e.deactivating })
}

/// The least stake that one warm-up step can make effective when `r` lamports
/// are still activating and it reads `entry`: with a rate of at least 0.09 and
/// the `f64` rounding, at least `r * effective / (12 * activating)`, and at
/// least 1.
pub open spec fn least_warm_up_step(r: int, entry: StakeActivationStatus) -> int {
    let q = r * entry.effective / (12 * entry.activating);
    if q < 1 {
        1
    } else {
        q
    }
}

/// The most stake that one warm-up step can make effective when `r` lamports
/// are still activating and it reads `entry`: with a rate of at most 0.25 and
/// the `f64` rounding, at most `r * effective / (2 * activating)`, or 1.
pub open spec fn most_warm_up_step(r: int, entry: StakeActivationStatus) -> int {
    let q = r * entry.effective / (2 * entry.activating);
    if q < 1 {
        1
    } else {
        q
    }
}

/// A warm-up step that reads `entry` with `r` lamports of a delegation of `s`
/// still activating stays within `u64`: its largest increment, added to the
/// `s - r` lamports already effective, is at most `u64::MAX`.
pub open spec fn warm_up_step_fits(s: int, r: int, entry: StakeActivationStatus) -> bool {
    r * entry.effective / (2 * entry.activating) <= u64::MAX - (s - r)
}

/// A warm-up step that reads `entry` while between `lo` and `hi` lamports of
/// a delegation of `s` are effective stays within `u64`. With none effective
/// (`hi == 0`) the step cannot overflow; otherwise it is enough that it fits
/// at both ends, since the increment's bound less the remaining stake is
/// linear in the remaining stake.
pub open spec fn warm_up_step_safe(s: int, lo: int, hi: int, entry: StakeActivationStatus) -> bool {
    hi == 0 || (warm_up_step_fits(s, s - hi, entry) && warm_up_step_fits(s, s - lo, entry))
}

/// The warm-up of a delegation of `s`, about to read the history's entry for
/// `epoch` with between `lo` and `hi` lamports effective, stays within `u64`
/// until it stops. It stops where the history has no entry for the epoch or
/// its entry has no activating stake, once the delegation must be fully
/// effective (`lo` reaches `s`), and before reading the entry of `end`.
pub open spec fn warm_up_safe_from(
    s: int,
    end: u64,
    epoch: u64,
    lo: int,
    hi: int,
    entries: Seq<(u64, StakeActivationStatus)>,
) -> bool
    decreases u64::MAX - epoch,
{
    match stake_history_get_entry(entries, epoch) {
        None => true,
        Some(entry) => entry.activating == 0 || (warm_up_step_safe(s, lo, hi, entry) && {
            let next_lo = lo + least_warm_up_step(s - hi, entry);
            let lo2 = if next_lo < s {
                next_lo
            } else {
                s
            };
            let next_hi = hi + most_warm_up_step(s - lo, entry);
            let hi2 = if next_hi < s - 1 {
                next_hi
            } else {
                s - 1
            };
            ||| lo2 >= s
            ||| epoch + 1 >= end
            ||| warm_up_safe_from(s, end, (epoch + 1) as u64, lo2, hi2, entries)
        }),
    }
}

/// `Delegation::stake_activating_and_deactivating` for a delegation of `stake`
/// activated at `activation_epoch` and deactivated at `deactivation_epoch`,
/// asked for `target_epoch` over a history holding `entries`, cannot overflow:
/// it runs no warm-up (a bootstrap stake, one deactivated in the epoch it was
/// activated, or a target epoch not after the activation epoch), or its
/// warm-up, which starts at the activation epoch with nothing effective and
/// stops before the earlier of the target and deactivation epochs, stays
/// within `u64` ([`warm_up_safe_from`]).
pub open spec fn warm_up_cannot_overflow(
    stake: u64,
    activation_epoch: u64,
    deactivation_epoch: u64,
    target_epoch: u64,
    entries: Seq<(u64, StakeActivationStatus)>,
) -> bool {
    let end = if target_epoch < deactivation_epoch {
        target_epoch
    } else {
        deactivation_epoch
    };
    ||| activation_epoch == u64::MAX
    ||| activation_epoch == deactivation_epoch
    ||| target_epoch <= activation_epoch
    ||| warm_up_safe_from(stake as int, end, activation_epoch, 0, 0, entries)
}

/// A warm-up that finds no entry for the epoch it reads next, or one with no
/// stake activating, stops there and cannot overflow, whatever it has made
/// effective so far.
pub proof fn lemma_warm_up_stops_without_entry(
    s: int,
    end: u64,
    epoch: u64,
    lo: int,
    hi: int,
    entries: Seq<(u64, StakeActivationStatus)>,
)
    requires
        stake_history_get_entry(entries, epoch) matches Some(e) ==> e.activating == 0,
    ensures
        warm_up_safe_from(s, end, epoch, lo, hi, entries),
{
}

/// Where the history has no entry for a delegation's activation epoch, the
/// stake interface runs no warm-up over it, so nothing can overflow, for any
/// target epoch.
pub proof fn lemma_no_activation_entry_cannot_overflow(
    stake: u64,
    activation_epoch: u64,
    deactivation_epoch: u64,
    target_epoch: u64,
    entries: Seq<(u64, StakeActivationStatus)>,
)
    requires
        stake_history_get_entry(entries, activation_epoch) is None,
    ensures
        warm_up_cannot_overflow(stake, activation_epoch, deactivation_epoch, target_epoch, entries),
{
    let end = if target_epoch < deactivation_epoch {
        target_epoch
    } else {
        deactivation_epoch
    };
    lemma_warm_up_stops_without_entry(stake as int, end, activation_epoch, 0, 0, entries);
}

/// `r * effective / (divisor * activating)` for an entry with stake
/// activating, in `u128`.
fn scaled_share(r: u128, entry: &StakeActivationStatus, divisor: u128) -> (q: u128)
    requires
        r <= 0xffff_ffff_ffff_ffffu128,
        entry.activating > 0,
        divisor == 2 || divisor == 12,
    ensures
        q == r * entry.effective / (divisor * entry.activating),
        q <= r * entry.effective,
        r * entry.effective <= 0xffff_ffff_ffff_ffffu128 * 0xffff_ffff_ffff_ffffu128,
{
    let e = entry.effective as u128;
    let a = entry.activating as u128;
    assert(r * e <= 0xffff_ffff_ffff_ffffu128 * 0xffff_ffff_ffff_ffffu128) by (nonlinear_arith)
        requires
            r <= 0xffff_ffff_ffff_ffffu128,
            e <= 0xffff_ffff_ffff_ffffu128,
    ;
    let product = r * e;
    let d = divisor * a;
    assert(product / d <= product) by (nonlinear_arith)
        requires
            d >= 1,
    ;
    product / d
}

/// Tests [`warm_up_cannot_overflow`] for a delegation, a target epoch and a
/// stake history, reading the history as the stake interface does.
pub fn warm_up_bounded(delegation: &Delegation, target_epoch: u64, history: &StakeHistory) -> (ok: bool)
    ensures
        ok == warm_up_cannot_overflow(
            delegation.stake,
            delegation.activation_epoch,
            delegation.deactivation_epoch,
            target_epoch,
            stake_history_entries(*history),
        ),
        (forall|i: int|
            0 <= i < stake_history_entries(*history).len()
                ==> #[trigger] stake_history_entries(*history)[i].0
                != delegation.activation_epoch) ==> ok,
{
    let activation_epoch = delegation.activation_epoch;
    let deactivation_epoch = delegation.deactivation_epoch;
    if activation_epoch == u64::MAX || activation_epoch == deactivation_epoch
        || target_epoch <= activation_epoch {
        return true;
    }
    let end = if target_epoch < deactivation_epoch {
        target_epoch
    } else {
        deactivation_epoch
    };
    let ghost entries = stake_history_entries(*history);
    let s = delegation.stake as u128;
    let mut epoch = activation_epoch;
    let mut lo: u128 = 0;
    let mut hi: u128 = 0;
    loop
        invariant
            s == delegation.stake,
            epoch < target_epoch,
            lo <= s,
            hi <= s,
            warm_up_safe_from(s as int, end, epoch, lo as int, hi as int, entries)
                == warm_up_safe_from(s as int, end, activation_epoch, 0, 0, entries),
            end == (if target_epoch < deactivation_epoch {
                target_epoch
            } else {
                deactivation_epoch
            }),
            activation_epoch < target_epoch,
            activation_epoch != u64::MAX,
            activation_epoch != deactivation_epoch,
            activation_epoch == delegation.activation_epoch,
            deactivation_epoch == delegation.deactivation_epoch,
            entries == stake_history_entries(*history),
            epoch == activation_epoch || exists|i: int|
                0 <= i < entries.len() && #[trigger] entries[i].0 == activation_epoch,
        decreases u64::MAX - epoch,
    {
        let entry = match history_get_entry(history, epoch) {
            None => return true,
            Some(entry) => entry,
        };
        assert(exists|i: int| 0 <= i < entries.len() && #[trigger] entries[i].0 == activation_epoch)
            by {
            if epoch == activation_epoch {
                let i = choose|i: int| 0 <= i < entries.len() && entries[i] == (epoch, entry);
                assert(entries[i].0 == activation_epoch);
            }
        }
        if entry.activating == 0 {
            return true;
        }
        let low_r = s - hi;
        let high_r = s - lo;
        let max_low = scaled_share(low_r, &entry, 2);
        let max_high = scaled_share(high_r, &entry, 2);
        let fits_low = max_low <= 0xffff_ffff_ffff_ffffu128 - (s - low_r);
        let fits_high = max_high <= 0xffff_ffff_ffff_ffffu128 - (s - high_r);
        if !(hi == 0 || (fits_low && fits_high)) {
            return false;
        }
        let least_q = scaled_share(low_r, &entry, 12);
        let least = if least_q < 1 { 1 } else { least_q };
        let next_lo = lo + least;
        let lo2 = if next_lo < s { next_lo } else { s };
        if lo2 >= s {
            return true;
        }
        let most = if max_high < 1 { 1 } else { max_high };
        let next_hi = hi + most;
        let hi2 = if next_hi < s - 1 { next_hi } else { s - 1 };
        if epoch + 1 >= end {
            return true;
        }
        epoch = epoch + 1;
        lo = lo2;
        hi = hi2;
    }
}

/// Trusted: `Delegation::stake_activating_and_deactivating` of the stake
/// interface. Its source reads the delegation's amount and its activation and
/// deactivation epochs, the target epoch, the history's entries and the
/// new-rate epoch, and nothing else (not the voter, nor the deprecated
/// warm-up rate field, which is left at its default here); its result is named
/// [`stake_activation`].
///
/// The `requires` leaves out the inputs on which it can panic. Its only
/// unchecked arithmetic that can overflow is the warm-up step
/// `current_effective_stake += newly_effective_stake` of `stake_and_activating`.
/// The warm-up reads `get_entry` of the activation epoch and then of each next
/// epoch, stops where that gives `None` or an entry with no activating stake,
/// once the delegation is fully effective, and before the target or
/// deactivation epoch. Each step adds
/// `max(1, (weight * effective * rate) as u64)` with
/// `weight = (stake - current) / activating` in `f64` and `rate` 0.25 or 0.09,
/// so, rounding included, between [`least_warm_up_step`] and
/// [`most_warm_up_step`] of the remaining stake. The first step starts from
/// nothing effective and cannot overflow; [`warm_up_cannot_overflow`] follows
/// the bounds on the effective stake from step to step and asks each later
/// step to fit. The subtraction and the epoch increments of its loops cannot
/// overflow.
#[verifier::external_body]
pub(crate) fn stake_activating_and_deactivating(
    delegation: &Delegation,
    target_epoch: u64,
    history: &StakeHistory,
    new_rate_activation_epoch: Option<u64>,
) -> (status: StakeActivationStatus)
    requires
        warm_up_cannot_overflow(
            delegation.stake,
            delegation.activation_epoch,
            delegation.deactivation_epoch,
            target_epoch,
            stake_history_entries(*history),
        ),
    ensures
        status == stake_activation(
            delegation.stake,
            delegation.activation_epoch,
            delegation.deactivation_epoch,
            target_epoch,
            stake_history_entries(*history),
            new_rate_activation_epoch,
        ),
{
    let d = solana_program::stake::state::Delegation {
        voter_pubkey: solana_program::pubkey::Pubkey::new_from_array(delegation.voter_pubkey),
        stake: delegation.stake, activation_epoch: delegation.activation_epoch,
        deactivation_epoch: delegation.deactivation_epoch, ..Default::default() };
    let s = d.stake_activating_and_deactivating(target_epoch, history, new_rate_activation_epoch);
    StakeActivationStatus { effective: s.effective, activating: s.activating, deactivating: s.deactivating }
}

/// Trusted: `Clock::get()`, the clock sysvar as the runtime provides it: its
/// epoch, or the program-error code of the error it reports (`u64::from` of the
/// `ProgramError`). Nothing is stated of either: both come from the runtime
/// (off-chain the call reports `UnsupportedSysvar`).
#[verifier::external_body]
pub(crate) fn current_epoch() -> (res: Result<u64, u64>) {
    solana_program::sysvar::clock::Clock::get().map(|clock| clock.epoch).map_err(u64::from)
}

} // verus!

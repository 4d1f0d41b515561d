//! What each instruction does to the records, apart from any account.
use vstd::prelude::*;
use crate::bytes::Address;
use crate::error::StakingError;
use crate::interest::{interest, early_exit_payout, compute_interest, compute_early_exit_payout};
use crate::state::{ContractData, ContractModel, StakeType, UserData, UserModel};

verus! {

/// Seconds a normal stake must be held before it can be unstaked.
pub const MINIMUM_HOLD_SECONDS: u64 = 86_400;

/// The policy parameters given at initialization.
#[derive(Debug, Clone, Copy, PartialEq, Eq, Structural)]
pub struct InitParams {
    pub minimum_stake_amount: u64,
    pub minimum_lock_duration: u64,
    pub normal_staking_apy: u64,
    pub locked_staking_apy: u64,
    pub early_withdrawal_fee: u64,
    pub fee_basis_points: u64,
    pub max_fee: u64,
}

/// The contract record that initialization writes.
pub open spec fn initial_contract(admin: Seq<u8>, mint: Seq<u8>, vault: Seq<u8>, p: InitParams) -> ContractModel {
    ContractModel {
        is_initialized: true,
        admin,
        mint,
        vault,
        minimum_stake_amount: p.minimum_stake_amount,
        minimum_lock_duration: p.minimum_lock_duration,
        normal_staking_apy: p.normal_staking_apy,
        locked_staking_apy: p.locked_staking_apy,
        early_withdrawal_fee: p.early_withdrawal_fee,
        total_staked: 0,
        total_earned: 0,
        fee_basis_points: p.fee_basis_points,
        max_fee: p.max_fee,
    }
}

/// The yearly rate that applies to a stake type.
pub open spec fn apy_for(c: ContractModel, t: StakeType) -> u64 {
    match t {
        StakeType::NORMAL => c.normal_staking_apy,
        StakeType::LOCKED => c.locked_staking_apy,
    }
}

/// Seconds from `since` to `now`; zero where the clock reads earlier than `since`.
pub open spec fn elapsed(now: u64, since: u64) -> u64 {
    if now >= since { (now - since) as u64 } else { 0 }
}

/// The user record of a first stake before its deposit.
pub open spec fn fresh_user(owner: Seq<u8>, t: StakeType, lock_duration: u64, now: u64) -> UserModel {
    UserModel {
        is_initialized: false,
        owner,
        stake_type: t,
        lock_duration,
        total_staked: 0,
        interest_accrued: 0,
        stake_ts: now,
        last_claim_ts: 0,
        last_unstake_ts: 0,
    }
}

/// A deposit of `amount`: the first one initializes the user record; a later
/// one must keep the stake type, folds the interest earned since `stake_ts`
/// into `interest_accrued` and restarts the clock at `now`.
pub open spec fn stake_transition(
    c: ContractModel,
    u: UserModel,
    t: StakeType,
    amount: u64,
    lock_duration: u64,
    now: u64,
) -> Result<(ContractModel, UserModel), StakingError> {
    if !u.is_initialized {
        if c.total_staked + amount > u64::MAX {
            Err(StakingError::ArithmeticOverflow)
        } else {
            Ok((
                ContractModel { total_staked: (c.total_staked + amount) as u64, ..c },
                UserModel { is_initialized: true, total_staked: amount, ..u },
            ))
        }
    } else if u.stake_type != t {
        Err(StakingError::InvalidInstructionData)
    } else {
        let earned = interest(apy_for(c, t), u.total_staked, elapsed(now, u.stake_ts));
        if u.interest_accrued + earned > u64::MAX || u.total_staked + amount > u64::MAX
            || c.total_staked + amount > u64::MAX || c.total_earned + earned > u64::MAX {
            Err(StakingError::ArithmeticOverflow)
        } else {
            Ok((
                ContractModel {
                    total_staked: (c.total_staked + amount) as u64,
                    total_earned: (c.total_earned + earned) as u64,
                    ..c
                },
                UserModel {
                    interest_accrued: (u.interest_accrued + earned) as u64,
                    total_staked: (u.total_staked + amount) as u64,
                    stake_ts: now,
                    lock_duration,
                    ..u
                },
            ))
        }
    }
}

/// Whether an unstake at `now` pays interest: a normal stake always does
/// (once held long enough), a locked one once its lock has run out.
pub open spec fn matured(u: UserModel, now: u64) -> bool {
    u.stake_type == StakeType::NORMAL || elapsed(now, u.stake_ts) >= u.lock_duration
}

/// `a - b`, floored at zero.
pub open spec fn saturating_sub(a: u64, b: u64) -> u64 {
    if a >= b { (a - b) as u64 } else { 0 }
}

/// `a + b`, capped at `u64::MAX`.
pub open spec fn saturating_add(a: u64, b: u64) -> u64 {
    if a + b <= u64::MAX { (a + b) as u64 } else { u64::MAX }
}

/// The final withdrawal: the new contract record and the payout. A normal
/// stake held under the minimum hold is refused; a matured stake pays
/// principal, accrued interest and the interest since `stake_ts`; an early
/// locked exit pays the principal less the penalty.
pub open spec fn unstake_transition(c: ContractModel, u: UserModel, now: u64) -> Result<(ContractModel, u64), StakingError> {
    let e = elapsed(now, u.stake_ts);
    if u.stake_type == StakeType::NORMAL && e < MINIMUM_HOLD_SECONDS {
        Err(StakingError::InvalidAccountData)
    } else if matured(u, now) {
        let earned = interest(apy_for(c, u.stake_type), u.total_staked, e);
        if u.total_staked + u.interest_accrued + earned > u64::MAX {
            Err(StakingError::ArithmeticOverflow)
        } else {
            Ok((
                ContractModel {
                    total_earned: saturating_add(c.total_earned, earned),
                    total_staked: saturating_sub(c.total_staked, u.total_staked),
                    ..c
                },
                (u.total_staked + u.interest_accrued + earned) as u64,
            ))
        }
    } else {
        match early_exit_payout(c.early_withdrawal_fee, u.total_staked) {
            Some(p) => Ok((ContractModel { total_staked: saturating_sub(c.total_staked, u.total_staked), ..c }, p)),
            None => Err(StakingError::InvalidAccountData),
        }
    }
}

/// The user record once its stake is paid out: principal, interest and times cleared.
pub open spec fn closed_user(u: UserModel) -> UserModel {
    UserModel {
        is_initialized: false,
        lock_duration: 0,
        total_staked: 0,
        interest_accrued: 0,
        stake_ts: 0,
        last_claim_ts: 0,
        last_unstake_ts: 0,
        ..u
    }
}

/// The contract record of a fresh initialization.
pub fn initial_record(admin: &Address, mint: &Address, vault: &Address, p: &InitParams) -> (r: ContractData)
    ensures
        r@ == initial_contract(admin@, mint@, vault@, *p),
{
    ContractData {
        is_initialized: true,
        admin_pubkey: *admin,
        stake_token_mint: *mint,
        stake_token_account: *vault,
        minimum_stake_amount: p.minimum_stake_amount,
        minimum_lock_duration: p.minimum_lock_duration,
        normal_staking_apy: p.normal_staking_apy,
        locked_staking_apy: p.locked_staking_apy,
        early_withdrawal_fee: p.early_withdrawal_fee,
        total_staked: 0,
        total_earned: 0,
        fee_basis_points: p.fee_basis_points,
        max_fee: p.max_fee,
    }
}

/// The user record of a first stake, before its deposit.
pub fn new_user_record(owner: &Address, t: StakeType, lock_duration: u64, now: u64) -> (r: UserData)
    ensures
        r@ == fresh_user(owner@, t, lock_duration, now),
{
    UserData {
        is_initialized: false,
        owner_pubkey: *owner,
        stake_type: t,
        lock_duration,
        total_staked: 0,
        interest_accrued: 0,
        stake_ts: now,
        last_claim_ts: 0,
        last_unstake_ts: 0,
    }
}

/// The yearly rate that the contract gives a stake type.
pub fn apy_of(c: &ContractData, t: StakeType) -> (r: u64)
    ensures
        r == apy_for(c@, t),
{
    match t {
        StakeType::NORMAL => c.normal_staking_apy,
        StakeType::LOCKED => c.locked_staking_apy,
    }
}

/// Applies a deposit to both records.
pub fn apply_stake(
    c: &ContractData,
    u: &UserData,
    t: StakeType,
    amount: u64,
    lock_duration: u64,
    now: u64,
) -> (r: Result<(ContractData, UserData), StakingError>)
    ensures
        match r {
            Ok((c2, u2)) => stake_transition(c@, u@, t, amount, lock_duration, now) == Ok::<(ContractModel, UserModel), StakingError>((c2@, u2@)),
            Err(e) => stake_transition(c@, u@, t, amount, lock_duration, now) == Err::<(ContractModel, UserModel), StakingError>(e),
        },
{
    if !u.is_initialized {
        let total = match c.total_staked.checked_add(amount) {
            Some(v) => v,
            None => return Err(StakingError::ArithmeticOverflow),
        };
        let c2 = ContractData { total_staked: total, ..*c };
        let u2 = UserData { is_initialized: true, total_staked: amount, ..*u };
        return Ok((c2, u2));
    }
    if u.stake_type != t {
        return Err(StakingError::InvalidInstructionData);
    }
    let since = if now >= u.stake_ts { now - u.stake_ts } else { 0 };
    let earned = compute_interest(apy_of(c, t), u.total_staked, since);
    let accrued = match u.interest_accrued.checked_add(earned) {
        Some(v) => v,
        None => return Err(StakingError::ArithmeticOverflow),
    };
    let user_total = match u.total_staked.checked_add(amount) {
        Some(v) => v,
        None => return Err(StakingError::ArithmeticOverflow),
    };
    let total = match c.total_staked.checked_add(amount) {
        Some(v) => v,
        None => return Err(StakingError::ArithmeticOverflow),
    };
    let earned_total = match c.total_earned.checked_add(earned) {
        Some(v) => v,
        None => return Err(StakingError::ArithmeticOverflow),
    };
    let c2 = ContractData { total_staked: total, total_earned: earned_total, ..*c };
    let u2 = UserData {
        interest_accrued: accrued,
        total_staked: user_total,
        stake_ts: now,
        lock_duration,
        ..*u
    };
    Ok((c2, u2))
}

/// Applies the final withdrawal to the contract record and gives the payout.
pub fn apply_unstake(c: &ContractData, u: &UserData, now: u64) -> (r: Result<(ContractData, u64), StakingError>)
    ensures
        match r {
            Ok((c2, p)) => unstake_transition(c@, u@, now) == Ok::<(ContractModel, u64), StakingError>((c2@, p)),
            Err(e) => unstake_transition(c@, u@, now) == Err::<(ContractModel, u64), StakingError>(e),
        },
{
    let since = if now >= u.stake_ts { now - u.stake_ts } else { 0 };
    let normal = match u.stake_type {
        StakeType::NORMAL => true,
        StakeType::LOCKED => false,
    };
    if normal && since < MINIMUM_HOLD_SECONDS {
        return Err(StakingError::InvalidAccountData);
    }
    let remaining = c.total_staked.saturating_sub(u.total_staked);
    if normal || since >= u.lock_duration {
        let earned = compute_interest(apy_of(c, u.stake_type), u.total_staked, since);
        let owed = match u.total_staked.checked_add(u.interest_accrued) {
            Some(v) => v,
            None => return Err(StakingError::ArithmeticOverflow),
        };
        let payout = match owed.checked_add(earned) {
            Some(v) => v,
            None => return Err(StakingError::ArithmeticOverflow),
        };
        let c2 = ContractData { total_earned: c.total_earned.saturating_add(earned), total_staked: remaining, ..*c };
        Ok((c2, payout))
    } else {
        match compute_early_exit_payout(c.early_withdrawal_fee, u.total_staked) {
            Some(p) => Ok((ContractData { total_staked: remaining, ..*c }, p)),
            None => Err(StakingError::InvalidAccountData),
        }
    }
}

/// The user record with its stake cleared.
pub fn close_user_record(u: &UserData) -> (r: UserData)
    ensures
        r@ == closed_user(u@),
{
    UserData {
        is_initialized: false,
        lock_duration: 0,
        total_staked: 0,
        interest_accrued: 0,
        stake_ts: 0,
        last_claim_ts: 0,
        last_unstake_ts: 0,
        ..*u
    }
}

/// Interest is never un-accrued: neither a deposit nor a withdrawal lowers
/// the contract's `total_earned`.
pub proof fn lemma_total_earned_never_decreases(
    c: ContractModel,
    u: UserModel,
    t: StakeType,
    amount: u64,
    lock_duration: u64,
    now: u64,
)
    ensures
        stake_transition(c, u, t, amount, lock_duration, now) matches Ok((c2, _)) ==> c2.total_earned >= c.total_earned,
        unstake_transition(c, u, now) matches Ok((c2, _)) ==> c2.total_earned >= c.total_earned,
{
}

/// The contract's `total_staked` moves with the user's principal: a deposit
/// adds the same amount to both, and a withdrawal takes the user's whole
/// principal off the contract's total (where the total covers it).
pub proof fn lemma_total_staked_follows_users(
    c: ContractModel,
    u: UserModel,
    t: StakeType,
    amount: u64,
    lock_duration: u64,
    now: u64,
)
    ensures
        stake_transition(c, u, t, amount, lock_duration, now) matches Ok((c2, u2)) ==> c2.total_staked - c.total_staked
            == u2.total_staked - (if u.is_initialized { u.total_staked as int } else { 0 }),
        stake_transition(c, u, t, amount, lock_duration, now) matches Ok((c2, u2)) ==> c2.total_staked == c.total_staked + amount,
        c.total_staked >= u.total_staked ==> (unstake_transition(c, u, now) matches Ok((c2, _)) ==> c2.total_staked
            == c.total_staked - u.total_staked),
{
}

} // verus!

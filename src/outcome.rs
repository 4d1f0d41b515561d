//! What each instruction returns, stated over the accounts' bytes: the first
//! check that refuses it, or the exact list of effects that carry it out.
use vstd::prelude::*;
use crate::bytes::u64_at;
use crate::effect::{AccountSnapshot, Effect, EffectModel, Environment, effect_views};
use crate::error::StakingError;
use crate::host::{program_address, mint_transfer_fee, mint_inverse_transfer_fee, token_program_address, token_account_valid};
use crate::instruction::{Instruction, decode};
use crate::state::{
    ContractModel, UserModel, StakeType, contract_bytes_valid, contract_of_bytes, user_bytes_valid, user_of_bytes,
    CONTRACT_DATA_LEN, USER_DATA_LEN,
};
use crate::transition::{InitParams, initial_contract, fresh_user, stake_transition, unstake_transition, closed_user};

verus! {

/// The bytes of the seed prefix of contract records, "spl_staking".
pub open spec fn contract_seed() -> Seq<u8> {
    seq![115u8, 112u8, 108u8, 95u8, 115u8, 116u8, 97u8, 107u8, 105u8, 110u8, 103u8]
}

/// The bytes of the seed prefix of user records, "spl_staking_user".
pub open spec fn user_seed() -> Seq<u8> {
    seq![115u8, 112u8, 108u8, 95u8, 115u8, 116u8, 97u8, 107u8, 105u8, 110u8, 103u8, 95u8, 117u8, 115u8, 101u8, 114u8]
}

/// The seeds of the contract record of `admin` and `mint`.
pub open spec fn contract_seeds(admin: Seq<u8>, mint: Seq<u8>) -> Seq<Seq<u8>> {
    seq![contract_seed(), admin, mint]
}

/// The seeds of the user record of `owner`.
pub open spec fn user_seeds(owner: Seq<u8>) -> Seq<Seq<u8>> {
    seq![user_seed(), owner]
}

/// Lamports to add so that an account holding `lamports` reaches the
/// rent-exempt balance `rent` (at least one lamport).
pub open spec fn rent_due(rent: u64, lamports: u64) -> u64 {
    let need: u64 = if rent >= 1 { rent } else { 1 };
    if need >= lamports { (need - lamports) as u64 } else { 0 }
}

/// The mint of the token account at the start of `s`.
pub open spec fn token_mint(s: Seq<u8>) -> Seq<u8> {
    s.subrange(0, 32)
}

/// The owner of the token account at the start of `s`.
pub open spec fn token_owner(s: Seq<u8>) -> Seq<u8> {
    s.subrange(32, 64)
}

/// The balance of the token account at the start of `s`.
pub open spec fn token_amount(s: Seq<u8>) -> u64 {
    u64_at(s, 64)
}

/// The first refusal among the checks that staking and unstaking make on
/// the user, the user's token account, the vault and the contract record
/// (at positions 0, 1, 3 and 4).
pub open spec fn pool_failure(program_id: Seq<u8>, a: Seq<AccountSnapshot>) -> Option<StakingError> {
    let c = contract_of_bytes(a[4].data@);
    let user_token = a[1].data@;
    let vault = a[3].data@;
    if !a[0].is_signer {
        Some(StakingError::MissingRequiredSignature)
    } else if token_owner(user_token) != a[0].key@ {
        Some(StakingError::InvalidAccountData)
    } else if token_mint(user_token) != c.mint {
        Some(StakingError::InvalidAccountData)
    } else if token_amount(user_token) < c.minimum_stake_amount {
        Some(StakingError::InsufficientFunds)
    } else {
        match program_address(contract_seeds(c.admin, c.mint), program_id) {
            None => Some(StakingError::InvalidSeeds),
            Some((pda, _)) => if pda != a[4].key@ {
                Some(StakingError::InvalidAccountData)
            } else if a[3].key@ != c.vault {
                Some(StakingError::InvalidAccountData)
            } else if c.mint != token_mint(vault) {
                Some(StakingError::InvalidAccountData)
            } else if pda != token_owner(vault) {
                Some(StakingError::InvalidAccountData)
            } else {
                None
            },
        }
    }
}

/// The bump seed of a derived address, where there is one.
pub open spec fn bump_of(d: Option<(Seq<u8>, u8)>) -> u8 {
    match d {
        Some((_, b)) => b,
        None => 0,
    }
}

/// The first refusal of an initialization, if any.
pub open spec fn init_failure(program_id: Seq<u8>, a: Seq<AccountSnapshot>, p: InitParams) -> Option<StakingError> {
    if a.len() < 6 {
        Some(StakingError::NotEnoughAccountKeys)
    } else if !a[0].is_signer {
        Some(StakingError::MissingRequiredSignature)
    } else if !a[1].is_writable {
        Some(StakingError::InvalidAccountData)
    } else if p.minimum_stake_amount == 0 {
        Some(StakingError::InvalidInstructionData)
    } else if a[4].key@ != token_program_address() {
        Some(StakingError::InvalidInstructionData)
    } else if a[2].owner@ != token_program_address() {
        Some(StakingError::InvalidAccountData)
    } else if a[3].owner@ != token_program_address() {
        Some(StakingError::InvalidAccountData)
    } else {
        match program_address(contract_seeds(a[0].key@, a[3].key@), program_id) {
            None => Some(StakingError::InvalidSeeds),
            Some((pda, _)) => if pda != a[1].key@ {
                Some(StakingError::InvalidAccountData)
            } else if contract_bytes_valid(a[1].data@) && a[1].data@[0] == 1 {
                Some(StakingError::AccountAlreadyInitialized)
            } else {
                None
            },
        }
    }
}

/// What an initialization returns: the first refusal, or the creation of
/// the contract record, the hand-over of the vault to it and its first write.
pub open spec fn init_outcome(
    program_id: Seq<u8>,
    a: Seq<AccountSnapshot>,
    env: Environment,
    p: InitParams,
    r: Result<Vec<Effect>, StakingError>,
) -> bool {
    match init_failure(program_id, a, p) {
        Some(e) => r == Err::<Vec<Effect>, StakingError>(e),
        None => r matches Ok(effects) && effect_views(effects@) == seq![
            EffectModel::CreateAccount {
                payer: a[0].key@,
                address: a[1].key@,
                lamports: rent_due(env.contract_data_rent, a[1].lamports),
                space: CONTRACT_DATA_LEN as u64,
                owner: program_id,
                seeds: contract_seeds(a[0].key@, a[3].key@).push(
                    seq![bump_of(program_address(contract_seeds(a[0].key@, a[3].key@), program_id))],
                ),
            },
            EffectModel::SetAccountOwner { account: a[2].key@, new_owner: a[1].key@, current_owner: a[0].key@ },
            EffectModel::WriteContractData {
                account: a[1].key@,
                data: initial_contract(a[0].key@, a[3].key@, a[2].key@, p),
            },
        ],
    }
}

/// The lock duration recorded for a stake: none for normal staking.
pub open spec fn effective_lock(t: StakeType, lock_duration: u64) -> u64 {
    match t {
        StakeType::NORMAL => 0,
        StakeType::LOCKED => lock_duration,
    }
}

/// The user record that a stake starts from: a fresh one where the account
/// holds no data yet, else the stored one.
pub open spec fn user_before_stake(a: Seq<AccountSnapshot>, env: Environment, t: StakeType, lock: u64) -> UserModel {
    if a[2].data@.len() == 0 {
        fresh_user(a[0].key@, t, lock, env.unix_timestamp)
    } else {
        user_of_bytes(a[2].data@)
    }
}

/// The first refusal of a stake, if any.
pub open spec fn stake_failure(
    program_id: Seq<u8>,
    a: Seq<AccountSnapshot>,
    env: Environment,
    t: StakeType,
    amount: u64,
    lock_duration: u64,
) -> Option<StakingError> {
    if a.len() < 8 {
        Some(StakingError::NotEnoughAccountKeys)
    } else if !contract_bytes_valid(a[4].data@) || !token_account_valid(a[1].data@) || !token_account_valid(a[3].data@) {
        Some(StakingError::InvalidAccountData)
    } else if pool_failure(program_id, a) is Some {
        pool_failure(program_id, a)
    } else if t == StakeType::LOCKED && lock_duration < contract_of_bytes(a[4].data@).minimum_lock_duration {
        Some(StakingError::InvalidInstructionData)
    } else {
        staking_failure(program_id, a, env, t, amount, effective_lock(t, lock_duration))
    }
}

/// The first refusal of a deposit once the pool checks passed, with `lock`
/// the lock duration to record.
pub open spec fn staking_failure(
    program_id: Seq<u8>,
    a: Seq<AccountSnapshot>,
    env: Environment,
    t: StakeType,
    amount: u64,
    lock: u64,
) -> Option<StakingError> {
    match program_address(user_seeds(a[0].key@), program_id) {
        None => Some(StakingError::InvalidSeeds),
        Some((pda, _)) => if pda != a[2].key@ {
            Some(StakingError::InvalidAccountData)
        } else if a[2].data@.len() != 0 && !user_bytes_valid(a[2].data@) {
            Some(StakingError::InvalidAccountData)
        } else {
            match stake_transition(
                contract_of_bytes(a[4].data@),
                user_before_stake(a, env, t, lock),
                t,
                amount,
                lock,
                env.unix_timestamp,
            ) {
                Err(e) => Some(e),
                Ok(_) => if mint_transfer_fee(a[5].data@, env.epoch, amount) is None {
                    Some(StakingError::InvalidAccountData)
                } else {
                    None
                },
            }
        },
    }
}

/// The effects of an accepted stake: the creation of the user record where
/// there was none, the deposit, and the two record writes.
pub open spec fn stake_effects(
    program_id: Seq<u8>,
    a: Seq<AccountSnapshot>,
    env: Environment,
    t: StakeType,
    amount: u64,
    decimals: u64,
    lock: u64,
) -> Seq<EffectModel> {
    let c = contract_of_bytes(a[4].data@);
    let next = stake_transition(c, user_before_stake(a, env, t, lock), t, amount, lock, env.unix_timestamp)->Ok_0;
    let create = if a[2].data@.len() == 0 {
        seq![
            EffectModel::CreateAccount {
                payer: a[0].key@,
                address: a[2].key@,
                lamports: rent_due(env.user_data_rent, a[2].lamports),
                space: USER_DATA_LEN as u64,
                owner: program_id,
                seeds: user_seeds(a[0].key@).push(seq![bump_of(program_address(user_seeds(a[0].key@), program_id))]),
            },
        ]
    } else {
        Seq::empty()
    };
    create + seq![
        EffectModel::TransferChecked {
            source: a[1].key@,
            mint: c.mint,
            destination: a[3].key@,
            authority: a[0].key@,
            amount,
            decimals: #[verifier::truncate] (decimals as u8),
            fee: mint_transfer_fee(a[5].data@, env.epoch, amount)->Some_0,
            seeds: Seq::empty(),
        },
        EffectModel::WriteUserData { account: a[2].key@, data: next.1 },
        EffectModel::WriteContractData { account: a[4].key@, data: next.0 },
    ]
}

/// What a stake returns.
pub open spec fn stake_outcome(
    program_id: Seq<u8>,
    a: Seq<AccountSnapshot>,
    env: Environment,
    t: StakeType,
    amount: u64,
    decimals: u64,
    lock_duration: u64,
    r: Result<Vec<Effect>, StakingError>,
) -> bool {
    match stake_failure(program_id, a, env, t, amount, lock_duration) {
        Some(e) => r == Err::<Vec<Effect>, StakingError>(e),
        None => r matches Ok(effects) && effect_views(effects@) == stake_effects(
            program_id,
            a,
            env,
            t,
            amount,
            decimals,
            effective_lock(t, lock_duration),
        ),
    }
}

/// What a deposit returns once the pool checks passed.
pub open spec fn staking_outcome(
    program_id: Seq<u8>,
    a: Seq<AccountSnapshot>,
    env: Environment,
    t: StakeType,
    amount: u64,
    decimals: u64,
    lock: u64,
    r: Result<Vec<Effect>, StakingError>,
) -> bool {
    match staking_failure(program_id, a, env, t, amount, lock) {
        Some(e) => r == Err::<Vec<Effect>, StakingError>(e),
        None => r matches Ok(effects) && effect_views(effects@) == stake_effects(program_id, a, env, t, amount, decimals, lock),
    }
}

/// The first refusal of an unstake, if any.
pub open spec fn unstake_failure(program_id: Seq<u8>, a: Seq<AccountSnapshot>, env: Environment) -> Option<StakingError> {
    if a.len() < 7 {
        Some(StakingError::NotEnoughAccountKeys)
    } else if !contract_bytes_valid(a[4].data@) || !user_bytes_valid(a[2].data@) || !token_account_valid(a[1].data@)
        || !token_account_valid(a[3].data@) {
        Some(StakingError::InvalidAccountData)
    } else if pool_failure(program_id, a) is Some {
        pool_failure(program_id, a)
    } else {
        unstaking_failure(program_id, a, env)
    }
}

/// The first refusal of a withdrawal once the pool checks passed.
pub open spec fn unstaking_failure(program_id: Seq<u8>, a: Seq<AccountSnapshot>, env: Environment) -> Option<StakingError> {
    match program_address(user_seeds(a[0].key@), program_id) {
        None => Some(StakingError::InvalidSeeds),
        Some((pda, _)) => if pda != a[2].key@ {
            Some(StakingError::InvalidAccountData)
        } else {
            let c = contract_of_bytes(a[4].data@);
            match unstake_transition(c, user_of_bytes(a[2].data@), env.unix_timestamp) {
                Err(e) => Some(e),
                Ok((_, payout)) => if program_address(contract_seeds(c.admin, c.mint), program_id) is None {
                    Some(StakingError::InvalidSeeds)
                } else {
                    match mint_inverse_transfer_fee(a[5].data@, env.epoch, payout) {
                    None => Some(StakingError::InvalidAccountData),
                    Some(extra) => if payout + extra > u64::MAX {
                        Some(StakingError::ArithmeticOverflow)
                    } else if mint_transfer_fee(a[5].data@, env.epoch, (payout + extra) as u64) is None {
                        Some(StakingError::InvalidAccountData)
                    } else {
                        None
                    },
                    }
                },
            }
        },
    }
}

/// The amount sent on an unstake: the payout plus the fee that the mint
/// takes from it on the way.
pub open spec fn gross_payout(a: Seq<AccountSnapshot>, env: Environment, payout: u64) -> u64 {
    (payout + mint_inverse_transfer_fee(a[5].data@, env.epoch, payout)->Some_0) as u64
}

/// The effects of an accepted unstake: the payout from the vault, signed by
/// the contract record's address, the clearing and closing of the user
/// record, and the contract record's write.
pub open spec fn unstake_effects(program_id: Seq<u8>, a: Seq<AccountSnapshot>, env: Environment, decimals: u64) -> Seq<EffectModel> {
    let c = contract_of_bytes(a[4].data@);
    let u = user_of_bytes(a[2].data@);
    let next = unstake_transition(c, u, env.unix_timestamp)->Ok_0;
    let gross = gross_payout(a, env, next.1);
    seq![
        EffectModel::TransferChecked {
            source: a[3].key@,
            mint: c.mint,
            destination: a[1].key@,
            authority: program_address(contract_seeds(c.admin, c.mint), program_id)->Some_0.0,
            amount: gross,
            decimals: #[verifier::truncate] (decimals as u8),
            fee: mint_transfer_fee(a[5].data@, env.epoch, gross)->Some_0,
            seeds: contract_seeds(c.admin, c.mint).push(seq![bump_of(program_address(contract_seeds(c.admin, c.mint), program_id))]),
        },
        EffectModel::WriteUserData { account: a[2].key@, data: closed_user(u) },
        EffectModel::CloseAccount { account: a[2].key@, destination: a[4].key@ },
        EffectModel::WriteContractData { account: a[4].key@, data: next.0 },
    ]
}

/// What an unstake returns.
pub open spec fn unstake_outcome(
    program_id: Seq<u8>,
    a: Seq<AccountSnapshot>,
    env: Environment,
    decimals: u64,
    r: Result<Vec<Effect>, StakingError>,
) -> bool {
    match unstake_failure(program_id, a, env) {
        Some(e) => r == Err::<Vec<Effect>, StakingError>(e),
        None => r matches Ok(effects) && effect_views(effects@) == unstake_effects(program_id, a, env, decimals),
    }
}

/// What a withdrawal returns once the pool checks passed.
pub open spec fn unstaking_outcome(
    program_id: Seq<u8>,
    a: Seq<AccountSnapshot>,
    env: Environment,
    decimals: u64,
    r: Result<Vec<Effect>, StakingError>,
) -> bool {
    match unstaking_failure(program_id, a, env) {
        Some(e) => r == Err::<Vec<Effect>, StakingError>(e),
        None => r matches Ok(effects) && effect_views(effects@) == unstake_effects(program_id, a, env, decimals),
    }
}

/// The first refusal of an admin's change to the contract record (accounts:
/// the admin, the contract record); `values_ok` is whether the new values
/// are acceptable.
pub open spec fn admin_failure(a: Seq<AccountSnapshot>, values_ok: bool) -> Option<StakingError> {
    if a.len() < 2 {
        Some(StakingError::NotEnoughAccountKeys)
    } else if !a[0].is_signer {
        Some(StakingError::MissingRequiredSignature)
    } else if !a[1].is_writable {
        Some(StakingError::InvalidAccountData)
    } else if !values_ok {
        Some(StakingError::InvalidInstructionData)
    } else if !contract_bytes_valid(a[1].data@) {
        Some(StakingError::InvalidAccountData)
    } else if contract_of_bytes(a[1].data@).admin != a[0].key@ {
        Some(StakingError::InvalidAccountData)
    } else {
        None
    }
}

/// The contract record with new interest rates; nothing else changes.
pub open spec fn with_apy(c: ContractModel, normal: u64, locked: u64) -> ContractModel {
    ContractModel { normal_staking_apy: normal, locked_staking_apy: locked, ..c }
}

/// The contract record with a new transfer-fee configuration.
pub open spec fn with_fee_config(c: ContractModel, fee_basis_points: u64, max_fee: u64) -> ContractModel {
    ContractModel { fee_basis_points, max_fee, ..c }
}

/// What a rate change returns: both rates must be nonzero.
pub open spec fn update_apy_outcome(a: Seq<AccountSnapshot>, normal: u64, locked: u64, r: Result<Vec<Effect>, StakingError>) -> bool {
    match admin_failure(a, normal >= 1 && locked >= 1) {
        Some(e) => r == Err::<Vec<Effect>, StakingError>(e),
        None => r matches Ok(effects) && effect_views(effects@) == seq![
            EffectModel::WriteContractData { account: a[1].key@, data: with_apy(contract_of_bytes(a[1].data@), normal, locked) },
        ],
    }
}

/// What a transfer-fee configuration change returns.
pub open spec fn fee_config_outcome(a: Seq<AccountSnapshot>, fee_basis_points: u64, max_fee: u64, r: Result<Vec<Effect>, StakingError>) -> bool {
    match admin_failure(a, true) {
        Some(e) => r == Err::<Vec<Effect>, StakingError>(e),
        None => r matches Ok(effects) && effect_views(effects@) == seq![
            EffectModel::WriteContractData {
                account: a[1].key@,
                data: with_fee_config(contract_of_bytes(a[1].data@), fee_basis_points, max_fee),
            },
        ],
    }
}

/// What processing an instruction returns.
pub open spec fn process_outcome(
    program_id: Seq<u8>,
    a: Seq<AccountSnapshot>,
    data: Seq<u8>,
    env: Environment,
    r: Result<Vec<Effect>, StakingError>,
) -> bool {
    match decode(data) {
        Err(e) => r == Err::<Vec<Effect>, StakingError>(e),
        Ok(Instruction::Init {
            minimum_stake_amount,
            minimum_lock_duration,
            normal_staking_apy,
            locked_staking_apy,
            early_withdrawal_fee,
            fee_basis_points,
            max_fee,
        }) => init_outcome(
            program_id,
            a,
            env,
            InitParams {
                minimum_stake_amount,
                minimum_lock_duration,
                normal_staking_apy,
                locked_staking_apy,
                early_withdrawal_fee,
                fee_basis_points,
                max_fee,
            },
            r,
        ),
        Ok(Instruction::Stake { stake_type, amount, decimals, lock_duration }) => stake_outcome(
            program_id,
            a,
            env,
            stake_type,
            amount,
            decimals,
            lock_duration,
            r,
        ),
        Ok(Instruction::UnStake { decimals }) => unstake_outcome(program_id, a, env, decimals, r),
        Ok(Instruction::ChangeTransferFeeConfig { fee_basis_points, max_fee }) => fee_config_outcome(a, fee_basis_points, max_fee, r),
        Ok(Instruction::UpdateAPY { normal_staking_apy, locked_staking_apy }) => update_apy_outcome(
            a,
            normal_staking_apy,
            locked_staking_apy,
            r,
        ),
    }
}

} // verus!

//! The instruction processor: checks the accounts of an instruction and
//! returns, in order, the effects that carry it out.
use vstd::prelude::*;
use crate::bytes::{Address, same_address};
use crate::effect::{AccountSnapshot, Effect, EffectModel, Environment, effect_views};
use crate::error::StakingError;
use crate::host::{token_account_decodes_to, try_find_program_address, token_program_id, read_token_account, transfer_fee, inverse_transfer_fee, TokenAccountInfo};
use crate::instruction::Instruction;
use crate::outcome::{
    contract_seed, user_seed, contract_seeds, user_seeds, rent_due, pool_failure, init_outcome, stake_outcome,
    staking_outcome, unstake_outcome, unstaking_outcome, admin_failure, update_apy_outcome, fee_config_outcome,
    process_outcome, with_apy, stake_effects, user_before_stake, staking_failure,
};
use crate::state::{ContractData, ContractModel, UserData, StakeType, contract_of_bytes, user_of_bytes, contract_layout, lemma_contract_round_trip};
use crate::transition::{InitParams, initial_record, new_user_record, apply_stake, apply_unstake, close_user_record};

verus! {

/// A byte vector's deep view is its view.
proof fn lemma_bytes_deep_view(v: Vec<u8>)
    ensures
        v.deep_view() == v@,
{
    assert(v.deep_view() =~= v@);
}

/// The bytes of an address as a vector.
fn address_bytes(a: &Address) -> (r: Vec<u8>)
    ensures
        r@ == a@,
{
    let mut r: Vec<u8> = Vec::new();
    let mut i: usize = 0;
    while i < 32
        invariant
            i <= 32,
            a@.len() == 32,
            r@ == a@.subrange(0, i as int),
        decreases 32 - i,
    {
        r.push(a[i]);
        i = i + 1;
        assert(r@ =~= a@.subrange(0, i as int));
    }
    assert(a@.subrange(0, 32) =~= a@);
    r
}

/// The seed list of the contract record of `admin` and `mint`.
pub fn contract_seed_list(admin: &Address, mint: &Address) -> (r: Vec<Vec<u8>>)
    ensures
        r.deep_view() == contract_seeds(admin@, mint@),
{
    let prefix: Vec<u8> = vec![115u8, 112u8, 108u8, 95u8, 115u8, 116u8, 97u8, 107u8, 105u8, 110u8, 103u8];
    assert(prefix@ =~= contract_seed());
    let mut r: Vec<Vec<u8>> = Vec::new();
    r.push(prefix);
    r.push(address_bytes(admin));
    r.push(address_bytes(mint));
    proof {
        lemma_bytes_deep_view(r@[0]);
        lemma_bytes_deep_view(r@[1]);
        lemma_bytes_deep_view(r@[2]);
    }
    assert(r.deep_view() =~= contract_seeds(admin@, mint@));
    r
}

/// The seed list of the user record of `owner`.
pub fn user_seed_list(owner: &Address) -> (r: Vec<Vec<u8>>)
    ensures
        r.deep_view() == user_seeds(owner@),
{
    let prefix: Vec<u8> = vec![115u8, 112u8, 108u8, 95u8, 115u8, 116u8, 97u8, 107u8, 105u8, 110u8, 103u8, 95u8, 117u8, 115u8, 101u8, 114u8];
    assert(prefix@ =~= user_seed());
    let mut r: Vec<Vec<u8>> = Vec::new();
    r.push(prefix);
    r.push(address_bytes(owner));
    proof {
        lemma_bytes_deep_view(r@[0]);
        lemma_bytes_deep_view(r@[1]);
    }
    assert(r.deep_view() =~= user_seeds(owner@));
    r
}

/// The seeds followed by the bump seed, as a program signs with them.
fn with_bump(seeds: Vec<Vec<u8>>, bump: u8) -> (r: Vec<Vec<u8>>)
    ensures
        r.deep_view() == seeds.deep_view().push(seq![bump]),
{
    let ghost before = seeds.deep_view();
    let ghost old_items = seeds@;
    let mut r = seeds;
    let b: Vec<u8> = vec![bump];
    assert(b@ =~= seq![bump]);
    r.push(b);
    proof {
        lemma_bytes_deep_view(b);
        assert forall|i: int| 0 <= i < old_items.len() implies r.deep_view()[i] == before[i] by {
            assert(r@[i] == old_items[i]);
        }
    }
    assert(r.deep_view() =~= before.push(seq![bump]));
    r
}

/// Lamports to add so that an account holding `lamports` reaches the rent-exempt balance.
fn lamports_due(rent: u64, lamports: u64) -> (r: u64)
    ensures
        r == rent_due(rent, lamports),
{
    let need: u64 = if rent >= 1 { rent } else { 1 };
    need.saturating_sub(lamports)
}

/// The checks shared by staking and unstaking.
fn verify_pool(
    program_id: &Address,
    accounts: &Vec<AccountSnapshot>,
    contract: &ContractData,
    user_token: &TokenAccountInfo,
    vault: &TokenAccountInfo,
) -> (r: Result<(), StakingError>)
    requires
        accounts@.len() >= 5,
        contract@ == contract_of_bytes(accounts@[4].data@),
        token_account_decodes_to(accounts@[1].data@, *user_token),
        token_account_decodes_to(accounts@[3].data@, *vault),
    ensures
        match pool_failure(program_id@, accounts@) {
            Some(e) => r == Err::<(), StakingError>(e),
            None => r == Ok::<(), StakingError>(()),
        },
{
    if !accounts[0].is_signer {
        return Err(StakingError::MissingRequiredSignature);
    }
    if !same_address(&user_token.owner, &accounts[0].key) {
        return Err(StakingError::InvalidAccountData);
    }
    if !same_address(&user_token.mint, &contract.stake_token_mint) {
        return Err(StakingError::InvalidAccountData);
    }
    if user_token.amount < contract.minimum_stake_amount {
        return Err(StakingError::InsufficientFunds);
    }
    let seeds = contract_seed_list(&contract.admin_pubkey, &contract.stake_token_mint);
    let (pda, _bump) = match try_find_program_address(&seeds, program_id) {
        Some(d) => d,
        None => return Err(StakingError::InvalidSeeds),
    };
    if !same_address(&pda, &accounts[4].key) {
        return Err(StakingError::InvalidAccountData);
    }
    if !same_address(&accounts[3].key, &contract.stake_token_account) {
        return Err(StakingError::InvalidAccountData);
    }
    if !same_address(&contract.stake_token_mint, &vault.mint) {
        return Err(StakingError::InvalidAccountData);
    }
    if !same_address(&pda, &vault.owner) {
        return Err(StakingError::InvalidAccountData);
    }
    Ok(())
}

/// The processor of the contract's instructions.
pub struct Processor;

impl Processor {
    /// Initializes the contract record of the signing admin and a mint.
    ///
    /// Accounts: the admin (signer), the contract record (writable, at the
    /// derived address), the vault token account, the mint, the token
    /// program, the system program.
    pub fn init(program_id: &Address, accounts: &Vec<AccountSnapshot>, env: &Environment, params: &InitParams) -> (r: Result<Vec<Effect>, StakingError>)
        ensures
            init_outcome(program_id@, accounts@, *env, *params, r),
    {
        if accounts.len() < 6 {
            return Err(StakingError::NotEnoughAccountKeys);
        }
        let admin = &accounts[0];
        let data_account = &accounts[1];
        let vault = &accounts[2];
        let mint = &accounts[3];
        let token_program = &accounts[4];
        if !admin.is_signer {
            return Err(StakingError::MissingRequiredSignature);
        }
        if !data_account.is_writable {
            return Err(StakingError::InvalidAccountData);
        }
        if params.minimum_stake_amount == 0 {
            return Err(StakingError::InvalidInstructionData);
        }
        let token_id = token_program_id();
        if !same_address(&token_program.key, &token_id) {
            return Err(StakingError::InvalidInstructionData);
        }
        if !same_address(&vault.owner, &token_id) {
            return Err(StakingError::InvalidAccountData);
        }
        if !same_address(&mint.owner, &token_id) {
            return Err(StakingError::InvalidAccountData);
        }
        let seeds = contract_seed_list(&admin.key, &mint.key);
        let (pda, bump) = match try_find_program_address(&seeds, program_id) {
            Some(d) => d,
            None => return Err(StakingError::InvalidSeeds),
        };
        if !same_address(&pda, &data_account.key) {
            return Err(StakingError::InvalidAccountData);
        }
        match ContractData::unpack_from_slice(data_account.data.as_slice()) {
            Ok(existing) => {
                if existing.is_initialized {
                    return Err(StakingError::AccountAlreadyInitialized);
                }
            },
            Err(_) => {},
        }
        let record = initial_record(&admin.key, &mint.key, &vault.key, params);
        let mut effects: Vec<Effect> = Vec::new();
        effects.push(Effect::CreateAccount {
            payer: admin.key,
            address: data_account.key,
            lamports: lamports_due(env.contract_data_rent, data_account.lamports),
            space: ContractData::LEN as u64,
            owner: *program_id,
            seeds: with_bump(seeds, bump),
        });
        effects.push(Effect::SetAccountOwner { account: vault.key, new_owner: data_account.key, current_owner: admin.key });
        effects.push(Effect::WriteContractData { account: data_account.key, data: record });
        assert(effect_views(effects@) =~= seq![effects@[0]@, effects@[1]@, effects@[2]@]);
        Ok(effects)
    }

    /// Deposits tokens for the signing user.
    ///
    /// Accounts: the user (signer), the user's token account, the user record
    /// (at the derived address), the vault, the contract record, the mint, the
    /// token program, the system program.
    pub fn stake(
        program_id: &Address,
        accounts: &Vec<AccountSnapshot>,
        env: &Environment,
        stake_type: StakeType,
        amount: u64,
        decimals: u64,
        lock_duration: u64,
    ) -> (r: Result<Vec<Effect>, StakingError>)
        ensures
            stake_outcome(program_id@, accounts@, *env, stake_type, amount, decimals, lock_duration, r),
    {
        if accounts.len() < 8 {
            return Err(StakingError::NotEnoughAccountKeys);
        }
        let contract = match ContractData::unpack_from_slice(accounts[4].data.as_slice()) {
            Ok(c) => c,
            Err(e) => return Err(e),
        };
        let user_token = match read_token_account(accounts[1].data.as_slice()) {
            Ok(t) => t,
            Err(e) => return Err(e),
        };
        let vault = match read_token_account(accounts[3].data.as_slice()) {
            Ok(t) => t,
            Err(e) => return Err(e),
        };
        match verify_pool(program_id, accounts, &contract, &user_token, &vault) {
            Ok(_) => {},
            Err(e) => return Err(e),
        }
        let lock: u64 = match stake_type {
            StakeType::NORMAL => 0,
            StakeType::LOCKED => {
                if lock_duration < contract.minimum_lock_duration {
                    return Err(StakingError::InvalidInstructionData);
                }
                lock_duration
            },
        };
        Self::perform_staking(program_id, accounts, env, &contract, stake_type, amount, decimals, lock)
    }

    /// Checks the user record, creates it on a first stake, and plans the
    /// deposit and the record writes.
    pub fn perform_staking(
        program_id: &Address,
        accounts: &Vec<AccountSnapshot>,
        env: &Environment,
        contract: &ContractData,
        stake_type: StakeType,
        amount: u64,
        decimals: u64,
        lock: u64,
    ) -> (r: Result<Vec<Effect>, StakingError>)
        requires
            accounts@.len() >= 8,
            contract@ == contract_of_bytes(accounts@[4].data@),
        ensures
            staking_outcome(program_id@, accounts@, *env, stake_type, amount, decimals, lock, r),
    {
        let seeds = user_seed_list(&accounts[0].key);
        let (pda, bump) = match try_find_program_address(&seeds, program_id) {
            Some(d) => d,
            None => return Err(StakingError::InvalidSeeds),
        };
        if !same_address(&pda, &accounts[2].key) {
            return Err(StakingError::InvalidAccountData);
        }
        let now = env.unix_timestamp;
        let fresh = accounts[2].data.len() == 0;
        let user = if fresh {
            new_user_record(&accounts[0].key, stake_type, lock, now)
        } else {
            match UserData::unpack_from_slice(accounts[2].data.as_slice()) {
                Ok(u) => u,
                Err(e) => return Err(e),
            }
        };
        let (next_contract, next_user) = match apply_stake(contract, &user, stake_type, amount, lock, now) {
            Ok(pair) => pair,
            Err(e) => return Err(e),
        };
        let fee = match transfer_fee(accounts[5].data.as_slice(), env.epoch, amount) {
            Ok(f) => f,
            Err(e) => return Err(e),
        };
        let mut effects: Vec<Effect> = Vec::new();
        if fresh {
            effects.push(Effect::CreateAccount {
                payer: accounts[0].key,
                address: accounts[2].key,
                lamports: lamports_due(env.user_data_rent, accounts[2].lamports),
                space: UserData::LEN as u64,
                owner: *program_id,
                seeds: with_bump(seeds, bump),
            });
        }
        let ghost created = effect_views(effects@);
        let no_seeds: Vec<Vec<u8>> = Vec::new();
        assert(no_seeds.deep_view() =~= Seq::<Seq<u8>>::empty());
        effects.push(Effect::TransferChecked {
            source: accounts[1].key,
            mint: contract.stake_token_mint,
            destination: accounts[3].key,
            authority: accounts[0].key,
            amount,
            decimals: #[verifier::truncate] (decimals as u8),
            fee,
            seeds: no_seeds,
        });
        effects.push(Effect::WriteUserData { account: accounts[2].key, data: next_user });
        effects.push(Effect::WriteContractData { account: accounts[4].key, data: next_contract });
        proof {
            let n = effects@.len() - 3;
            assert(effect_views(effects@) =~= created + seq![effects@[n]@, effects@[n + 1]@, effects@[n + 2]@]);
            let want = stake_effects(program_id@, accounts@, *env, stake_type, amount, decimals, lock);
            assert(user@ == user_before_stake(accounts@, *env, stake_type, lock));
            assert(staking_failure(program_id@, accounts@, *env, stake_type, amount, lock) is None);
            if fresh {
                assert(created =~= seq![effects@[0]@]);
                assert(created == want.subrange(0, 1));
            } else {
                assert(created =~= Seq::<EffectModel>::empty());
            }
            assert(effects@[n]@ == want[want.len() - 3]);
            assert(effects@[n + 1]@ == want[want.len() - 2]);
            assert(effects@[n + 2]@ == want[want.len() - 1]);
        }
        Ok(effects)
    }

    /// Pays out the signing user's stake and closes the user record.
    ///
    /// Accounts: the user (signer), the user's token account, the user
    /// record, the vault, the contract record, the mint, the token program.
    pub fn unstake(program_id: &Address, accounts: &Vec<AccountSnapshot>, env: &Environment, decimals: u64) -> (r: Result<Vec<Effect>, StakingError>)
        ensures
            unstake_outcome(program_id@, accounts@, *env, decimals, r),
    {
        if accounts.len() < 7 {
            return Err(StakingError::NotEnoughAccountKeys);
        }
        let contract = match ContractData::unpack_from_slice(accounts[4].data.as_slice()) {
            Ok(c) => c,
            Err(e) => return Err(e),
        };
        let user = match UserData::unpack_from_slice(accounts[2].data.as_slice()) {
            Ok(u) => u,
            Err(e) => return Err(e),
        };
        let user_token = match read_token_account(accounts[1].data.as_slice()) {
            Ok(t) => t,
            Err(e) => return Err(e),
        };
        let vault = match read_token_account(accounts[3].data.as_slice()) {
            Ok(t) => t,
            Err(e) => return Err(e),
        };
        match verify_pool(program_id, accounts, &contract, &user_token, &vault) {
            Ok(_) => {},
            Err(e) => return Err(e),
        }
        Self::perform_unstake(program_id, accounts, env, &contract, &user, decimals)
    }

    /// Checks the user record, computes the payout and plans the transfer,
    /// the closing of the user record and the contract record's write.
    pub fn perform_unstake(
        program_id: &Address,
        accounts: &Vec<AccountSnapshot>,
        env: &Environment,
        contract: &ContractData,
        user: &UserData,
        decimals: u64,
    ) -> (r: Result<Vec<Effect>, StakingError>)
        requires
            accounts@.len() >= 7,
            contract@ == contract_of_bytes(accounts@[4].data@),
            user@ == user_of_bytes(accounts@[2].data@),
        ensures
            unstaking_outcome(program_id@, accounts@, *env, decimals, r),
    {
        let seeds = user_seed_list(&accounts[0].key);
        let (pda, _user_bump) = match try_find_program_address(&seeds, program_id) {
            Some(d) => d,
            None => return Err(StakingError::InvalidSeeds),
        };
        if !same_address(&pda, &accounts[2].key) {
            return Err(StakingError::InvalidAccountData);
        }
        let (next_contract, payout) = match apply_unstake(contract, user, env.unix_timestamp) {
            Ok(pair) => pair,
            Err(e) => return Err(e),
        };
        let contract_seeds = contract_seed_list(&contract.admin_pubkey, &contract.stake_token_mint);
        let (authority, bump) = match try_find_program_address(&contract_seeds, program_id) {
            Some(d) => d,
            None => return Err(StakingError::InvalidSeeds),
        };
        let extra = match inverse_transfer_fee(accounts[5].data.as_slice(), env.epoch, payout) {
            Ok(f) => f,
            Err(e) => return Err(e),
        };
        let gross = match payout.checked_add(extra) {
            Some(g) => g,
            None => return Err(StakingError::ArithmeticOverflow),
        };
        let fee = match transfer_fee(accounts[5].data.as_slice(), env.epoch, gross) {
            Ok(f) => f,
            Err(e) => return Err(e),
        };
        let signer_seeds = with_bump(contract_seeds, bump);
        let mut effects: Vec<Effect> = Vec::new();
        effects.push(Effect::TransferChecked {
            source: accounts[3].key,
            mint: contract.stake_token_mint,
            destination: accounts[1].key,
            authority,
            amount: gross,
            decimals: #[verifier::truncate] (decimals as u8),
            fee,
            seeds: signer_seeds,
        });
        effects.push(Effect::WriteUserData { account: accounts[2].key, data: close_user_record(user) });
        effects.push(Effect::CloseAccount { account: accounts[2].key, destination: accounts[4].key });
        effects.push(Effect::WriteContractData { account: accounts[4].key, data: next_contract });
        assert(effect_views(effects@) =~= seq![effects@[0]@, effects@[1]@, effects@[2]@, effects@[3]@]);
        Ok(effects)
    }

    /// Checks an admin's change: signer, writable record, acceptable values,
    /// and the signer being the record's admin. Gives the stored record.
    fn verify_admin(accounts: &Vec<AccountSnapshot>, values_ok: bool) -> (r: Result<ContractData, StakingError>)
        ensures
            match admin_failure(accounts@, values_ok) {
                Some(e) => r == Err::<ContractData, StakingError>(e),
                None => r matches Ok(c) && c@ == contract_of_bytes(accounts@[1].data@),
            },
    {
        if accounts.len() < 2 {
            return Err(StakingError::NotEnoughAccountKeys);
        }
        if !accounts[0].is_signer {
            return Err(StakingError::MissingRequiredSignature);
        }
        if !accounts[1].is_writable {
            return Err(StakingError::InvalidAccountData);
        }
        if !values_ok {
            return Err(StakingError::InvalidInstructionData);
        }
        let contract = match ContractData::unpack_from_slice(accounts[1].data.as_slice()) {
            Ok(c) => c,
            Err(e) => return Err(e),
        };
        if !same_address(&contract.admin_pubkey, &accounts[0].key) {
            return Err(StakingError::InvalidAccountData);
        }
        Ok(contract)
    }

    /// Sets both interest rates; the signer must be the record's admin.
    ///
    /// Accounts: the admin (signer), the contract record (writable).
    pub fn update_apy(
        accounts: &Vec<AccountSnapshot>,
        normal_staking_apy: u64,
        locked_staking_apy: u64,
    ) -> (r: Result<Vec<Effect>, StakingError>)
        ensures
            update_apy_outcome(accounts@, normal_staking_apy, locked_staking_apy, r),
    {
        let contract = match Self::verify_admin(accounts, normal_staking_apy >= 1 && locked_staking_apy >= 1) {
            Ok(c) => c,
            Err(e) => return Err(e),
        };
        let updated = ContractData { normal_staking_apy, locked_staking_apy, ..contract };
        let mut effects: Vec<Effect> = Vec::new();
        effects.push(Effect::WriteContractData { account: accounts[1].key, data: updated });
        assert(effect_views(effects@) =~= seq![effects@[0]@]);
        Ok(effects)
    }

    /// Sets the recorded transfer fee of the mint; the signer must be the record's admin.
    ///
    /// Accounts: the admin (signer), the contract record (writable).
    pub fn change_transfer_fee_config(
        accounts: &Vec<AccountSnapshot>,
        fee_basis_points: u64,
        max_fee: u64,
    ) -> (r: Result<Vec<Effect>, StakingError>)
        ensures
            fee_config_outcome(accounts@, fee_basis_points, max_fee, r),
    {
        let contract = match Self::verify_admin(accounts, true) {
            Ok(c) => c,
            Err(e) => return Err(e),
        };
        let updated = ContractData { fee_basis_points, max_fee, ..contract };
        let mut effects: Vec<Effect> = Vec::new();
        effects.push(Effect::WriteContractData { account: accounts[1].key, data: updated });
        assert(effect_views(effects@) =~= seq![effects@[0]@]);
        Ok(effects)
    }

    /// Decodes an instruction and carries it out against the given accounts.
    pub fn process(
        program_id: &Address,
        accounts: &Vec<AccountSnapshot>,
        instruction_data: &[u8],
        env: &Environment,
    ) -> (r: Result<Vec<Effect>, StakingError>)
        ensures
            process_outcome(program_id@, accounts@, instruction_data@, *env, r),
    {
        let instruction = match Instruction::unpack(instruction_data) {
            Ok(i) => i,
            Err(e) => return Err(e),
        };
        match instruction {
            Instruction::Init {
                minimum_stake_amount,
                minimum_lock_duration,
                normal_staking_apy,
                locked_staking_apy,
                early_withdrawal_fee,
                fee_basis_points,
                max_fee,
            } => {
                let params = InitParams {
                    minimum_stake_amount,
                    minimum_lock_duration,
                    normal_staking_apy,
                    locked_staking_apy,
                    early_withdrawal_fee,
                    fee_basis_points,
                    max_fee,
                };
                Self::init(program_id, accounts, env, &params)
            },
            Instruction::Stake { stake_type, amount, decimals, lock_duration } => {
                Self::stake(program_id, accounts, env, stake_type, amount, decimals, lock_duration)
            },
            Instruction::UnStake { decimals } => Self::unstake(program_id, accounts, env, decimals),
            Instruction::ChangeTransferFeeConfig { fee_basis_points, max_fee } => {
                Self::change_transfer_fee_config(accounts, fee_basis_points, max_fee)
            },
            Instruction::UpdateAPY { normal_staking_apy, locked_staking_apy } => {
                Self::update_apy(accounts, normal_staking_apy, locked_staking_apy)
            },
        }
    }
}

} // verus!

verus! {

/// Whether the record written to `account` reads back, once packed, as the
/// old record of `a` with the new rates.
pub open spec fn apy_read_back(a: Seq<AccountSnapshot>, normal: u64, locked: u64, account: Seq<u8>, data: ContractModel) -> bool {
    let before = contract_of_bytes(a[1].data@);
    let after = contract_of_bytes(contract_layout(data));
    &&& account == a[1].key@
    &&& after.normal_staking_apy == normal
    &&& after.locked_staking_apy == locked
    &&& after.total_staked == before.total_staked
    &&& after.total_earned == before.total_earned
    &&& after == with_apy(before, normal, locked)
}

/// After an accepted rate change, decoding the record it writes gives exactly
/// the new rates, with the totals and every other field as they were.
pub proof fn lemma_update_apy_read_back(a: Seq<AccountSnapshot>, normal: u64, locked: u64, r: Result<Vec<Effect>, StakingError>)
    requires
        update_apy_outcome(a, normal, locked, r),
        r is Ok,
    ensures
        r matches Ok(effects) && effects@.len() == 1 && (effects@[0] matches Effect::WriteContractData { account, data }
            && apy_read_back(a, normal, locked, account@, data@)),
{
    let effects = r->Ok_0;
    assert(effect_views(effects@).len() == 1);
    assert(effect_views(effects@)[0] == effects@[0]@);
    match effects@[0] {
        Effect::WriteContractData { account, data } => {
            lemma_contract_round_trip(data@);
        },
        _ => {},
    }
}

} // verus!

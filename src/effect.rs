//! What the processor reads of accounts and host, and the effects it asks for.
use vstd::prelude::*;
use crate::bytes::Address;
use crate::state::{ContractData, ContractModel, UserData, UserModel};

verus! {

/// What the processor sees of an account passed to an instruction.
#[derive(Debug, Clone)]
pub struct AccountSnapshot {
    pub key: Address,
    /// The program that owns the account.
    pub owner: Address,
    pub lamports: u64,
    pub is_signer: bool,
    pub is_writable: bool,
    pub data: Vec<u8>,
}

/// What the processor reads of the host: the clock and the rent-exempt
/// balances of the two record sizes.
#[derive(Debug, Clone, Copy, PartialEq, Eq, Structural)]
pub struct Environment {
    pub unix_timestamp: u64,
    pub epoch: u64,
    pub contract_data_rent: u64,
    pub user_data_rent: u64,
}

/// A side effect that the caller performs, in the order given.
#[allow(inconsistent_fields)]
#[derive(Debug, Clone)]
pub enum Effect {
    /// Create `address`, funded by `payer`, signed for by the program with `seeds`.
    CreateAccount { payer: Address, address: Address, lamports: u64, space: u64, owner: Address, seeds: Vec<Vec<u8>> },
    /// Make `new_owner` the owner of the token account `account`, signed by `current_owner`.
    SetAccountOwner { account: Address, new_owner: Address, current_owner: Address },
    /// A checked token transfer with its expected fee; empty `seeds` mean a
    /// human signer, others a program signature.
    TransferChecked {
        source: Address,
        mint: Address,
        destination: Address,
        authority: Address,
        amount: u64,
        decimals: u8,
        fee: u64,
        seeds: Vec<Vec<u8>>,
    },
    /// Store a contract record at the start of the account's data.
    WriteContractData { account: Address, data: ContractData },
    /// Store a user record at the start of the account's data.
    WriteUserData { account: Address, data: UserData },
    /// Move all lamports of `account` to `destination`, closing it.
    CloseAccount { account: Address, destination: Address },
}

/// An effect with addresses as byte sequences.
#[allow(inconsistent_fields)]
pub enum EffectModel {
    CreateAccount { payer: Seq<u8>, address: Seq<u8>, lamports: u64, space: u64, owner: Seq<u8>, seeds: Seq<Seq<u8>> },
    SetAccountOwner { account: Seq<u8>, new_owner: Seq<u8>, current_owner: Seq<u8> },
    TransferChecked {
        source: Seq<u8>,
        mint: Seq<u8>,
        destination: Seq<u8>,
        authority: Seq<u8>,
        amount: u64,
        decimals: u8,
        fee: u64,
        seeds: Seq<Seq<u8>>,
    },
    WriteContractData { account: Seq<u8>, data: ContractModel },
    WriteUserData { account: Seq<u8>, data: UserModel },
    CloseAccount { account: Seq<u8>, destination: Seq<u8> },
}

impl View for Effect {
    type V = EffectModel;

    open spec fn view(&self) -> EffectModel {
        match self {
            Effect::CreateAccount { payer, address, lamports, space, owner, seeds } => EffectModel::CreateAccount {
                payer: payer@,
                address: address@,
                lamports: *lamports,
                space: *space,
                owner: owner@,
                seeds: seeds.deep_view(),
            },
            Effect::SetAccountOwner { account, new_owner, current_owner } => EffectModel::SetAccountOwner {
                account: account@,
                new_owner: new_owner@,
                current_owner: current_owner@,
            },
            Effect::TransferChecked { source, mint, destination, authority, amount, decimals, fee, seeds } => EffectModel::TransferChecked {
                source: source@,
                mint: mint@,
                destination: destination@,
                authority: authority@,
                amount: *amount,
                decimals: *decimals,
                fee: *fee,
                seeds: seeds.deep_view(),
            },
            Effect::WriteContractData { account, data } => EffectModel::WriteContractData { account: account@, data: data@ },
            Effect::WriteUserData { account, data } => EffectModel::WriteUserData { account: account@, data: data@ },
            Effect::CloseAccount { account, destination } => EffectModel::CloseAccount { account: account@, destination: destination@ },
        }
    }
}

/// The views of a list of effects.
pub open spec fn effect_views(s: Seq<Effect>) -> Seq<EffectModel> {
    s.map_values(|e: Effect| e@)
}

} // verus!

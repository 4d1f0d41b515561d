//! What the library takes from the Solana program library and the token-2022
//! program: address derivation, token-account decoding and the mint's
//! transfer-fee schedule.
use vstd::prelude::*;
use solana_program::program_pack::Pack;
use solana_program::pubkey::Pubkey;
use spl_token_2022::extension::BaseStateWithExtensions;
use crate::bytes::{Address, u64_at};
use crate::error::StakingError;

verus! {

/// The program-derived address of `seeds` under `program_id`, with its bump
/// seed, or `None` where no bump seed gives an address off the curve.
pub uninterp spec fn program_address(seeds: Seq<Seq<u8>>, program_id: Seq<u8>) -> Option<(Seq<u8>, u8)>;

/// The fee that the token program charges on a transfer of `amount` of the
/// mint whose account data is `mint`, at `epoch`; `None` where the data is
/// not an initialized mint.
pub uninterp spec fn mint_transfer_fee(mint: Seq<u8>, epoch: u64, amount: u64) -> Option<u64>;

/// The fee to add to a transfer of the mint so that `net` arrives after the
/// fee, at `epoch`; `None` where the data is not an initialized mint.
pub uninterp spec fn mint_inverse_transfer_fee(mint: Seq<u8>, epoch: u64, net: u64) -> Option<u64>;

/// The address of the token-2022 program.
pub open spec fn token_program_address() -> Seq<u8> {
    seq![
        6u8, 221u8, 246u8, 225u8, 238u8, 117u8, 143u8, 222u8, 24u8, 66u8, 93u8, 188u8, 228u8, 108u8, 205u8, 218u8,
        182u8, 26u8, 252u8, 77u8, 131u8, 185u8, 13u8, 39u8, 254u8, 189u8, 249u8, 40u8, 216u8, 161u8, 139u8, 252u8,
    ]
}

/// Size of the base state of a token account.
pub const TOKEN_ACCOUNT_LEN: usize = 165;

/// Whether a 4-byte option tag at `at` reads none (0) or some (1).
pub open spec fn option_tag_valid(s: Seq<u8>, at: int) -> bool {
    (s[at] == 0 || s[at] == 1) && s[at + 1] == 0 && s[at + 2] == 0 && s[at + 3] == 0
}

/// Whether `s` starts with a well-formed token account: the delegate, native
/// and close-authority options carry valid tags and the state byte is one of
/// the three states.
pub open spec fn token_account_valid(s: Seq<u8>) -> bool {
    &&& s.len() >= TOKEN_ACCOUNT_LEN
    &&& option_tag_valid(s, 72)
    &&& s[108] <= 2
    &&& option_tag_valid(s, 109)
    &&& option_tag_valid(s, 129)
}

/// What the contract reads of a token account.
#[derive(Debug, Clone, Copy)]
pub struct TokenAccountInfo {
    pub mint: Address,
    pub owner: Address,
    pub amount: u64,
}

/// Whether `a` is what the token account at the start of `s` holds.
pub open spec fn token_account_decodes_to(s: Seq<u8>, a: TokenAccountInfo) -> bool {
    &&& a.mint@ == s.subrange(0, 32)
    &&& a.owner@ == s.subrange(32, 64)
    &&& a.amount == u64_at(s, 64)
}

/// Relies on `Pubkey::try_find_program_address` of solana_program: the
/// derived address and bump seed depend on the seeds and the program id alone.
#[verifier::external_body]
pub(crate) fn try_find_program_address(seeds: &Vec<Vec<u8>>, program_id: &Address) -> (r: Option<(Address, u8)>)
    ensures
        r matches Some((a, b)) ==> program_address(seeds.deep_view(), program_id@) == Some((a@, b)),
        r is None ==> program_address(seeds.deep_view(), program_id@) is None,
{
    let parts: Vec<&[u8]> = seeds.iter().map(|s| s.as_slice()).collect();
    Pubkey::try_find_program_address(&parts, &Pubkey::new_from_array(*program_id))
        .map(|(key, bump)| (key.to_bytes(), bump))
}

/// Relies on `Pack::unpack_from_slice` of spl_token_2022's `state::Account`:
/// mint, owner and amount are the first 32, 32 and 8 bytes (little endian),
/// and decoding fails exactly where an option tag or the state byte is invalid.
#[verifier::external_body]
fn unpack_token_account(data: &[u8]) -> (r: Option<TokenAccountInfo>)
    requires
        data.len() >= TOKEN_ACCOUNT_LEN,
    ensures
        r is Some <==> token_account_valid(data@),
        r matches Some(a) ==> token_account_decodes_to(data@, a),
{
    match spl_token_2022::state::Account::unpack_from_slice(data) {
        Ok(a) => Some(TokenAccountInfo { mint: a.mint.to_bytes(), owner: a.owner.to_bytes(), amount: a.amount }),
        Err(_) => None,
    }
}

/// Relies on `StateWithExtensions::<Mint>::unpack`, `get_extension::<TransferFeeConfig>`
/// and `TransferFeeConfig::calculate_epoch_fee` of spl_token_2022: the fee on a
/// transfer of `amount` at `epoch`, zero for a mint without a transfer-fee extension.
#[verifier::external_body]
fn epoch_transfer_fee(mint_data: &[u8], epoch: u64, amount: u64) -> (r: Option<u64>)
    ensures
        r == mint_transfer_fee(mint_data@, epoch, amount),
{
    let mint = match spl_token_2022::extension::StateWithExtensions::<spl_token_2022::state::Mint>::unpack(mint_data) {
        Ok(m) => m,
        Err(_) => return None,
    };
    match mint.get_extension::<spl_token_2022::extension::transfer_fee::TransferFeeConfig>() {
        Ok(config) => config.calculate_epoch_fee(epoch, amount),
        Err(_) => Some(0),
    }
}

/// Relies on `StateWithExtensions::<Mint>::unpack`, `get_extension::<TransferFeeConfig>`
/// and `TransferFeeConfig::calculate_inverse_epoch_fee` of spl_token_2022: the fee
/// that a transfer arriving as `net` at `epoch` carries, zero for a mint without a
/// transfer-fee extension.
#[verifier::external_body]
fn epoch_inverse_transfer_fee(mint_data: &[u8], epoch: u64, net: u64) -> (r: Option<u64>)
    ensures
        r == mint_inverse_transfer_fee(mint_data@, epoch, net),
{
    let mint = match spl_token_2022::extension::StateWithExtensions::<spl_token_2022::state::Mint>::unpack(mint_data) {
        Ok(m) => m,
        Err(_) => return None,
    };
    match mint.get_extension::<spl_token_2022::extension::transfer_fee::TransferFeeConfig>() {
        Ok(config) => config.calculate_inverse_epoch_fee(epoch, net),
        Err(_) => Some(0),
    }
}

/// Relies on `spl_token_2022::ID`, the token-2022 program's address.
#[verifier::external_body]
pub(crate) fn token_program_id() -> (r: Address)
    ensures
        r@ == token_program_address(),
{
    spl_token_2022::ID.to_bytes()
}

/// Decodes the token account held in `data`.
pub fn read_token_account(data: &[u8]) -> (r: Result<TokenAccountInfo, StakingError>)
    ensures
        r is Ok <==> token_account_valid(data@),
        r is Err ==> r == Err::<TokenAccountInfo, StakingError>(StakingError::InvalidAccountData),
        r matches Ok(a) ==> token_account_decodes_to(data@, a),
{
    if data.len() < TOKEN_ACCOUNT_LEN {
        return Err(StakingError::InvalidAccountData);
    }
    match unpack_token_account(data) {
        Some(a) => Ok(a),
        None => Err(StakingError::InvalidAccountData),
    }
}

/// The transfer fee of the mint held in `mint_data`; data that is no mint is
/// refused as invalid account data.
pub fn transfer_fee(mint_data: &[u8], epoch: u64, amount: u64) -> (r: Result<u64, StakingError>)
    ensures
        r == match mint_transfer_fee(mint_data@, epoch, amount) {
            Some(f) => Ok::<u64, StakingError>(f),
            None => Err(StakingError::InvalidAccountData),
        },
{
    match epoch_transfer_fee(mint_data, epoch, amount) {
        Some(f) => Ok(f),
        None => Err(StakingError::InvalidAccountData),
    }
}

/// The fee to add on top of `net` so that `net` arrives; data that is no mint
/// is refused as invalid account data.
pub fn inverse_transfer_fee(mint_data: &[u8], epoch: u64, net: u64) -> (r: Result<u64, StakingError>)
    ensures
        r == match mint_inverse_transfer_fee(mint_data@, epoch, net) {
            Some(f) => Ok::<u64, StakingError>(f),
            None => Err(StakingError::InvalidAccountData),
        },
{
    match epoch_inverse_transfer_fee(mint_data, epoch, net) {
        Some(f) => Ok(f),
        None => Err(StakingError::InvalidAccountData),
    }
}

} // verus!

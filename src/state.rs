//! The two persistent records and their fixed-width binary layouts.
use vstd::prelude::*;
use vstd::bytes::{spec_u64_to_le_bytes, lemma_auto_spec_u64_to_from_le_bytes};
use crate::bytes::{Address, u64_at, read_u64, read_address, push_u64, push_address};
use crate::error::StakingError;

verus! {

/// The staking policy of a user record.
#[derive(Debug, Clone, Copy, PartialEq, Eq, Structural)]
pub enum StakeType {
    /// Open-ended staking: no lock, a minimum holding period before unstaking.
    NORMAL,
    /// Time-locked staking: an early exit pays a penalty and no interest.
    LOCKED,
}

/// The byte that encodes a stake type.
pub open spec fn stake_type_tag(t: StakeType) -> u8 {
    match t {
        StakeType::NORMAL => 0u8,
        StakeType::LOCKED => 1u8,
    }
}

/// The stake type that a byte encodes, if any.
pub open spec fn stake_type_of_tag(b: u8) -> Option<StakeType> {
    if b == 0 {
        Some(StakeType::NORMAL)
    } else if b == 1 {
        Some(StakeType::LOCKED)
    } else {
        None
    }
}

impl StakeType {
    /// The byte that encodes this stake type.
    pub fn tag(&self) -> (r: u8)
        ensures
            r == stake_type_tag(*self),
    {
        match self {
            StakeType::NORMAL => 0,
            StakeType::LOCKED => 1,
        }
    }

    /// The stake type that `b` encodes.
    pub fn from_tag(b: u8) -> (r: Option<StakeType>)
        ensures
            r == stake_type_of_tag(b),
    {
        if b == 0 {
            Some(StakeType::NORMAL)
        } else if b == 1 {
            Some(StakeType::LOCKED)
        } else {
            None
        }
    }
}

/// The byte that encodes a flag.
pub open spec fn flag_byte(b: bool) -> u8 {
    if b { 1u8 } else { 0u8 }
}

/// The contract record: one per admin and mint, at a derived address.
#[derive(Debug, Clone, Copy)]
pub struct ContractData {
    pub is_initialized: bool,
    /// The account allowed to change the policy.
    pub admin_pubkey: Address,
    /// The mint of the staked token.
    pub stake_token_mint: Address,
    /// The vault token account that holds staked principal and interest.
    pub stake_token_account: Address,
    /// Minimum token balance a user must hold to stake or unstake.
    pub minimum_stake_amount: u64,
    /// Minimum lock duration of a locked stake, in seconds.
    pub minimum_lock_duration: u64,
    /// Yearly interest of normal staking, with one decimal (10 is 1%).
    pub normal_staking_apy: u64,
    /// Yearly interest of locked staking, with one decimal.
    pub locked_staking_apy: u64,
    /// Penalty of an early locked exit, per mille.
    pub early_withdrawal_fee: u64,
    /// Sum of the principal of all live stakes.
    pub total_staked: u64,
    /// Interest recognized so far.
    pub total_earned: u64,
    /// Transfer fee of the mint, in basis points.
    pub fee_basis_points: u64,
    /// Largest transfer fee of the mint.
    pub max_fee: u64,
}

/// The values of a contract record, addresses as byte sequences.
pub struct ContractModel {
    pub is_initialized: bool,
    pub admin: Seq<u8>,
    pub mint: Seq<u8>,
    pub vault: Seq<u8>,
    pub minimum_stake_amount: u64,
    pub minimum_lock_duration: u64,
    pub normal_staking_apy: u64,
    pub locked_staking_apy: u64,
    pub early_withdrawal_fee: u64,
    pub total_staked: u64,
    pub total_earned: u64,
    pub fee_basis_points: u64,
    pub max_fee: u64,
}

impl View for ContractData {
    type V = ContractModel;

    open spec fn view(&self) -> ContractModel {
        ContractModel {
            is_initialized: self.is_initialized,
            admin: self.admin_pubkey@,
            mint: self.stake_token_mint@,
            vault: self.stake_token_account@,
            minimum_stake_amount: self.minimum_stake_amount,
            minimum_lock_duration: self.minimum_lock_duration,
            normal_staking_apy: self.normal_staking_apy,
            locked_staking_apy: self.locked_staking_apy,
            early_withdrawal_fee: self.early_withdrawal_fee,
            total_staked: self.total_staked,
            total_earned: self.total_earned,
            fee_basis_points: self.fee_basis_points,
            max_fee: self.max_fee,
        }
    }
}

/// Size in bytes of a packed contract record.
pub const CONTRACT_DATA_LEN: usize = 169;

/// The packed form of a contract record.
pub open spec fn contract_layout(c: ContractModel) -> Seq<u8> {
    seq![flag_byte(c.is_initialized)] + c.admin + c.mint
        + c.vault + spec_u64_to_le_bytes(c.minimum_stake_amount)
        + spec_u64_to_le_bytes(c.minimum_lock_duration) + spec_u64_to_le_bytes(c.normal_staking_apy)
        + spec_u64_to_le_bytes(c.locked_staking_apy) + spec_u64_to_le_bytes(c.early_withdrawal_fee)
        + spec_u64_to_le_bytes(c.total_staked) + spec_u64_to_le_bytes(c.total_earned)
        + spec_u64_to_le_bytes(c.fee_basis_points) + spec_u64_to_le_bytes(c.max_fee)
}

/// Whether `s` starts with a well-formed contract record.
pub open spec fn contract_bytes_valid(s: Seq<u8>) -> bool {
    s.len() >= CONTRACT_DATA_LEN && s[0] <= 1
}

/// The contract record at the start of `s`.
pub open spec fn contract_of_bytes(s: Seq<u8>) -> ContractModel {
    ContractModel {
        is_initialized: s[0] == 1,
        admin: s.subrange(1, 33),
        mint: s.subrange(33, 65),
        vault: s.subrange(65, 97),
        minimum_stake_amount: u64_at(s, 97),
        minimum_lock_duration: u64_at(s, 105),
        normal_staking_apy: u64_at(s, 113),
        locked_staking_apy: u64_at(s, 121),
        early_withdrawal_fee: u64_at(s, 129),
        total_staked: u64_at(s, 137),
        total_earned: u64_at(s, 145),
        fee_basis_points: u64_at(s, 153),
        max_fee: u64_at(s, 161),
    }
}

/// Whether the addresses of a contract model are 32 bytes long.
pub open spec fn contract_model_wf(c: ContractModel) -> bool {
    c.admin.len() == 32 && c.mint.len() == 32 && c.vault.len() == 32
}

impl ContractData {
    pub const LEN: usize = 169;

    /// Whether the record has been initialized.
    pub fn is_initialized(&self) -> (r: bool)
        ensures
            r == self.is_initialized,
    {
        self.is_initialized
    }

    /// The packed bytes of this record.
    pub fn to_bytes(&self) -> (r: Vec<u8>)
        ensures
            r@ == contract_layout(self@),
    {
        let mut out: Vec<u8> = Vec::new();
        out.push(if self.is_initialized { 1u8 } else { 0u8 });
        push_address(&mut out, &self.admin_pubkey);
        push_address(&mut out, &self.stake_token_mint);
        push_address(&mut out, &self.stake_token_account);
        push_u64(&mut out, self.minimum_stake_amount);
        push_u64(&mut out, self.minimum_lock_duration);
        push_u64(&mut out, self.normal_staking_apy);
        push_u64(&mut out, self.locked_staking_apy);
        push_u64(&mut out, self.early_withdrawal_fee);
        push_u64(&mut out, self.total_staked);
        push_u64(&mut out, self.total_earned);
        push_u64(&mut out, self.fee_basis_points);
        push_u64(&mut out, self.max_fee);
        out
    }

    /// Decodes a record from the start of `src`.
    pub fn unpack_from_slice(src: &[u8]) -> (r: Result<ContractData, StakingError>)
        ensures
            r is Ok <==> contract_bytes_valid(src@),
            r is Err ==> r == Err::<ContractData, StakingError>(StakingError::InvalidAccountData),
            r matches Ok(c) ==> c@ == contract_of_bytes(src@),
    {
        if src.len() < Self::LEN {
            return Err(StakingError::InvalidAccountData);
        }
        let is_initialized = if src[0] == 0 {
            false
        } else if src[0] == 1 {
            true
        } else {
            return Err(StakingError::InvalidAccountData);
        };
        Ok(ContractData {
            is_initialized,
            admin_pubkey: read_address(src, 1),
            stake_token_mint: read_address(src, 33),
            stake_token_account: read_address(src, 65),
            minimum_stake_amount: read_u64(src, 97),
            minimum_lock_duration: read_u64(src, 105),
            normal_staking_apy: read_u64(src, 113),
            locked_staking_apy: read_u64(src, 121),
            early_withdrawal_fee: read_u64(src, 129),
            total_staked: read_u64(src, 137),
            total_earned: read_u64(src, 145),
            fee_basis_points: read_u64(src, 153),
            max_fee: read_u64(src, 161),
        })
    }
}

/// Packing a contract record and decoding the bytes gives the record back.
pub proof fn lemma_contract_round_trip(c: ContractModel)
    requires
        contract_model_wf(c),
    ensures
        contract_layout(c).len() == CONTRACT_DATA_LEN,
        contract_bytes_valid(contract_layout(c)),
        contract_of_bytes(contract_layout(c)) == c,
{
    lemma_auto_spec_u64_to_from_le_bytes();
    let s = contract_layout(c);
    assert(s.subrange(1, 33) =~= c.admin);
    assert(s.subrange(33, 65) =~= c.mint);
    assert(s.subrange(65, 97) =~= c.vault);
    assert(s.subrange(97, 105) =~= spec_u64_to_le_bytes(c.minimum_stake_amount));
    assert(s.subrange(105, 113) =~= spec_u64_to_le_bytes(c.minimum_lock_duration));
    assert(s.subrange(113, 121) =~= spec_u64_to_le_bytes(c.normal_staking_apy));
    assert(s.subrange(121, 129) =~= spec_u64_to_le_bytes(c.locked_staking_apy));
    assert(s.subrange(129, 137) =~= spec_u64_to_le_bytes(c.early_withdrawal_fee));
    assert(s.subrange(137, 145) =~= spec_u64_to_le_bytes(c.total_staked));
    assert(s.subrange(145, 153) =~= spec_u64_to_le_bytes(c.total_earned));
    assert(s.subrange(153, 161) =~= spec_u64_to_le_bytes(c.fee_basis_points));
    assert(s.subrange(161, 169) =~= spec_u64_to_le_bytes(c.max_fee));
}


/// Copies `bytes` over the start of `dst`, keeping the rest.
fn copy_prefix(bytes: &Vec<u8>, dst: &mut [u8])
    requires
        bytes@.len() <= old(dst)@.len(),
    ensures
        final(dst)@ == bytes@ + old(dst)@.subrange(bytes@.len() as int, old(dst)@.len() as int),
{
    let ghost start = dst@;
    let mut i: usize = 0;
    while i < bytes.len()
        invariant
            bytes@.len() <= start.len(),
            dst@.len() == start.len(),
            i <= bytes@.len(),
            forall|k: int| 0 <= k < i ==> dst@[k] == bytes@[k],
            forall|k: int| i <= k < start.len() ==> dst@[k] == start[k],
        decreases bytes@.len() - i,
    {
        dst[i] = bytes[i];
        i = i + 1;
    }
    assert(dst@ =~= bytes@ + start.subrange(bytes@.len() as int, start.len() as int));
}

impl ContractData {
    /// Writes the packed record over the start of `dst`.
    pub fn pack_into_slice(&self, dst: &mut [u8])
        requires
            old(dst)@.len() >= CONTRACT_DATA_LEN,
        ensures
            final(dst)@ == contract_layout(self@) + old(dst)@.subrange(CONTRACT_DATA_LEN as int, old(dst)@.len() as int),
    {
        let bytes = self.to_bytes();
        proof {
            lemma_contract_round_trip(self@);
        }
        copy_prefix(&bytes, dst);
    }
}

/// The user record: one per staking owner, at a derived address.
#[derive(Debug, Clone, Copy)]
pub struct UserData {
    /// Set by the first deposit; a restake is a deposit into an initialized record.
    pub is_initialized: bool,
    /// The staking participant.
    pub owner_pubkey: Address,
    pub stake_type: StakeType,
    /// Lock of a locked stake, in seconds from `stake_ts`.
    pub lock_duration: u64,
    /// Live principal.
    pub total_staked: u64,
    /// Interest recognized at restakes and not yet paid out.
    pub interest_accrued: u64,
    /// Time of the latest deposit, in unix seconds.
    pub stake_ts: u64,
    pub last_claim_ts: u64,
    pub last_unstake_ts: u64,
}

/// The values of a user record, the owner as a byte sequence.
pub struct UserModel {
    pub is_initialized: bool,
    pub owner: Seq<u8>,
    pub stake_type: StakeType,
    pub lock_duration: u64,
    pub total_staked: u64,
    pub interest_accrued: u64,
    pub stake_ts: u64,
    pub last_claim_ts: u64,
    pub last_unstake_ts: u64,
}

impl View for UserData {
    type V = UserModel;

    open spec fn view(&self) -> UserModel {
        UserModel {
            is_initialized: self.is_initialized,
            owner: self.owner_pubkey@,
            stake_type: self.stake_type,
            lock_duration: self.lock_duration,
            total_staked: self.total_staked,
            interest_accrued: self.interest_accrued,
            stake_ts: self.stake_ts,
            last_claim_ts: self.last_claim_ts,
            last_unstake_ts: self.last_unstake_ts,
        }
    }
}

/// Size in bytes of a packed user record.
pub const USER_DATA_LEN: usize = 89;

/// The packed form of a user record; the stake type takes an 8-byte slot
/// whose first byte is the tag.
pub open spec fn user_layout(u: UserModel) -> Seq<u8> {
    seq![flag_byte(u.is_initialized)] + u.owner
        + seq![stake_type_tag(u.stake_type), 0u8, 0u8, 0u8, 0u8, 0u8, 0u8, 0u8]
        + spec_u64_to_le_bytes(u.lock_duration) + spec_u64_to_le_bytes(u.total_staked)
        + spec_u64_to_le_bytes(u.interest_accrued) + spec_u64_to_le_bytes(u.stake_ts)
        + spec_u64_to_le_bytes(u.last_claim_ts) + spec_u64_to_le_bytes(u.last_unstake_ts)
}

/// Whether `s` starts with a well-formed user record.
pub open spec fn user_bytes_valid(s: Seq<u8>) -> bool {
    s.len() >= USER_DATA_LEN && s[0] <= 1 && s[33] <= 1
}

/// The user record at the start of `s`; the stake type is NORMAL unless the tag reads LOCKED.
pub open spec fn user_of_bytes(s: Seq<u8>) -> UserModel {
    UserModel {
        is_initialized: s[0] == 1,
        owner: s.subrange(1, 33),
        stake_type: if s[33] == 1 { StakeType::LOCKED } else { StakeType::NORMAL },
        lock_duration: u64_at(s, 41),
        total_staked: u64_at(s, 49),
        interest_accrued: u64_at(s, 57),
        stake_ts: u64_at(s, 65),
        last_claim_ts: u64_at(s, 73),
        last_unstake_ts: u64_at(s, 81),
    }
}

impl UserData {
    pub const LEN: usize = 89;

    /// The packed bytes of this record.
    pub fn to_bytes(&self) -> (r: Vec<u8>)
        ensures
            r@ == user_layout(self@),
    {
        let mut out: Vec<u8> = Vec::new();
        out.push(if self.is_initialized { 1u8 } else { 0u8 });
        push_address(&mut out, &self.owner_pubkey);
        out.push(self.stake_type.tag());
        let ghost pre = out@;
        assert(pre =~= seq![flag_byte(self.is_initialized)] + self.owner_pubkey@ + seq![stake_type_tag(self.stake_type)]);
        let mut i: usize = 0;
        while i < 7
            invariant
                i <= 7,
                pre.len() == 34,
                out@.len() == 34 + i,
                out@.subrange(0, 34) == pre,
                forall|k: int| 34 <= k < 34 + i ==> out@[k] == 0u8,
            decreases 7 - i,
        {
            out.push(0u8);
            i = i + 1;
            assert(out@.subrange(0, 34) =~= pre);
        }
        let ghost head = out@;
        push_u64(&mut out, self.lock_duration);
        push_u64(&mut out, self.total_staked);
        push_u64(&mut out, self.interest_accrued);
        push_u64(&mut out, self.stake_ts);
        push_u64(&mut out, self.last_claim_ts);
        push_u64(&mut out, self.last_unstake_ts);
        proof {
            let l = seq![flag_byte(self.is_initialized)] + self.owner_pubkey@
                + seq![stake_type_tag(self.stake_type), 0u8, 0u8, 0u8, 0u8, 0u8, 0u8, 0u8];
            assert(head.subrange(0, 34) == pre);
            assert forall|k: int| 0 <= k < 41 implies head[k] == l[k] by {
                if k < 34 {
                    assert(head[k] == head.subrange(0, 34)[k]);
                }
            }
            assert(head =~= l);
        }
        out
    }

    /// Writes the packed record over the start of `dst`.
    pub fn pack_into_slice(&self, dst: &mut [u8])
        requires
            old(dst)@.len() >= USER_DATA_LEN,
        ensures
            final(dst)@ == user_layout(self@) + old(dst)@.subrange(USER_DATA_LEN as int, old(dst)@.len() as int),
    {
        let bytes = self.to_bytes();
        proof {
            lemma_user_round_trip(self@);
        }
        copy_prefix(&bytes, dst);
    }

    /// Decodes a record from the start of `src`.
    pub fn unpack_from_slice(src: &[u8]) -> (r: Result<UserData, StakingError>)
        ensures
            r is Ok <==> user_bytes_valid(src@),
            r is Err ==> r == Err::<UserData, StakingError>(StakingError::InvalidAccountData),
            r matches Ok(u) ==> u@ == user_of_bytes(src@),
    {
        if src.len() < Self::LEN {
            return Err(StakingError::InvalidAccountData);
        }
        let is_initialized = if src[0] == 0 {
            false
        } else if src[0] == 1 {
            true
        } else {
            return Err(StakingError::InvalidAccountData);
        };
        let stake_type = match StakeType::from_tag(src[33]) {
            Some(t) => t,
            None => return Err(StakingError::InvalidAccountData),
        };
        Ok(UserData {
            is_initialized,
            owner_pubkey: read_address(src, 1),
            stake_type,
            lock_duration: read_u64(src, 41),
            total_staked: read_u64(src, 49),
            interest_accrued: read_u64(src, 57),
            stake_ts: read_u64(src, 65),
            last_claim_ts: read_u64(src, 73),
            last_unstake_ts: read_u64(src, 81),
        })
    }
}

/// Packing a user record and decoding the bytes gives the record back.
pub proof fn lemma_user_round_trip(u: UserModel)
    requires
        u.owner.len() == 32,
    ensures
        user_layout(u).len() == USER_DATA_LEN,
        user_bytes_valid(user_layout(u)),
        user_of_bytes(user_layout(u)) == u,
{
    lemma_auto_spec_u64_to_from_le_bytes();
    let s = user_layout(u);
    assert(s.subrange(1, 33) =~= u.owner);
    assert(s.subrange(41, 49) =~= spec_u64_to_le_bytes(u.lock_duration));
    assert(s.subrange(49, 57) =~= spec_u64_to_le_bytes(u.total_staked));
    assert(s.subrange(57, 65) =~= spec_u64_to_le_bytes(u.interest_accrued));
    assert(s.subrange(65, 73) =~= spec_u64_to_le_bytes(u.stake_ts));
    assert(s.subrange(73, 81) =~= spec_u64_to_le_bytes(u.last_claim_ts));
    assert(s.subrange(81, 89) =~= spec_u64_to_le_bytes(u.last_unstake_ts));
}

} // verus!

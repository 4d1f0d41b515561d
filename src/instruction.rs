//! The instruction wire format: a tag byte, then fixed-width little-endian fields.
use vstd::prelude::*;
use vstd::bytes::{spec_u64_to_le_bytes, lemma_auto_spec_u64_to_from_le_bytes};
use crate::bytes::{u64_at, read_u64, push_u64};
use crate::error::StakingError;
use crate::state::{StakeType, stake_type_tag, stake_type_of_tag};

verus! {

/// The operations of the contract.
#[derive(Debug, Clone, Copy, PartialEq, Eq, Structural)]
pub enum Instruction {
    /// Creates the contract record of an admin and a mint and hands the vault to it.
    Init {
        minimum_stake_amount: u64,
        minimum_lock_duration: u64,
        normal_staking_apy: u64,
        locked_staking_apy: u64,
        early_withdrawal_fee: u64,
        fee_basis_points: u64,
        max_fee: u64,
    },
    /// Deposits tokens, creating the user record on the first deposit.
    Stake { stake_type: StakeType, amount: u64, decimals: u64, lock_duration: u64 },
    /// Pays out the user's stake and closes the user record.
    UnStake { decimals: u64 },
    /// Changes the recorded transfer fee of the mint.
    ChangeTransferFeeConfig { fee_basis_points: u64, max_fee: u64 },
    /// Changes both interest rates.
    UpdateAPY { normal_staking_apy: u64, locked_staking_apy: u64 },
}

pub const INIT_TAG: u8 = 0;
pub const STAKE_TAG: u8 = 1;
pub const UNSTAKE_TAG: u8 = 2;
pub const CHANGE_TRANSFER_FEE_CONFIG_TAG: u8 = 3;
pub const UPDATE_APY_TAG: u8 = 4;

pub const INIT_PAYLOAD_LEN: usize = 56;
pub const STAKE_PAYLOAD_LEN: usize = 25;
pub const UNSTAKE_PAYLOAD_LEN: usize = 8;
pub const CHANGE_TRANSFER_FEE_CONFIG_PAYLOAD_LEN: usize = 16;
pub const UPDATE_APY_PAYLOAD_LEN: usize = 16;

/// Bytes after the tag that an instruction of kind `tag` takes.
pub open spec fn payload_len(tag: u8) -> int {
    if tag == INIT_TAG {
        INIT_PAYLOAD_LEN as int
    } else if tag == STAKE_TAG {
        STAKE_PAYLOAD_LEN as int
    } else if tag == UNSTAKE_TAG {
        UNSTAKE_PAYLOAD_LEN as int
    } else if tag == CHANGE_TRANSFER_FEE_CONFIG_TAG {
        CHANGE_TRANSFER_FEE_CONFIG_PAYLOAD_LEN as int
    } else {
        UPDATE_APY_PAYLOAD_LEN as int
    }
}

/// The instruction that a byte string stands for.
pub open spec fn decode(s: Seq<u8>) -> Result<Instruction, StakingError> {
    if s.len() == 0 || s[0] > UPDATE_APY_TAG || s.len() < 1 + payload_len(s[0]) {
        Err(StakingError::InvalidInstructionData)
    } else if s[0] == INIT_TAG {
        Ok(Instruction::Init {
            minimum_stake_amount: u64_at(s, 1),
            minimum_lock_duration: u64_at(s, 9),
            normal_staking_apy: u64_at(s, 17),
            locked_staking_apy: u64_at(s, 25),
            early_withdrawal_fee: u64_at(s, 33),
            fee_basis_points: u64_at(s, 41),
            max_fee: u64_at(s, 49),
        })
    } else if s[0] == STAKE_TAG {
        match stake_type_of_tag(s[1]) {
            Some(t) => Ok(Instruction::Stake {
                stake_type: t,
                amount: u64_at(s, 2),
                decimals: u64_at(s, 10),
                lock_duration: u64_at(s, 18),
            }),
            None => Err(StakingError::InvalidInstructionData),
        }
    } else if s[0] == UNSTAKE_TAG {
        Ok(Instruction::UnStake { decimals: u64_at(s, 1) })
    } else if s[0] == CHANGE_TRANSFER_FEE_CONFIG_TAG {
        Ok(Instruction::ChangeTransferFeeConfig { fee_basis_points: u64_at(s, 1), max_fee: u64_at(s, 9) })
    } else {
        Ok(Instruction::UpdateAPY { normal_staking_apy: u64_at(s, 1), locked_staking_apy: u64_at(s, 9) })
    }
}

/// The byte string of an instruction.
pub open spec fn encode(i: Instruction) -> Seq<u8> {
    match i {
        Instruction::Init {
            minimum_stake_amount,
            minimum_lock_duration,
            normal_staking_apy,
            locked_staking_apy,
            early_withdrawal_fee,
            fee_basis_points,
            max_fee,
        } => seq![INIT_TAG] + spec_u64_to_le_bytes(minimum_stake_amount)
            + spec_u64_to_le_bytes(minimum_lock_duration) + spec_u64_to_le_bytes(normal_staking_apy)
            + spec_u64_to_le_bytes(locked_staking_apy) + spec_u64_to_le_bytes(early_withdrawal_fee)
            + spec_u64_to_le_bytes(fee_basis_points) + spec_u64_to_le_bytes(max_fee),
        Instruction::Stake { stake_type, amount, decimals, lock_duration } => seq![STAKE_TAG, stake_type_tag(stake_type)]
            + spec_u64_to_le_bytes(amount) + spec_u64_to_le_bytes(decimals) + spec_u64_to_le_bytes(lock_duration),
        Instruction::UnStake { decimals } => seq![UNSTAKE_TAG] + spec_u64_to_le_bytes(decimals),
        Instruction::ChangeTransferFeeConfig { fee_basis_points, max_fee } => seq![CHANGE_TRANSFER_FEE_CONFIG_TAG]
            + spec_u64_to_le_bytes(fee_basis_points) + spec_u64_to_le_bytes(max_fee),
        Instruction::UpdateAPY { normal_staking_apy, locked_staking_apy } => seq![UPDATE_APY_TAG]
            + spec_u64_to_le_bytes(normal_staking_apy) + spec_u64_to_le_bytes(locked_staking_apy),
    }
}

impl Instruction {
    /// Decodes an instruction; malformed bytes give `InvalidInstructionData`.
    pub fn unpack(input: &[u8]) -> (r: Result<Instruction, StakingError>)
        ensures
            r == decode(input@),
    {
        if input.len() == 0 {
            return Err(StakingError::InvalidInstructionData);
        }
        let tag = input[0];
        if tag == INIT_TAG {
            if input.len() < 1 + INIT_PAYLOAD_LEN {
                return Err(StakingError::InvalidInstructionData);
            }
            Ok(Instruction::Init {
                minimum_stake_amount: read_u64(input, 1),
                minimum_lock_duration: read_u64(input, 9),
                normal_staking_apy: read_u64(input, 17),
                locked_staking_apy: read_u64(input, 25),
                early_withdrawal_fee: read_u64(input, 33),
                fee_basis_points: read_u64(input, 41),
                max_fee: read_u64(input, 49),
            })
        } else if tag == STAKE_TAG {
            if input.len() < 1 + STAKE_PAYLOAD_LEN {
                return Err(StakingError::InvalidInstructionData);
            }
            let stake_type = match StakeType::from_tag(input[1]) {
                Some(t) => t,
                None => return Err(StakingError::InvalidInstructionData),
            };
            Ok(Instruction::Stake {
                stake_type,
                amount: read_u64(input, 2),
                decimals: read_u64(input, 10),
                lock_duration: read_u64(input, 18),
            })
        } else if tag == UNSTAKE_TAG {
            if input.len() < 1 + UNSTAKE_PAYLOAD_LEN {
                return Err(StakingError::InvalidInstructionData);
            }
            Ok(Instruction::UnStake { decimals: read_u64(input, 1) })
        } else if tag == CHANGE_TRANSFER_FEE_CONFIG_TAG {
            if input.len() < 1 + CHANGE_TRANSFER_FEE_CONFIG_PAYLOAD_LEN {
                return Err(StakingError::InvalidInstructionData);
            }
            Ok(Instruction::ChangeTransferFeeConfig { fee_basis_points: read_u64(input, 1), max_fee: read_u64(input, 9) })
        } else if tag == UPDATE_APY_TAG {
            if input.len() < 1 + UPDATE_APY_PAYLOAD_LEN {
                return Err(StakingError::InvalidInstructionData);
            }
            Ok(Instruction::UpdateAPY { normal_staking_apy: read_u64(input, 1), locked_staking_apy: read_u64(input, 9) })
        } else {
            Err(StakingError::InvalidInstructionData)
        }
    }

    /// Encodes the instruction as callers send it.
    pub fn pack(&self) -> (r: Vec<u8>)
        ensures
            r@ == encode(*self),
    {
        let mut out: Vec<u8> = Vec::new();
        match *self {
            Instruction::Init {
                minimum_stake_amount,
                minimum_lock_duration,
                normal_staking_apy,
                locked_staking_apy,
                early_withdrawal_fee,
                fee_basis_points,
                max_fee,
            } => {
                out.push(INIT_TAG);
                push_u64(&mut out, minimum_stake_amount);
                push_u64(&mut out, minimum_lock_duration);
                push_u64(&mut out, normal_staking_apy);
                push_u64(&mut out, locked_staking_apy);
                push_u64(&mut out, early_withdrawal_fee);
                push_u64(&mut out, fee_basis_points);
                push_u64(&mut out, max_fee);
            },
            Instruction::Stake { stake_type, amount, decimals, lock_duration } => {
                out.push(STAKE_TAG);
                out.push(stake_type.tag());
                assert(out@ =~= seq![STAKE_TAG, stake_type_tag(stake_type)]);
                push_u64(&mut out, amount);
                push_u64(&mut out, decimals);
                push_u64(&mut out, lock_duration);
            },
            Instruction::UnStake { decimals } => {
                out.push(UNSTAKE_TAG);
                push_u64(&mut out, decimals);
            },
            Instruction::ChangeTransferFeeConfig { fee_basis_points, max_fee } => {
                out.push(CHANGE_TRANSFER_FEE_CONFIG_TAG);
                push_u64(&mut out, fee_basis_points);
                push_u64(&mut out, max_fee);
            },
            Instruction::UpdateAPY { normal_staking_apy, locked_staking_apy } => {
                out.push(UPDATE_APY_TAG);
                push_u64(&mut out, normal_staking_apy);
                push_u64(&mut out, locked_staking_apy);
            },
        }
        out
    }
}

/// The tag and the length of an encoded instruction.
pub proof fn lemma_encode_shape(i: Instruction)
    ensures
        encode(i).len() >= 1,
        encode(i)[0] <= UPDATE_APY_TAG,
        encode(i).len() == 1 + payload_len(encode(i)[0]),
{
    lemma_auto_spec_u64_to_from_le_bytes();
}

/// Decoding an encoded instruction gives it back; an empty buffer, an unknown
/// tag and any strict prefix of an encoding are refused.
pub proof fn lemma_decode_round_trip(i: Instruction, s: Seq<u8>)
    ensures
        decode(encode(i)) == Ok::<Instruction, StakingError>(i),
        decode(Seq::<u8>::empty()) is Err,
        s.len() > 0 && s[0] > UPDATE_APY_TAG ==> decode(s) is Err,
        forall|n: int| 0 <= n < encode(i).len() ==> #[trigger] decode(encode(i).take(n)) is Err,
{
    lemma_auto_spec_u64_to_from_le_bytes();
    lemma_encode_shape(i);
    let e = encode(i);
    match i {
        Instruction::Init {
            minimum_stake_amount,
            minimum_lock_duration,
            normal_staking_apy,
            locked_staking_apy,
            early_withdrawal_fee,
            fee_basis_points,
            max_fee,
        } => {
            assert(e.subrange(1, 9) =~= spec_u64_to_le_bytes(minimum_stake_amount));
            assert(e.subrange(9, 17) =~= spec_u64_to_le_bytes(minimum_lock_duration));
            assert(e.subrange(17, 25) =~= spec_u64_to_le_bytes(normal_staking_apy));
            assert(e.subrange(25, 33) =~= spec_u64_to_le_bytes(locked_staking_apy));
            assert(e.subrange(33, 41) =~= spec_u64_to_le_bytes(early_withdrawal_fee));
            assert(e.subrange(41, 49) =~= spec_u64_to_le_bytes(fee_basis_points));
            assert(e.subrange(49, 57) =~= spec_u64_to_le_bytes(max_fee));
        },
        Instruction::Stake { stake_type, amount, decimals, lock_duration } => {
            assert(e.subrange(2, 10) =~= spec_u64_to_le_bytes(amount));
            assert(e.subrange(10, 18) =~= spec_u64_to_le_bytes(decimals));
            assert(e.subrange(18, 26) =~= spec_u64_to_le_bytes(lock_duration));
        },
        Instruction::UnStake { decimals } => {
            assert(e.subrange(1, 9) =~= spec_u64_to_le_bytes(decimals));
        },
        Instruction::ChangeTransferFeeConfig { fee_basis_points, max_fee } => {
            assert(e.subrange(1, 9) =~= spec_u64_to_le_bytes(fee_basis_points));
            assert(e.subrange(9, 17) =~= spec_u64_to_le_bytes(max_fee));
        },
        Instruction::UpdateAPY { normal_staking_apy, locked_staking_apy } => {
            assert(e.subrange(1, 9) =~= spec_u64_to_le_bytes(normal_staking_apy));
            assert(e.subrange(9, 17) =~= spec_u64_to_le_bytes(locked_staking_apy));
        },
    }
    assert forall|n: int| 0 <= n < e.len() implies #[trigger] decode(e.take(n)) is Err by {
        if n > 0 {
            assert(e.take(n)[0] == e[0]);
        }
    }
}

} // verus!

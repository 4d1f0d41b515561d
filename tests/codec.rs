use spl_staking::error::StakingError;
use spl_staking::instruction::Instruction;
use spl_staking::state::StakeType;

fn all_kinds() -> Vec<Instruction> {
    vec![
        Instruction::Init {
            minimum_stake_amount: 100,
            minimum_lock_duration: 100,
            normal_staking_apy: 100,
            locked_staking_apy: 200,
            early_withdrawal_fee: 50,
            fee_basis_points: 800,
            max_fee: u64::MAX,
        },
        Instruction::Stake { stake_type: StakeType::NORMAL, amount: 10, decimals: 9, lock_duration: 0 },
        Instruction::Stake { stake_type: StakeType::LOCKED, amount: 1 << 40, decimals: 6, lock_duration: 86_400 },
        Instruction::UnStake { decimals: 9 },
        Instruction::ChangeTransferFeeConfig { fee_basis_points: 1000, max_fee: 5 },
        Instruction::UpdateAPY { normal_staking_apy: 7, locked_staking_apy: 8 },
    ]
}

#[test]
fn decode_of_encode_gives_the_instruction_back() {
    for i in all_kinds() {
        let bytes = i.pack();
        assert_eq!(Instruction::unpack(&bytes), Ok(i));
    }
}

#[test]
fn truncated_encodings_are_refused() {
    for i in all_kinds() {
        let bytes = i.pack();
        for n in 0..bytes.len() {
            assert_eq!(Instruction::unpack(&bytes[..n]), Err(StakingError::InvalidInstructionData));
        }
    }
}

#[test]
fn empty_buffer_and_unknown_tag_are_refused() {
    assert_eq!(Instruction::unpack(&[]), Err(StakingError::InvalidInstructionData));
    let mut bytes = vec![5u8];
    bytes.extend_from_slice(&[0u8; 64]);
    assert_eq!(Instruction::unpack(&bytes), Err(StakingError::InvalidInstructionData));
    bytes[0] = 255;
    assert_eq!(Instruction::unpack(&bytes), Err(StakingError::InvalidInstructionData));
}

#[test]
fn stake_type_byte_must_be_zero_or_one() {
    let mut bytes = Instruction::Stake { stake_type: StakeType::LOCKED, amount: 1, decimals: 2, lock_duration: 3 }.pack();
    assert_eq!(bytes[1], 1);
    bytes[1] = 2;
    assert_eq!(Instruction::unpack(&bytes), Err(StakingError::InvalidInstructionData));
}

#[test]
fn init_fields_are_little_endian_in_order() {
    let mut bytes = vec![0u8];
    for v in [1u64, 2, 3, 4, 5, 6, 7] {
        bytes.extend_from_slice(&v.to_le_bytes());
    }
    assert_eq!(bytes.len(), 57);
    assert_eq!(
        Instruction::unpack(&bytes),
        Ok(Instruction::Init {
            minimum_stake_amount: 1,
            minimum_lock_duration: 2,
            normal_staking_apy: 3,
            locked_staking_apy: 4,
            early_withdrawal_fee: 5,
            fee_basis_points: 6,
            max_fee: 7,
        })
    );
}

#[test]
fn stake_fields_follow_the_type_byte() {
    let mut bytes = vec![1u8, 0u8];
    bytes.extend_from_slice(&500u64.to_le_bytes());
    bytes.extend_from_slice(&9u64.to_le_bytes());
    bytes.extend_from_slice(&3600u64.to_le_bytes());
    assert_eq!(
        Instruction::unpack(&bytes),
        Ok(Instruction::Stake { stake_type: StakeType::NORMAL, amount: 500, decimals: 9, lock_duration: 3600 })
    );
}

#[test]
fn trailing_bytes_are_ignored() {
    let mut bytes = Instruction::UnStake { decimals: 4 }.pack();
    bytes.push(99);
    assert_eq!(Instruction::unpack(&bytes), Ok(Instruction::UnStake { decimals: 4 }));
}

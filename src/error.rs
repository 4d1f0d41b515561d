use vstd::prelude::*;

verus! {

/// Every way in which an instruction is refused.
#[derive(Debug, Clone, Copy, PartialEq, Eq, Structural)]
pub enum StakingError {
    /// The instruction bytes are malformed, or a parameter breaks a policy rule.
    InvalidInstructionData,
    /// An account holds the wrong data, address, owner or mint, or a
    /// timing rule refuses the operation.
    InvalidAccountData,
    /// An account that must sign did not.
    MissingRequiredSignature,
    /// The user's token balance is below the contract's minimum stake.
    InsufficientFunds,
    /// The contract record is already initialized.
    AccountAlreadyInitialized,
    /// Fewer accounts were supplied than the instruction needs.
    NotEnoughAccountKeys,
    /// A sum or a difference left the 64-bit range.
    ArithmeticOverflow,
    /// No program-derived address exists for the given seeds.
    InvalidSeeds,
}

} // verus!

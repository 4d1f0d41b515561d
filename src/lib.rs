//! A staking contract: an instruction codec, the fixed-width layouts of the
//! contract and user records, the interest arithmetic and the per-instruction
//! decisions, all proved against their contracts.
//!
//! The host runtime (accounts, clock, rent, cross-program calls) stays outside:
//! the processor reads plain snapshots of the accounts it is given and returns
//! the ordered list of effects that the caller performs.

pub mod bytes;
pub mod error;
pub mod state;
pub mod instruction;
pub mod interest;
pub mod host;
pub mod transition;
pub mod effect;
pub mod outcome;
pub mod processor;

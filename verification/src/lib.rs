//! Consensus gate of a lock/mint token bridge.
//!
//! A small committee of validators jointly authorises minting, the closing of
//! bridging requests and changes to its own membership; any user may open a
//! bridging request alone by burning tokens.
//!
//! The library decides and records; it moves no tokens and stores nothing on
//! a ledger. Each instruction takes what it reads of the accounts as plain
//! values, changes its own records in place, and hands back what the token
//! ledger is to carry out. Every refusal leaves everything as it was.
//!
//! - [`threshold`]: the number of signatures a committee asks for.
//! - [`consensus`]: when the committee has authorised an action.
//! - [`committee`]: when a proposed committee is admissible.
//! - [`instructions`]: the five instructions of the bridge.
//! - [`account`], [`token`], [`pubkey`], [`error`], [`constant`]: the values
//!   they work on.

pub mod account;
pub mod committee;
pub mod consensus;
pub mod constant;
pub mod error;
pub mod instructions;
pub mod pubkey;
pub mod threshold;
pub mod token;

pub use account::{
    contains_key, has_duplicates, AccountSlot, BridgingRequest, PresentedAccount, TokenAccount,
    ValidatorSet,
};
pub use committee::validate_committee;
pub use consensus::{all_members, check_consensus, signing_identities};
pub use constant::{MAX_VALIDATORS, MIN_VALIDATORS, VALIDATOR_SET_SEED};
pub use error::CustomError;
pub use instructions::{BridgeRequest, BridgeTokens, CloseRequest, Initialize, ValidatorSetChange};
pub use pubkey::Pubkey;
pub use threshold::calculate_threshold;
pub use token::{Burn, Create, MintTo, Minting, SignerSeeds};

//! What the bridge asks of the token ledger.
//!
//! An instruction of the bridge never moves tokens itself. It decides, and
//! hands back the instruction that the token ledger is to carry out within
//! the same transaction.

use vstd::prelude::*;
use crate::pubkey::Pubkey;

verus! {

/// Destroy `amount` tokens of `mint` held in `from`, on the word of
/// `authority`.
#[derive(Clone, Copy, Debug, PartialEq, Eq)]
pub struct Burn {
    pub mint: Pubkey,
    pub from: Pubkey,
    pub authority: Pubkey,
    pub amount: u64,
}

/// Create the token account of `authority` for `mint` at the address
/// `associated_token`, at the cost of `payer`.
#[derive(Clone, Copy, Debug, PartialEq, Eq)]
pub struct Create {
    pub payer: Pubkey,
    pub associated_token: Pubkey,
    pub authority: Pubkey,
    pub mint: Pubkey,
}

/// The seeds with which a derived address signs: a fixed seed and the bump
/// stored with the record that lives at the address.
#[derive(Clone, Copy, Debug, PartialEq, Eq)]
pub struct SignerSeeds {
    pub seed: [u8; 13],
    pub bump: u8,
}

/// Issue `amount` new tokens of `mint` to the account `to`, on the word of
/// `authority`, which signs with `signer_seeds`.
#[derive(Clone, Copy, Debug, PartialEq, Eq)]
pub struct MintTo {
    pub mint: Pubkey,
    pub to: Pubkey,
    pub authority: Pubkey,
    pub amount: u64,
    pub signer_seeds: SignerSeeds,
}

/// What the token ledger is to do for an authorised minting, in this order:
/// create the recipient's token account where there is none yet, then mint.
#[derive(Clone, Copy, Debug, PartialEq, Eq)]
pub struct Minting {
    pub create: Option<Create>,
    pub mint_to: MintTo,
}

} // verus!

//! The records the bridge keeps on the ledger, and what an instruction is
//! shown of the accounts it is handed.

use vstd::prelude::*;
use crate::constant::{MAX_VALIDATORS, MIN_VALIDATORS};
use crate::pubkey::Pubkey;
use crate::threshold::{calculate_threshold, threshold_for};

verus! {

/// The committee that controls the bridge, and how many of its members have
/// to sign a gated instruction.
#[derive(Clone, Debug, PartialEq, Eq)]
pub struct ValidatorSet {
    /// The members, in the order they were proposed.
    pub signers: Vec<Pubkey>,
    /// The number of distinct members whose signature a gated instruction
    /// needs.
    pub threshold: u8,
    /// The bump with which the validator set's own address was derived.
    pub bump: u8,
}

/// A user's record of tokens burned here and owed on another chain.
#[derive(Clone, Copy, Debug, PartialEq, Eq)]
pub struct BridgingRequest {
    /// Who burned the tokens.
    pub sender: Pubkey,
    /// How many tokens were burned.
    pub amount: u64,
    /// The receiver's address on the destination chain, in a fixed envelope
    /// wide enough for the address formats of the chains served.
    pub receiver: [u8; 57],
    /// The chain the tokens are owed on.
    pub destination_chain: u8,
    /// The mint of the tokens that were burned.
    pub mint_token: Pubkey,
}

/// An account handed to an instruction beside the ones it names, with the
/// runtime's word on whether its key signed the transaction.
#[derive(Clone, Copy, Debug, PartialEq, Eq)]
pub struct PresentedAccount {
    pub key: Pubkey,
    pub is_signer: bool,
}

/// A token account as an instruction reads it.
#[derive(Clone, Copy, Debug, PartialEq, Eq)]
pub struct TokenAccount {
    /// The account's address.
    pub key: Pubkey,
    /// The tokens it holds.
    pub amount: u64,
}

/// An address at which a token account may or may not exist yet.
#[derive(Clone, Copy, Debug, PartialEq, Eq)]
pub struct AccountSlot {
    pub key: Pubkey,
    /// Nothing has been stored at the address.
    pub data_is_empty: bool,
}

impl ValidatorSet {
    /// The committee is of an admissible size, names nobody twice, and the
    /// stored threshold is the one its size asks for.
    pub open spec fn wf(&self) -> bool {
        &&& MIN_VALIDATORS <= self.signers@.len() <= MAX_VALIDATORS
        &&& self.signers@.no_duplicates()
        &&& self.threshold == threshold_for(self.signers@.len())
    }

    /// Whether `key` is a member of the committee.
    pub fn is_member(&self, key: &Pubkey) -> (r: bool)
        ensures
            r == self.signers@.contains(*key),
    {
        contains_key(&self.signers, key)
    }

    /// Derives the threshold anew from the stored committee and holds the
    /// record against it: true exactly for a well-formed validator set.
    pub fn is_consistent(&self) -> (r: bool)
        ensures
            r == self.wf(),
    {
        let n: usize = self.signers.len();
        if n < MIN_VALIDATORS || n > MAX_VALIDATORS {
            return false;
        }
        if has_duplicates(&self.signers) {
            return false;
        }
        self.threshold as usize == calculate_threshold(n)
    }
}

impl Default for ValidatorSet {
    /// A validator set as a freshly allocated account holds it: no members,
    /// threshold and bump zero.
    fn default() -> (r: ValidatorSet)
        ensures
            r.signers@ == Seq::<Pubkey>::empty(),
            r.threshold == 0,
            r.bump == 0,
    {
        ValidatorSet { signers: Vec::new(), threshold: 0, bump: 0 }
    }
}

/// Whether `key` occurs in `list`.
pub fn contains_key(list: &Vec<Pubkey>, key: &Pubkey) -> (r: bool)
    ensures
        r == list@.contains(*key),
{
    let mut i: usize = 0;
    while i < list.len()
        invariant
            i <= list.len(),
            forall|j: int| 0 <= j < i ==> list@[j] != *key,
        decreases list.len() - i,
    {
        if list[i] == *key {
            return true;
        }
        i += 1;
    }
    false
}

/// Whether some identity occurs twice in `list`.
pub fn has_duplicates(list: &Vec<Pubkey>) -> (r: bool)
    ensures
        r == !list@.no_duplicates(),
{
    let mut i: usize = 0;
    while i < list.len()
        invariant
            i <= list.len(),
            forall|a: int, b: int| 0 <= a < b < list.len() && a < i ==> list@[a] != list@[b],
        decreases list.len() - i,
    {
        let mut j: usize = i + 1;
        while j < list.len()
            invariant
                i < j <= list.len(),
                forall|b: int| i < b < j ==> list@[i as int] != list@[b],
            decreases list.len() - j,
        {
            if list[i] == list[j] {
                return true;
            }
            j += 1;
        }
        i += 1;
    }
    false
}

} // verus!

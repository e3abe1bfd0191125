//! What a proposed committee has to satisfy, and how it is installed.

use vstd::prelude::*;
use crate::account::{has_duplicates, PresentedAccount, ValidatorSet};
use crate::consensus::{consensus_outcome, lemma_signing_keys_finite, signing_keys};
use crate::constant::{MAX_VALIDATORS, MIN_VALIDATORS};
use crate::error::CustomError;
use crate::pubkey::Pubkey;
use crate::threshold::{calculate_threshold, threshold_for};

verus! {

/// Whether `validators` may become the committee, and if not, why.
///
/// The size is looked at first, then that nobody is named twice.
pub open spec fn committee_outcome(validators: Seq<Pubkey>) -> Result<(), CustomError> {
    if validators.len() > MAX_VALIDATORS {
        Err(CustomError::MaxValidatorsExceeded)
    } else if validators.len() < MIN_VALIDATORS {
        Err(CustomError::MinValidatorsNotMet)
    } else if !validators.no_duplicates() {
        Err(CustomError::ValidatorsNotUnique)
    } else {
        Ok(())
    }
}

/// A proposed committee of admissible size in which two entries are equal is
/// refused as not unique.
pub proof fn lemma_repeated_validator_refused(validators: Seq<Pubkey>, i: int, j: int)
    requires
        MIN_VALIDATORS <= validators.len() <= MAX_VALIDATORS,
        0 <= i < validators.len(),
        0 <= j < validators.len(),
        i != j,
        validators[i] == validators[j],
    ensures
        committee_outcome(validators) == Err::<(), CustomError>(CustomError::ValidatorsNotUnique),
{
}

/// A committee is accepted exactly when its size is admissible and its
/// members are pairwise distinct.
pub proof fn lemma_committee_accepted(validators: Seq<Pubkey>)
    ensures
        committee_outcome(validators) is Ok <==> MIN_VALIDATORS <= validators.len()
            <= MAX_VALIDATORS && validators.no_duplicates(),
{
}

/// Checks a proposed committee without installing it.
pub fn validate_committee(validators: &Vec<Pubkey>) -> (r: Result<(), CustomError>)
    ensures
        r == committee_outcome(validators@),
{
    if validators.len() > MAX_VALIDATORS {
        return Err(CustomError::MaxValidatorsExceeded);
    }
    if validators.len() < MIN_VALIDATORS {
        return Err(CustomError::MinValidatorsNotMet);
    }
    if has_duplicates(validators) {
        return Err(CustomError::ValidatorsNotUnique);
    }
    Ok(())
}

impl ValidatorSet {
    /// Makes `validators` the committee and derives the threshold from their
    /// number, if they are admissible; else refuses and changes nothing.
    ///
    /// The bump is never touched. Whatever the record held before, after a
    /// success it is well-formed.
    pub fn set_committee(&mut self, validators: Vec<Pubkey>) -> (r: Result<(), CustomError>)
        ensures
            r == committee_outcome(validators@),
            r is Ok ==> final(self).signers == validators
                && final(self).threshold == threshold_for(validators@.len())
                && final(self).bump == old(self).bump
                && final(self).wf(),
            r is Err ==> *final(self) == *old(self),
    {
        match validate_committee(&validators) {
            Err(e) => Err(e),
            Ok(()) => {
                let threshold: usize = calculate_threshold(validators.len());
                self.signers = validators;
                self.threshold = threshold as u8;
                Ok(())
            },
        }
    }
}

/// Deriving the threshold from the committee of a well-formed validator set
/// gives the threshold it stores, which lies between 1 and the committee's
/// size.
pub proof fn lemma_stored_threshold_rederived(validator_set: ValidatorSet)
    requires
        validator_set.wf(),
    ensures
        threshold_for(validator_set.signers@.len()) == validator_set.threshold,
        1 <= validator_set.threshold <= validator_set.signers@.len(),
{
}

/// A well-formed validator set authorises nothing on the signatures of fewer
/// than two thirds of its members: at least three distinct members signed.
pub proof fn lemma_authorised_by_two_thirds(
    validator_set: ValidatorSet,
    presented: Seq<PresentedAccount>,
)
    requires
        validator_set.wf(),
        consensus_outcome(validator_set.signers@, validator_set.threshold as nat, presented) is Ok,
    ensures
        signing_keys(presented).subset_of(validator_set.signers@.to_set()),
        3 * signing_keys(presented).len() >= 2 * validator_set.signers@.len(),
        signing_keys(presented).len() >= 3,
{
    lemma_signing_keys_finite(presented);
}

/// A well-formed validator set can always act: the signatures of all its
/// members authorise.
pub proof fn lemma_whole_committee_authorises(
    validator_set: ValidatorSet,
    presented: Seq<PresentedAccount>,
)
    requires
        validator_set.wf(),
        presented.len() == validator_set.signers@.len(),
        forall|i: int|
            0 <= i < presented.len() ==> (#[trigger] presented[i]).is_signer && presented[i].key
                == validator_set.signers@[i],
    ensures
        consensus_outcome(validator_set.signers@, validator_set.threshold as nat, presented) is Ok,
{
    let committee = validator_set.signers@;
    assert forall|key: Pubkey| signing_keys(presented).contains(key) implies committee.to_set().contains(
        key,
    ) by {
        let i = choose|i: int|
            0 <= i < presented.len() && (#[trigger] presented[i]).is_signer && presented[i].key
                == key;
        assert(committee[i] == key);
    }
    assert forall|key: Pubkey| committee.to_set().contains(key) implies signing_keys(
        presented,
    ).contains(key) by {
        let i = choose|i: int| 0 <= i < committee.len() && committee[i] == key;
        assert(presented[i].is_signer && presented[i].key == key);
    }
    assert(signing_keys(presented) =~= committee.to_set());
    committee.unique_seq_to_set();
}

} // verus!

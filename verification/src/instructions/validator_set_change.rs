//! Replacing the committee.

use vstd::prelude::*;
use crate::account::{PresentedAccount, ValidatorSet};
use crate::committee::committee_outcome;
use crate::consensus::{
    check_consensus, consensus_outcome, lemma_signing_keys_finite, signing_keys,
};
use crate::constant::{MAX_VALIDATORS, MIN_VALIDATORS};
use crate::error::CustomError;
use crate::pubkey::Pubkey;
use crate::threshold::threshold_for;

verus! {

/// What a change of the committee works on.
#[derive(Clone, Debug, PartialEq, Eq)]
pub struct ValidatorSetChange {
    /// The validator set as it is stored.
    pub validator_set: ValidatorSet,
    /// The accounts presented as the committee's signatures.
    pub remaining_accounts: Vec<PresentedAccount>,
}

/// What a change of the committee answers.
///
/// The stored committee has to authorise the change with its own threshold
/// before the proposed one is looked at: the proposal has no say in its own
/// approval.
pub open spec fn change_outcome(
    committee: Seq<Pubkey>,
    threshold: nat,
    presented: Seq<PresentedAccount>,
    proposed: Seq<Pubkey>,
) -> Result<(), CustomError> {
    match consensus_outcome(committee, threshold, presented) {
        Err(e) => Err(e),
        Ok(_) => committee_outcome(proposed),
    }
}

impl ValidatorSetChange {
    /// Replaces the committee with `new_validator_set`, if the stored
    /// committee authorises it and the proposed one is admissible.
    ///
    /// On success the members, and the threshold derived from their number,
    /// are replaced together; the bump stays. On every refusal the stored
    /// validator set is left as it was.
    pub fn process_instruction(ctx: &mut ValidatorSetChange, new_validator_set: Vec<Pubkey>) -> (r:
        Result<(), CustomError>)
        ensures
            r == change_outcome(
                old(ctx).validator_set.signers@,
                old(ctx).validator_set.threshold as nat,
                old(ctx).remaining_accounts@,
                new_validator_set@,
            ),
            r is Ok ==> final(ctx).validator_set.signers == new_validator_set
                && final(ctx).validator_set.threshold == threshold_for(new_validator_set@.len())
                && final(ctx).validator_set.bump == old(ctx).validator_set.bump
                && final(ctx).remaining_accounts == old(ctx).remaining_accounts
                && final(ctx).validator_set.wf(),
            r is Err ==> *final(ctx) == *old(ctx),
            old(ctx).validator_set.wf() ==> final(ctx).validator_set.wf(),
    {
        match check_consensus(&ctx.validator_set, &ctx.remaining_accounts) {
            Err(e) => Err(e),
            Ok(()) => ctx.validator_set.set_committee(new_validator_set),
        }
    }
}

/// Whether a change is authorised is decided by the stored committee and
/// the signatures alone. Where they refuse, the refusal is theirs whatever is
/// proposed; where they authorise, the proposal is judged as at
/// initialisation.
pub proof fn lemma_change_authorised_by_stored_committee(
    committee: Seq<Pubkey>,
    threshold: nat,
    presented: Seq<PresentedAccount>,
    proposed: Seq<Pubkey>,
)
    ensures
        consensus_outcome(committee, threshold, presented) is Err ==> change_outcome(
            committee,
            threshold,
            presented,
            proposed,
        ) == consensus_outcome(committee, threshold, presented),
        consensus_outcome(committee, threshold, presented) is Ok ==> change_outcome(
            committee,
            threshold,
            presented,
            proposed,
        ) == committee_outcome(proposed),
{
}

/// A change signed only by identities outside the stored committee is
/// refused for want of authorisation, whatever is proposed, even where the
/// signers are the very members proposed.
pub proof fn lemma_change_by_outsiders_refused(
    committee: Seq<Pubkey>,
    threshold: nat,
    presented: Seq<PresentedAccount>,
    proposed: Seq<Pubkey>,
)
    requires
        threshold >= 1,
        forall|i: int|
            0 <= i < presented.len() && (#[trigger] presented[i]).is_signer ==> !committee.contains(
                presented[i].key,
            ),
    ensures
        consensus_outcome(committee, threshold, presented) is Err,
        change_outcome(committee, threshold, presented, proposed) == consensus_outcome(
            committee,
            threshold,
            presented,
        ),
{
    let signing = signing_keys(presented);
    lemma_signing_keys_finite(presented);
    if signing.len() >= threshold {
        let key = signing.choose();
        assert(signing.contains(key));
        let i = choose|i: int|
            0 <= i < presented.len() && (#[trigger] presented[i]).is_signer && presented[i].key
                == key;
        assert(!committee.contains(presented[i].key));
        assert(!committee.to_set().contains(key));
    }
}

/// A proposal of admissible size that names an identity twice is refused as
/// not unique once the stored committee has authorised the change.
pub proof fn lemma_change_repeated_validator_refused(
    committee: Seq<Pubkey>,
    threshold: nat,
    presented: Seq<PresentedAccount>,
    proposed: Seq<Pubkey>,
    i: int,
    j: int,
)
    requires
        consensus_outcome(committee, threshold, presented) is Ok,
        MIN_VALIDATORS <= proposed.len() <= MAX_VALIDATORS,
        0 <= i < proposed.len(),
        0 <= j < proposed.len(),
        i != j,
        proposed[i] == proposed[j],
    ensures
        change_outcome(committee, threshold, presented, proposed) == Err::<(), CustomError>(
            CustomError::ValidatorsNotUnique,
        ),
{
}

} // verus!

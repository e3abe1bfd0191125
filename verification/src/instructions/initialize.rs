//! Setting up the validator set.

use vstd::prelude::*;
use crate::account::ValidatorSet;
use crate::committee::committee_outcome;
use crate::error::CustomError;
use crate::pubkey::Pubkey;
use crate::threshold::threshold_for;

verus! {

/// What initialisation works on.
#[derive(Clone, Debug, PartialEq, Eq)]
pub struct Initialize {
    /// The validator set's record, freshly allocated.
    pub validator_set: ValidatorSet,
    /// The bump with which the record's address was derived.
    pub bump: u8,
}

impl Initialize {
    /// Installs the first committee.
    ///
    /// `validators` become the committee if they are between
    /// `MIN_VALIDATORS` and `MAX_VALIDATORS` and pairwise distinct; the
    /// threshold is derived from their number and the bump is stored. In
    /// every other case the record is left as it was.
    pub fn process_instruction(ctx: &mut Initialize, validators: Vec<Pubkey>) -> (r: Result<
        (),
        CustomError,
    >)
        ensures
            r == committee_outcome(validators@),
            r is Ok ==> final(ctx).validator_set.signers == validators
                && final(ctx).validator_set.threshold == threshold_for(validators@.len())
                && final(ctx).validator_set.bump == old(ctx).bump
                && final(ctx).bump == old(ctx).bump
                && final(ctx).validator_set.wf(),
            r is Err ==> *final(ctx) == *old(ctx),
    {
        match ctx.validator_set.set_committee(validators) {
            Err(e) => Err(e),
            Ok(()) => {
                ctx.validator_set.bump = ctx.bump;
                Ok(())
            },
        }
    }
}

} // verus!

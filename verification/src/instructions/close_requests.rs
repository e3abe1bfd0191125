//! Closing a bridging request.

use vstd::prelude::*;
use crate::account::{BridgingRequest, PresentedAccount, ValidatorSet};
use crate::consensus::{check_consensus, consensus_outcome};
use crate::error::CustomError;

verus! {

/// What the closing of a bridging request works on.
#[derive(Clone, Debug, PartialEq, Eq)]
pub struct CloseRequest {
    /// The record to close, as long as there is one at its address.
    pub bridging_request: Option<BridgingRequest>,
    /// The validator set as it is stored.
    pub validator_set: ValidatorSet,
    /// The accounts presented as the committee's signatures.
    pub remaining_accounts: Vec<PresentedAccount>,
}

impl CloseRequest {
    /// Closes the bridging request, if the committee authorises it.
    ///
    /// After a success no record is left. On a refusal the record stays as it
    /// was. The validator set is only read. The sender who opened the request
    /// has no say in its closing.
    ///
    /// Whether there is a record at the address is for the ledger to say
    /// before this is reached: here an empty place simply stays empty.
    pub fn process_instruction(ctx: &mut CloseRequest) -> (r: Result<(), CustomError>)
        ensures
            r == consensus_outcome(
                old(ctx).validator_set.signers@,
                old(ctx).validator_set.threshold as nat,
                old(ctx).remaining_accounts@,
            ),
            r is Ok ==> final(ctx).bridging_request is None
                && final(ctx).validator_set == old(ctx).validator_set
                && final(ctx).remaining_accounts == old(ctx).remaining_accounts,
            r is Err ==> *final(ctx) == *old(ctx),
    {
        match check_consensus(&ctx.validator_set, &ctx.remaining_accounts) {
            Err(e) => Err(e),
            Ok(()) => {
                ctx.bridging_request = None;
                Ok(())
            },
        }
    }
}

} // verus!

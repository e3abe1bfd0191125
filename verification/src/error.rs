//! The ways an instruction is refused.

use vstd::prelude::*;

verus! {

/// Why an instruction was refused. Every refusal is final: nothing was
/// changed, and the caller has to submit corrected inputs.
#[derive(Clone, Copy, Debug, PartialEq, Eq, Structural, Hash)]
pub enum CustomError {
    /// The proposed committee has more than `MAX_VALIDATORS` members.
    MaxValidatorsExceeded,
    /// The proposed committee has fewer than `MIN_VALIDATORS` members.
    MinValidatorsNotMet,
    /// An identity occurs twice in the proposed committee.
    ValidatorsNotUnique,
    /// Fewer identities signed than the threshold asks for.
    NotEnoughSigners,
    /// An identity that signed is not a member of the committee.
    InvalidSigner,
    /// The sender holds fewer tokens than are to be burned.
    InsufficientFunds,
}

} // verus!

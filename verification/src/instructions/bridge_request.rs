//! Opening a bridging request.

use vstd::prelude::*;
use crate::account::{BridgingRequest, TokenAccount};
use crate::error::CustomError;
use crate::pubkey::Pubkey;
use crate::token::Burn;

verus! {

/// What the opening of a bridging request works on.
#[derive(Clone, Copy, Debug, PartialEq, Eq)]
pub struct BridgeRequest {
    /// The user who opens the request, and signs for it.
    pub signer: Pubkey,
    /// The user's token account for `mint`.
    pub signers_ata: TokenAccount,
    /// The place of the user's record.
    pub bridging_request: Option<BridgingRequest>,
    /// The mint of the tokens to bridge.
    pub mint: Pubkey,
}

impl BridgeRequest {
    /// The burn that opens a request for `amount`: from the sender's token
    /// account, of the mint in question, on the sender's own authority.
    pub open spec fn burn_of(self, amount: u64) -> Burn {
        Burn { mint: self.mint, from: self.signers_ata.key, authority: self.signer, amount }
    }

    /// Opens a bridging request for `amount` tokens, owed to `receiver` on
    /// `destination_chain`.
    ///
    /// No committee is asked: the sender acts alone. If the sender's account
    /// holds fewer than `amount` tokens, the request is refused, nothing is
    /// recorded and no burn is handed back. Otherwise the record is written
    /// under the sender's name and the burn of exactly `amount` tokens is
    /// handed back for the token ledger to carry out.
    ///
    /// A sender has one place for a record. The ledger allots it once and
    /// refuses a second request while the first is open; what is written
    /// here replaces whatever the place held.
    pub fn process_instruction(
        ctx: &mut BridgeRequest,
        amount: u64,
        receiver: [u8; 57],
        destination_chain: u8,
    ) -> (r: Result<Burn, CustomError>)
        ensures
            old(ctx).signers_ata.amount < amount ==> r == Err::<Burn, CustomError>(
                CustomError::InsufficientFunds,
            ) && *final(ctx) == *old(ctx),
            old(ctx).signers_ata.amount >= amount ==> r == Ok::<Burn, CustomError>(
                old(ctx).burn_of(amount),
            ) && *final(ctx) == (BridgeRequest {
                bridging_request: Some(
                    BridgingRequest {
                        sender: old(ctx).signer,
                        amount,
                        receiver,
                        destination_chain,
                        mint_token: old(ctx).mint,
                    },
                ),
                ..*old(ctx)
            }),
    {
        if ctx.signers_ata.amount < amount {
            return Err(CustomError::InsufficientFunds);
        }
        let burn = Burn {
            mint: ctx.mint,
            from: ctx.signers_ata.key,
            authority: ctx.signer,
            amount,
        };
        ctx.bridging_request = Some(
            BridgingRequest {
                sender: ctx.signer,
                amount,
                receiver,
                destination_chain,
                mint_token: ctx.mint,
            },
        );
        Ok(burn)
    }
}

} // verus!

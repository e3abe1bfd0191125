//! Minting bridged tokens to a recipient.

use vstd::prelude::*;
use crate::account::{AccountSlot, PresentedAccount, ValidatorSet};
use crate::consensus::{check_consensus, consensus_outcome};
use crate::constant::VALIDATOR_SET_SEED;
use crate::error::CustomError;
use crate::pubkey::Pubkey;
use crate::token::{Create, MintTo, Minting, SignerSeeds};

verus! {

/// What a minting works on.
#[derive(Clone, Debug, PartialEq, Eq)]
pub struct BridgeTokens {
    /// The mint of the tokens to issue.
    pub mint: Pubkey,
    /// Who pays for the recipient's token account, should it have to be
    /// created.
    pub payer: Pubkey,
    /// The validator set as it is stored.
    pub validator_set: ValidatorSet,
    /// The address derived for the validator set. It is this identity, none
    /// of the validators, that holds the authority to mint.
    pub validator_set_key: Pubkey,
    /// Who receives the tokens.
    pub recipient: Pubkey,
    /// The recipient's token account for `mint`.
    pub recipient_ata: AccountSlot,
    /// The accounts presented as the committee's signatures.
    pub remaining_accounts: Vec<PresentedAccount>,
}

impl BridgeTokens {
    /// What the token ledger is asked to do once a minting of `amount` is
    /// authorised.
    ///
    /// The recipient's token account is created first where the address is
    /// still empty. The tokens are minted on the authority of the validator
    /// set's derived address, which signs with the fixed seed and the stored
    /// bump.
    pub open spec fn minting_of(self, amount: u64) -> Minting {
        Minting {
            create: if self.recipient_ata.data_is_empty {
                Some(
                    Create {
                        payer: self.payer,
                        associated_token: self.recipient_ata.key,
                        authority: self.recipient,
                        mint: self.mint,
                    },
                )
            } else {
                None
            },
            mint_to: MintTo {
                mint: self.mint,
                to: self.recipient_ata.key,
                authority: self.validator_set_key,
                amount,
                signer_seeds: SignerSeeds {
                    seed: VALIDATOR_SET_SEED,
                    bump: self.validator_set.bump,
                },
            },
        }
    }

    /// Mints `amount` tokens to the recipient, if the committee authorises
    /// it.
    ///
    /// Nothing but the committee's word is asked for: no bridging request
    /// has to exist, and none is touched. On a refusal nothing is handed
    /// back for the token ledger to do.
    pub fn process_instruction(ctx: &BridgeTokens, amount: u64) -> (r: Result<
        Minting,
        CustomError,
    >)
        ensures
            r == match consensus_outcome(
                ctx.validator_set.signers@,
                ctx.validator_set.threshold as nat,
                ctx.remaining_accounts@,
            ) {
                Err(e) => Err::<Minting, CustomError>(e),
                Ok(_) => Ok::<Minting, CustomError>(ctx.minting_of(amount)),
            },
    {
        match check_consensus(&ctx.validator_set, &ctx.remaining_accounts) {
            Err(e) => Err(e),
            Ok(()) => {
                let create: Option<Create> = if ctx.recipient_ata.data_is_empty {
                    Some(
                        Create {
                            payer: ctx.payer,
                            associated_token: ctx.recipient_ata.key,
                            authority: ctx.recipient,
                            mint: ctx.mint,
                        },
                    )
                } else {
                    None
                };
                let mint_to = MintTo {
                    mint: ctx.mint,
                    to: ctx.recipient_ata.key,
                    authority: ctx.validator_set_key,
                    amount,
                    signer_seeds: SignerSeeds {
                        seed: VALIDATOR_SET_SEED,
                        bump: ctx.validator_set.bump,
                    },
                };
                Ok(Minting { create, mint_to })
            },
        }
    }
}

} // verus!

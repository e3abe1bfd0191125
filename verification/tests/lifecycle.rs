use skyline_bridge::{
    AccountSlot, BridgeRequest, BridgeTokens, BridgingRequest, Burn, CloseRequest, Create,
    CustomError, MintTo, Minting, PresentedAccount, Pubkey, SignerSeeds, TokenAccount,
    ValidatorSet,
};

fn party(b: u8) -> Pubkey {
    Pubkey::new_from_array([b; 32])
}

fn approval(b: u8) -> PresentedAccount {
    PresentedAccount { key: party(b), is_signer: true }
}

fn approvals(signers: &[u8]) -> Vec<PresentedAccount> {
    signers.iter().map(|b| approval(*b)).collect()
}

fn stored_committee() -> ValidatorSet {
    ValidatorSet { signers: vec![party(1), party(2), party(3), party(4)], threshold: 3, bump: 253 }
}

const SENDER: u8 = 50;
const SENDER_TOKENS: u8 = 51;
const MINT: u8 = 60;
const RECIPIENT: u8 = 70;
const RECIPIENT_TOKENS: u8 = 71;
const PAYER: u8 = 80;
const SET_ADDRESS: u8 = 90;

fn receiver_address() -> [u8; 57] {
    let mut receiver = [0u8; 57];
    for (i, byte) in receiver.iter_mut().enumerate() {
        *byte = i as u8 + 100;
    }
    receiver
}

fn request_with_balance(balance: u64) -> BridgeRequest {
    BridgeRequest {
        signer: party(SENDER),
        signers_ata: TokenAccount { key: party(SENDER_TOKENS), amount: balance },
        bridging_request: None,
        mint: party(MINT),
    }
}

fn minting_signed_by(signers: &[u8], data_is_empty: bool) -> BridgeTokens {
    BridgeTokens {
        mint: party(MINT),
        payer: party(PAYER),
        validator_set: stored_committee(),
        validator_set_key: party(SET_ADDRESS),
        recipient: party(RECIPIENT),
        recipient_ata: AccountSlot { key: party(RECIPIENT_TOKENS), data_is_empty },
        remaining_accounts: approvals(signers),
    }
}

fn open_record() -> BridgingRequest {
    BridgingRequest {
        sender: party(SENDER),
        amount: 40,
        receiver: receiver_address(),
        destination_chain: 2,
        mint_token: party(MINT),
    }
}

fn closing_signed_by(signers: &[u8]) -> CloseRequest {
    CloseRequest {
        bridging_request: Some(open_record()),
        validator_set: stored_committee(),
        remaining_accounts: approvals(signers),
    }
}

fn expected_mint_to(amount: u64) -> MintTo {
    MintTo {
        mint: party(MINT),
        to: party(RECIPIENT_TOKENS),
        authority: party(SET_ADDRESS),
        amount,
        signer_seeds: SignerSeeds { seed: *b"validator-set", bump: 253 },
    }
}

#[test]
fn burning_more_than_the_balance_is_refused_and_changes_nothing() {
    let mut ctx = request_with_balance(99);
    let before = ctx;
    let r = BridgeRequest::process_instruction(&mut ctx, 100, receiver_address(), 2);
    assert_eq!(r, Err(CustomError::InsufficientFunds));
    assert_eq!(ctx, before);
    assert_eq!(ctx.signers_ata.amount, 99);
    assert_eq!(ctx.bridging_request, None);
}

#[test]
fn burning_from_an_empty_account_is_refused() {
    let mut ctx = request_with_balance(0);
    let r = BridgeRequest::process_instruction(&mut ctx, 1, receiver_address(), 2);
    assert_eq!(r, Err(CustomError::InsufficientFunds));
    assert_eq!(ctx, request_with_balance(0));
    let r = BridgeRequest::process_instruction(&mut ctx, u64::MAX, receiver_address(), 2);
    assert_eq!(r, Err(CustomError::InsufficientFunds));
    assert_eq!(ctx, request_with_balance(0));
}

#[test]
fn a_refused_request_leaves_an_earlier_record_alone() {
    let mut ctx = request_with_balance(10);
    ctx.bridging_request = Some(open_record());
    let before = ctx;
    let r = BridgeRequest::process_instruction(&mut ctx, 11, [9; 57], 3);
    assert_eq!(r, Err(CustomError::InsufficientFunds));
    assert_eq!(ctx, before);
}

#[test]
fn a_request_within_the_balance_is_recorded_and_burned() {
    let mut ctx = request_with_balance(100);
    let r = BridgeRequest::process_instruction(&mut ctx, 40, receiver_address(), 2);
    assert_eq!(
        r,
        Ok(Burn {
            mint: party(MINT),
            from: party(SENDER_TOKENS),
            authority: party(SENDER),
            amount: 40,
        })
    );
    assert_eq!(ctx.bridging_request, Some(open_record()));
    assert_eq!(ctx.signer, party(SENDER));
    assert_eq!(ctx.signers_ata, TokenAccount { key: party(SENDER_TOKENS), amount: 100 });
    assert_eq!(ctx.mint, party(MINT));
}

#[test]
fn the_whole_balance_may_be_bridged() {
    let mut ctx = request_with_balance(u64::MAX);
    let r = BridgeRequest::process_instruction(&mut ctx, u64::MAX, [1; 57], 255);
    assert_eq!(r.map(|burn| burn.amount), Ok(u64::MAX));
    let record = ctx.bridging_request.unwrap();
    assert_eq!(record.amount, u64::MAX);
    assert_eq!(record.receiver, [1u8; 57]);
    assert_eq!(record.destination_chain, 255);
}

#[test]
fn a_request_needs_no_committee() {
    // No validator set and no signatures are among the inputs at all.
    let mut ctx = request_with_balance(5);
    let r = BridgeRequest::process_instruction(&mut ctx, 5, [0; 57], 0);
    assert!(r.is_ok());
    assert_eq!(ctx.bridging_request.map(|record| record.sender), Some(party(SENDER)));
}

#[test]
fn minting_with_consensus_needs_no_open_request() {
    let ctx = minting_signed_by(&[1, 2, 3], false);
    let r = BridgeTokens::process_instruction(&ctx, 500);
    assert_eq!(r, Ok(Minting { create: None, mint_to: expected_mint_to(500) }));
}

#[test]
fn minting_creates_the_recipients_account_where_there_is_none() {
    let ctx = minting_signed_by(&[2, 3, 4], true);
    let r = BridgeTokens::process_instruction(&ctx, 1);
    assert_eq!(
        r,
        Ok(Minting {
            create: Some(Create {
                payer: party(PAYER),
                associated_token: party(RECIPIENT_TOKENS),
                authority: party(RECIPIENT),
                mint: party(MINT),
            }),
            mint_to: expected_mint_to(1),
        })
    );
}

#[test]
fn minting_is_on_the_authority_of_the_validator_set_not_of_a_validator() {
    let ctx = minting_signed_by(&[1, 2, 3, 4], false);
    let minting = BridgeTokens::process_instruction(&ctx, 9).unwrap();
    assert_eq!(minting.mint_to.authority, party(SET_ADDRESS));
    for validator in &ctx.validator_set.signers {
        assert_ne!(minting.mint_to.authority, *validator);
    }
    assert_eq!(&minting.mint_to.signer_seeds.seed[..], &b"validator-set"[..]);
    assert_eq!(minting.mint_to.signer_seeds.bump, ctx.validator_set.bump);
}

#[test]
fn minting_without_enough_signers_is_refused() {
    let ctx = minting_signed_by(&[1, 2], true);
    assert_eq!(BridgeTokens::process_instruction(&ctx, 500), Err(CustomError::NotEnoughSigners));
    let ctx = minting_signed_by(&[], false);
    assert_eq!(BridgeTokens::process_instruction(&ctx, 500), Err(CustomError::NotEnoughSigners));
}

#[test]
fn minting_signed_by_an_outsider_is_refused() {
    let ctx = minting_signed_by(&[1, 2, RECIPIENT], true);
    assert_eq!(BridgeTokens::process_instruction(&ctx, 500), Err(CustomError::InvalidSigner));
    let ctx = minting_signed_by(&[1, 2, 3, PAYER], false);
    assert_eq!(BridgeTokens::process_instruction(&ctx, 500), Err(CustomError::InvalidSigner));
}

#[test]
fn minting_of_any_amount_is_passed_on_unchanged() {
    for amount in [0u64, 1, 40, u64::MAX] {
        let ctx = minting_signed_by(&[1, 3, 4], false);
        let minting = BridgeTokens::process_instruction(&ctx, amount).unwrap();
        assert_eq!(minting.mint_to.amount, amount);
    }
}

#[test]
fn closing_with_consensus_removes_the_record() {
    let mut ctx = closing_signed_by(&[1, 2, 3]);
    let r = CloseRequest::process_instruction(&mut ctx);
    assert_eq!(r, Ok(()));
    assert_eq!(ctx.bridging_request, None);
    assert_eq!(ctx.validator_set, stored_committee());
    assert_eq!(ctx.remaining_accounts, approvals(&[1, 2, 3]));
}

#[test]
fn closing_without_enough_signers_keeps_the_record() {
    let mut ctx = closing_signed_by(&[1, 2]);
    let before = ctx.clone();
    let r = CloseRequest::process_instruction(&mut ctx);
    assert_eq!(r, Err(CustomError::NotEnoughSigners));
    assert_eq!(ctx, before);
    assert_eq!(ctx.bridging_request, Some(open_record()));
}

#[test]
fn closing_signed_by_an_outsider_keeps_the_record() {
    let mut ctx = closing_signed_by(&[1, 2, 9]);
    let before = ctx.clone();
    let r = CloseRequest::process_instruction(&mut ctx);
    assert_eq!(r, Err(CustomError::InvalidSigner));
    assert_eq!(ctx, before);
}

#[test]
fn the_sender_alone_cannot_close_the_request() {
    let mut ctx = closing_signed_by(&[SENDER]);
    assert_eq!(CloseRequest::process_instruction(&mut ctx), Err(CustomError::NotEnoughSigners));
    let mut ctx = closing_signed_by(&[SENDER, 1, 2]);
    assert_eq!(CloseRequest::process_instruction(&mut ctx), Err(CustomError::InvalidSigner));
    assert_eq!(ctx.bridging_request, Some(open_record()));
}

#[test]
fn closing_where_no_record_is_left_is_not_refused_by_the_committee() {
    let mut ctx = closing_signed_by(&[1, 2, 3]);
    ctx.bridging_request = None;
    assert_eq!(CloseRequest::process_instruction(&mut ctx), Ok(()));
    assert_eq!(ctx.bridging_request, None);
}

#[test]
fn a_request_is_opened_minted_for_and_closed() {
    let mut request = request_with_balance(40);
    let burn = BridgeRequest::process_instruction(&mut request, 40, receiver_address(), 2);
    assert_eq!(burn.map(|b| b.amount), Ok(40));
    let record = request.bridging_request;
    assert_eq!(record, Some(open_record()));

    // Minting neither asks for the record nor consumes it.
    let minting = minting_signed_by(&[1, 2, 3], true);
    assert!(BridgeTokens::process_instruction(&minting, 40).is_ok());
    assert_eq!(request.bridging_request, record);

    let mut closing = CloseRequest {
        bridging_request: record,
        validator_set: stored_committee(),
        remaining_accounts: approvals(&[2, 3, 4]),
    };
    assert_eq!(CloseRequest::process_instruction(&mut closing), Ok(()));
    assert_eq!(closing.bridging_request, None);

    // Closed or not, the committee may mint again.
    assert!(BridgeTokens::process_instruction(&minting, 40).is_ok());
}

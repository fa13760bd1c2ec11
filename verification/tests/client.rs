use bonus_prize::error::BonusPrizeError;
use bonus_prize::instruction::{checked_create_claim_instruction, create_claim_instruction};
use bonus_prize::instructions::{checked_create_add_prizes_instruction, checked_send_prizes, create_add_prizes_instruction, send_prizes, Instructions};
use bonus_prize::utils::constants::{BONUS_PRIZE, DRAW_RESULT, ID, LOTTERY_ACCOUNT, NO_LOSS_LOTTERY_ID, SYSTEM_PROGRAM_ID};
use bonus_prize::utils::pdas::{associated_token_address_exists, find_bonus_prize_address, find_draw_result_address, get_bonus_prize_seed_signer, get_draw_result, get_prize_mints};
use solana_program::pubkey::Pubkey;
use spl_associated_token_account::get_associated_token_address;

fn pk(k: [u8; 32]) -> Pubkey {
    Pubkey::new_from_array(k)
}

fn ata(wallet: [u8; 32], mint: [u8; 32]) -> [u8; 32] {
    get_associated_token_address(&pk(wallet), &pk(mint)).to_bytes()
}

#[test]
fn constants_are_the_declared_addresses() {
    assert_eq!(pk(ID).to_string(), "54oykPNNXxpXihbuU5H6j3MZmqCxaAdHALDvVYfzwnW4");
    assert_eq!(pk(NO_LOSS_LOTTERY_ID).to_string(), "57JfdST1qV2upu9fU3E2K2GdQpzJhU36C8n61qnZrGea");
    assert_eq!(pk(LOTTERY_ACCOUNT).to_string(), "2pqqzZMoFpXem9tVMoWCz1xfQiZp9863479ta739Dybm");
    assert_eq!(pk(SYSTEM_PROGRAM_ID), solana_program::system_program::id());
    assert_eq!(&BONUS_PRIZE, b"bonus_prize");
    assert_eq!(&DRAW_RESULT, b"draw_result");
}

#[test]
fn derived_addresses_match_the_sdk() {
    let draw = 4u64;
    let expected = Pubkey::find_program_address(&[b"bonus_prize", &LOTTERY_ACCOUNT, &draw.to_le_bytes()], &pk(ID)).0.to_bytes();
    assert_eq!(get_prize_mints(draw, LOTTERY_ACCOUNT), expected);
    assert_eq!(get_bonus_prize_seed_signer(draw, LOTTERY_ACCOUNT), expected);
    let expected = Pubkey::find_program_address(&[b"draw_result", &draw.to_le_bytes(), &LOTTERY_ACCOUNT], &pk(NO_LOSS_LOTTERY_ID)).0.to_bytes();
    assert_eq!(get_draw_result(draw, LOTTERY_ACCOUNT), expected);
    assert_ne!(get_draw_result(draw, LOTTERY_ACCOUNT), LOTTERY_ACCOUNT);
}

#[test]
fn claim_instruction_names_the_program_accounts() {
    let claimer = [1u8; 32];
    let mint = [9u8; 32];
    let ix = create_claim_instruction(claimer, mint, LOTTERY_ACCOUNT, 4);
    let signer = get_bonus_prize_seed_signer(4, LOTTERY_ACCOUNT);
    assert_eq!(ix.program_id, ID);
    assert_eq!(ix.data, 4u64.to_le_bytes().to_vec());
    let keys: Vec<[u8; 32]> = ix.accounts.iter().map(|m| m.pubkey).collect();
    assert_eq!(
        keys,
        vec![
            claimer,
            signer,
            mint,
            ata(claimer, mint),
            ata(signer, mint),
            get_draw_result(4, LOTTERY_ACCOUNT),
            LOTTERY_ACCOUNT,
            spl_token::id().to_bytes(),
        ]
    );
    let writable: Vec<bool> = ix.accounts.iter().map(|m| m.is_writable).collect();
    assert_eq!(writable, vec![true, false, false, true, true, false, true, false]);
    let signing: Vec<bool> = ix.accounts.iter().map(|m| m.is_signer).collect();
    assert_eq!(signing, vec![true, false, false, false, false, false, false, false]);
    assert_eq!(checked_create_claim_instruction(claimer, mint, LOTTERY_ACCOUNT, 4), Some(ix));
}

#[test]
fn send_prizes_lists_token_account_pairs() {
    let program = [8u8; 32];
    let payer = [2u8; 32];
    let mints = vec![[10u8; 32], [11u8; 32]];
    let ix = send_prizes(&program, 7, LOTTERY_ACCOUNT, payer, mints.clone());
    let vault = get_prize_mints(7, LOTTERY_ACCOUNT);
    assert_eq!(ix.program_id, program);
    assert_eq!(Instructions::from_bytes(&ix.data), Some(Instructions::SendPrizes { draw_number: 7 }));
    let keys: Vec<[u8; 32]> = ix.accounts.iter().map(|m| m.pubkey).collect();
    assert_eq!(
        keys,
        vec![
            payer,
            vault,
            LOTTERY_ACCOUNT,
            spl_token::id().to_bytes(),
            ata(vault, mints[0]),
            ata(payer, mints[0]),
            ata(vault, mints[1]),
            ata(payer, mints[1]),
        ]
    );
    assert!(ix.accounts.iter().all(|m| m.is_writable));
    assert!(ix.accounts[0].is_signer && ix.accounts[1..].iter().all(|m| !m.is_signer));
    assert_eq!(checked_send_prizes(&program, 7, LOTTERY_ACCOUNT, payer, mints), Some(ix));
}

#[test]
fn add_prizes_counts_mints_in_one_byte() {
    let program = [8u8; 32];
    let payer = [2u8; 32];
    let mints = vec![[10u8; 32], [11u8; 32], [12u8; 32]];
    let ix = create_add_prizes_instruction(&program, 7, LOTTERY_ACCOUNT, mints.clone(), payer);
    assert_eq!(ix.data, vec![0, 3, 7, 0, 0, 0, 0, 0, 0, 0]);
    let keys: Vec<[u8; 32]> = ix.accounts.iter().map(|m| m.pubkey).collect();
    assert_eq!(keys, vec![payer, get_prize_mints(7, LOTTERY_ACCOUNT), LOTTERY_ACCOUNT, SYSTEM_PROGRAM_ID, mints[0], mints[1], mints[2]]);
    let writable: Vec<bool> = ix.accounts.iter().map(|m| m.is_writable).collect();
    assert_eq!(writable, vec![true, true, true, false, false, false, false]);
    let many = vec![[1u8; 32]; 257];
    let ix = create_add_prizes_instruction(&program, 7, LOTTERY_ACCOUNT, many.clone(), payer);
    assert_eq!(ix.data[1], 1);
    assert_eq!(ix.accounts.len(), 4 + 257);
    assert_eq!(checked_create_add_prizes_instruction(&program, 7, LOTTERY_ACCOUNT, many, payer), Some(ix));
}

#[test]
fn errors_have_codes_names_and_messages() {
    let all = [
        BonusPrizeError::InvalidInstruction,
        BonusPrizeError::ClaimerNotWinner,
        BonusPrizeError::DrawNumberMismatch,
        BonusPrizeError::DrawResultAccountDerivationError,
        BonusPrizeError::DrawResultAccountOwnerMismatch,
        BonusPrizeError::InvalidBonusPrizeSigner,
    ];
    for (i, e) in all.iter().enumerate() {
        assert_eq!(e.code(), i as u32);
    }
    assert_eq!(BonusPrizeError::ClaimerNotWinner.to_string(), "ClaimerNotWinner");
    assert_eq!(BonusPrizeError::InvalidBonusPrizeSigner.to_string(), "InvalidBonusPrizeSigner");
    assert_eq!(BonusPrizeError::DrawNumberMismatch.message(), "Error: Draw number mismatch");
    assert_eq!(BonusPrizeError::InvalidInstruction.message(), "Error: Invalid instruction");
    assert_eq!(BonusPrizeError::type_of(), "BonusPrizeError");
}

#[test]
fn finders_report_address_and_bump() {
    let draw = 9u64;
    let (k, bump) = Pubkey::find_program_address(&[b"bonus_prize", &LOTTERY_ACCOUNT, &draw.to_le_bytes()], &pk(ID));
    assert_eq!(find_bonus_prize_address(draw, &LOTTERY_ACCOUNT, &ID), Some((k.to_bytes(), bump)));
    let (k, bump) = Pubkey::find_program_address(&[b"draw_result", &draw.to_le_bytes(), &LOTTERY_ACCOUNT], &pk(NO_LOSS_LOTTERY_ID));
    assert_eq!(find_draw_result_address(draw, &LOTTERY_ACCOUNT), Some((k.to_bytes(), bump)));
    assert!(associated_token_address_exists(&[1u8; 32], &[9u8; 32]));
}

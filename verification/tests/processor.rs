use bonus_prize::error::{BonusPrizeError, ClaimError};
use bonus_prize::nll_state::DrawResult;
use bonus_prize::processor::{checked_process_instruction, process_instruction, verify_draw_results_account, AccountInput};
use bonus_prize::utils::constants::{BONUS_PRIZE, DRAW_RESULT, DRAW_RESULT_DISCRIMINATOR, ID, LOTTERY_ACCOUNT, NO_LOSS_LOTTERY_ID};
use solana_program::program_option::COption;
use solana_program::program_pack::Pack;
use solana_program::pubkey::Pubkey;

const PRIZE: u64 = 1_000_000_000;

fn key(byte: u8) -> [u8; 32] {
    [byte; 32]
}

fn pda(seeds: &[&[u8]], program: &[u8; 32]) -> ([u8; 32], u8) {
    let (k, bump) = Pubkey::find_program_address(seeds, &Pubkey::new_from_array(*program));
    (k.to_bytes(), bump)
}

fn draw_result_bytes(winner: [u8; 32], draw: u64) -> Vec<u8> {
    DrawResult {
        discriminator: DRAW_RESULT_DISCRIMINATOR,
        winner,
        draw,
        timestamp: 1_700_000_000,
        prize: PRIZE,
        version: 1,
        _reserved0: [0; 7],
        lottery_num_tickets: 100,
        winning_ticket: 42,
        winner_num_tickets: 3,
    }
    .to_bytes()
}

fn token_account_bytes(owner: [u8; 32], amount: u64) -> Vec<u8> {
    let account = spl_token::state::Account {
        mint: Pubkey::new_from_array(key(9)),
        owner: Pubkey::new_from_array(owner),
        amount,
        delegate: COption::None,
        state: spl_token::state::AccountState::Initialized,
        is_native: COption::None,
        delegated_amount: 0,
        close_authority: COption::None,
    };
    let mut data = vec![0u8; spl_token::state::Account::LEN];
    spl_token::state::Account::pack(account, &mut data).unwrap();
    data
}

struct Setup {
    accounts: Vec<AccountInput>,
    data: Vec<u8>,
    bump: u8,
}

/// The accounts of a claim of draw `draw` of the lottery by `claimer`, where
/// the draw result names `winner`.
fn setup(claimer: [u8; 32], winner: [u8; 32], draw: u64) -> Setup {
    let lottery = LOTTERY_ACCOUNT;
    let draw_le = draw.to_le_bytes();
    let (signer, bump) = pda(&[&BONUS_PRIZE, &lottery, &draw_le], &ID);
    let (draw_result_key, _) = pda(&[&DRAW_RESULT, &draw_le, &lottery], &NO_LOSS_LOTTERY_ID);
    let plain = |k: [u8; 32]| AccountInput { key: k, owner: key(0), data: Vec::new() };
    let accounts = vec![
        plain(claimer),
        plain(signer),
        plain(key(9)),
        plain(key(3)),
        AccountInput { key: key(4), owner: spl_token::id().to_bytes(), data: token_account_bytes(signer, PRIZE) },
        AccountInput { key: draw_result_key, owner: NO_LOSS_LOTTERY_ID, data: draw_result_bytes(winner, draw) },
        plain(lottery),
        plain(spl_token::id().to_bytes()),
    ];
    Setup { accounts, data: draw_le.to_vec(), bump }
}

#[test]
fn test_user_claim() {
    let claimer = key(1);
    let s = setup(claimer, claimer, 4);
    let plan = process_instruction(&ID, &s.accounts, &s.data).unwrap();
    let ix = plan.instruction;
    assert_eq!(ix.program_id, spl_token::id().to_bytes());
    let mut expected_data = vec![3u8];
    expected_data.extend_from_slice(&PRIZE.to_le_bytes());
    assert_eq!(ix.data, expected_data);
    assert_eq!(ix.accounts.len(), 3);
    assert_eq!(ix.accounts[0].pubkey, key(4));
    assert!(ix.accounts[0].is_writable && !ix.accounts[0].is_signer);
    assert_eq!(ix.accounts[1].pubkey, key(3));
    assert!(ix.accounts[1].is_writable && !ix.accounts[1].is_signer);
    assert_eq!(ix.accounts[2].pubkey, s.accounts[1].key);
    assert!(!ix.accounts[2].is_writable && ix.accounts[2].is_signer);
    assert_eq!(
        plan.signer_seeds,
        vec![BONUS_PRIZE.to_vec(), LOTTERY_ACCOUNT.to_vec(), 4u64.to_le_bytes().to_vec(), vec![s.bump]]
    );
}

#[test]
fn test_wrong_claimer() {
    let s = setup(key(2), key(1), 4);
    let err = process_instruction(&ID, &s.accounts, &s.data).err().unwrap();
    assert_eq!(err, ClaimError::Custom(BonusPrizeError::ClaimerNotWinner));
    match err {
        ClaimError::Custom(e) => assert_eq!(e.code(), 1),
        _ => panic!("Unexpected error"),
    }
}

#[test]
fn claim_with_wrong_data_length_is_invalid() {
    let s = setup(key(1), key(1), 4);
    assert_eq!(process_instruction(&ID, &s.accounts, &[4, 0, 0, 0, 0, 0, 0]).err(), Some(ClaimError::InvalidInstructionData));
    assert_eq!(process_instruction(&ID, &s.accounts, &[0; 9]).err(), Some(ClaimError::InvalidInstructionData));
}

#[test]
fn claim_with_seven_accounts_lacks_keys() {
    let mut s = setup(key(1), key(1), 4);
    s.accounts.pop();
    assert_eq!(process_instruction(&ID, &s.accounts, &s.data).err(), Some(ClaimError::NotEnoughAccountKeys));
}

#[test]
fn claim_of_other_draw_mismatches() {
    let s = setup(key(1), key(1), 4);
    let data = 5u64.to_le_bytes();
    assert_eq!(
        process_instruction(&ID, &s.accounts, &data).err(),
        Some(ClaimError::Custom(BonusPrizeError::DrawNumberMismatch))
    );
}

#[test]
fn claim_with_underived_draw_result_fails() {
    let mut s = setup(key(1), key(1), 4);
    s.accounts[5].key = key(5);
    assert_eq!(
        process_instruction(&ID, &s.accounts, &s.data).err(),
        Some(ClaimError::Custom(BonusPrizeError::DrawResultAccountDerivationError))
    );
}

#[test]
fn claim_with_foreign_draw_result_fails() {
    let mut s = setup(key(1), key(1), 4);
    s.accounts[5].owner = key(6);
    assert_eq!(
        process_instruction(&ID, &s.accounts, &s.data).err(),
        Some(ClaimError::Custom(BonusPrizeError::DrawResultAccountOwnerMismatch))
    );
}

#[test]
fn claim_with_wrong_signer_fails() {
    let mut s = setup(key(1), key(1), 4);
    s.accounts[1].key = key(7);
    assert_eq!(
        process_instruction(&ID, &s.accounts, &s.data).err(),
        Some(ClaimError::Custom(BonusPrizeError::InvalidBonusPrizeSigner))
    );
    let s = setup(key(1), key(1), 4);
    assert_eq!(
        process_instruction(&key(8), &s.accounts, &s.data).err(),
        Some(ClaimError::Custom(BonusPrizeError::InvalidBonusPrizeSigner))
    );
}

#[test]
fn claim_from_malformed_vault_fails() {
    let mut s = setup(key(1), key(1), 4);
    s.accounts[4].data.pop();
    assert_eq!(process_instruction(&ID, &s.accounts, &s.data).err(), Some(ClaimError::InvalidAccountData));
    let mut s = setup(key(1), key(1), 4);
    s.accounts[4].data[108] = 3;
    assert_eq!(process_instruction(&ID, &s.accounts, &s.data).err(), Some(ClaimError::InvalidAccountData));
    let mut s = setup(key(1), key(1), 4);
    s.accounts[4].data[73] = 1;
    assert_eq!(process_instruction(&ID, &s.accounts, &s.data).err(), Some(ClaimError::InvalidAccountData));
}

#[test]
fn claim_from_uninitialized_vault_fails() {
    let mut s = setup(key(1), key(1), 4);
    s.accounts[4].data[108] = 0;
    assert_eq!(process_instruction(&ID, &s.accounts, &s.data).err(), Some(ClaimError::UninitializedAccount));
}

#[test]
fn claim_with_wrong_token_program_fails() {
    let mut s = setup(key(1), key(1), 4);
    s.accounts[7].key = key(7);
    assert_eq!(process_instruction(&ID, &s.accounts, &s.data).err(), Some(ClaimError::IncorrectProgramId));
}

#[test]
fn claim_pays_the_whole_vault() {
    let mut s = setup(key(1), key(1), 4);
    s.accounts[4].data = token_account_bytes(key(0), 77);
    let plan = process_instruction(&ID, &s.accounts, &s.data).unwrap();
    assert_eq!(&plan.instruction.data[1..], &77u64.to_le_bytes());
}

#[test]
fn checked_claim_refuses_short_draw_result() {
    let mut s = setup(key(1), key(1), 4);
    s.accounts[5].data.pop();
    assert!(checked_process_instruction(&ID, &s.accounts, &s.data).is_none());
    let s = setup(key(1), key(1), 4);
    assert!(checked_process_instruction(&ID, &s.accounts, &s.data).unwrap().is_ok());
    assert!(checked_process_instruction(&ID, &s.accounts, &[1, 2]).unwrap().is_err());
}

#[test]
fn draw_result_account_checks_in_order() {
    let s = setup(key(1), key(1), 4);
    let account = &s.accounts[5];
    assert_eq!(verify_draw_results_account(4, key(1), account, LOTTERY_ACCOUNT), Ok(()));
    assert_eq!(
        verify_draw_results_account(4, key(2), account, LOTTERY_ACCOUNT),
        Err(ClaimError::Custom(BonusPrizeError::ClaimerNotWinner))
    );
    assert_eq!(
        verify_draw_results_account(4, key(1), account, key(3)),
        Err(ClaimError::Custom(BonusPrizeError::DrawResultAccountDerivationError))
    );
}

//! The program's claim processing: the checks a claim must pass and the
//! token transfer that pays the prize out.
use vstd::prelude::*;
use vstd::bytes::{spec_u64_from_le_bytes, spec_u64_to_le_bytes, u64_from_le_bytes, u64_to_le_bytes};
use vstd::slice::slice_to_vec;
use crate::utils::bytes::same_key;
use crate::utils::constants::{BONUS_PRIZE, NO_LOSS_LOTTERY_ID};
use crate::error::{BonusPrizeError, ClaimError};
use crate::instruction::{Instruction, InstructionView};
use crate::nll_state::{recorded_draw, recorded_winner, DrawResult, DRAW_RESULT_LEN};
use crate::utils::pdas::{bonus_prize_address, draw_result_address, find_bonus_prize_address, find_draw_result_address, get_draw_result};
use crate::sdk::{token_account_amount, token_transfer, transfer_instruction, unpack_token_account_amount};

verus! {

/// An account as the program is handed it: its address, the program that
/// owns it and its data.
pub struct AccountInput {
    pub key: [u8; 32],
    pub owner: [u8; 32],
    pub data: Vec<u8>,
}

/// The token transfer that pays a claim out, and the seeds with which the
/// program signs it as the vault authority.
pub struct ClaimTransfer {
    pub instruction: Instruction,
    pub signer_seeds: Vec<Vec<u8>>,
}

/// What a [`ClaimTransfer`] says, as sequences.
pub struct ClaimTransferView {
    pub instruction: InstructionView,
    pub signer_seeds: Seq<Seq<u8>>,
}

/// The views of a list of seeds.
pub open spec fn seeds_view(seeds: Seq<Vec<u8>>) -> Seq<Seq<u8>> {
    seeds.map_values(|s: Vec<u8>| s@)
}

impl View for ClaimTransfer {
    type V = ClaimTransferView;

    open spec fn view(&self) -> ClaimTransferView {
        ClaimTransferView { instruction: self.instruction@, signer_seeds: seeds_view(self.signer_seeds@) }
    }
}

/// The checks on the draw result account of a claim, in the order the
/// program makes them: it records the claimed draw, it names the claimer as
/// winner, it sits at the address derived for the draw, and the no-loss
/// lottery program owns it.
pub open spec fn draw_result_verdict(draw_number: u64, claimer: Seq<u8>, account: AccountInput, lottery: Seq<u8>) -> Result<(), ClaimError> {
    if recorded_draw(account.data@) != draw_number {
        Err(ClaimError::Custom(BonusPrizeError::DrawNumberMismatch))
    } else if recorded_winner(account.data@) != claimer {
        Err(ClaimError::Custom(BonusPrizeError::ClaimerNotWinner))
    } else if draw_result_address(draw_number, lottery).unwrap().0 != account.key@ {
        Err(ClaimError::Custom(BonusPrizeError::DrawResultAccountDerivationError))
    } else if account.owner@ != NO_LOSS_LOTTERY_ID@ {
        Err(ClaimError::Custom(BonusPrizeError::DrawResultAccountOwnerMismatch))
    } else {
        Ok(())
    }
}

/// Whether checking the draw result account runs to an answer: its data has
/// the length of a draw result (reading it otherwise panics), and the
/// address of the draw's result account can be derived where the check
/// comes to it.
pub open spec fn draw_result_checkable(draw_number: u64, claimer: Seq<u8>, account: AccountInput, lottery: Seq<u8>) -> bool {
    &&& account.data@.len() == DRAW_RESULT_LEN
    &&& recorded_draw(account.data@) == draw_number && recorded_winner(account.data@) == claimer
        ==> draw_result_address(draw_number, lottery) is Some
}

/// Checks the draw result account of a claim.
pub fn verify_draw_results_account(
    draw_number: u64,
    claimer: [u8; 32],
    draw_result_account: &AccountInput,
    lottery_account_key: [u8; 32],
) -> (r: Result<(), ClaimError>)
    requires
        draw_result_checkable(draw_number, claimer@, *draw_result_account, lottery_account_key@),
    ensures
        r == draw_result_verdict(draw_number, claimer@, *draw_result_account, lottery_account_key@),
{
    let draw_result_data = DrawResult::from_bytes(draw_result_account.data.as_slice());
    if draw_result_data.draw != draw_number {
        return Err(BonusPrizeError::DrawNumberMismatch.into());
    }
    if !same_key(&draw_result_data.winner, &claimer) {
        return Err(BonusPrizeError::ClaimerNotWinner.into());
    }
    let expected_draw_result_account = get_draw_result(draw_number, lottery_account_key);
    if !same_key(&expected_draw_result_account, &draw_result_account.key) {
        return Err(BonusPrizeError::DrawResultAccountDerivationError.into());
    }
    if !same_key(&NO_LOSS_LOTTERY_ID, &draw_result_account.owner) {
        return Err(BonusPrizeError::DrawResultAccountOwnerMismatch.into());
    }
    Ok(())
}

/// The draw number an instruction's data carries.
pub open spec fn claimed_draw(instruction_data: Seq<u8>) -> u64 {
    spec_u64_from_le_bytes(instruction_data)
}

/// What processing a claim ends in. The accounts are, in order: the claimer,
/// the vault authority, the prize mint, the claimer's token account, the
/// vault's token account, the draw result account, the lottery and the token
/// program. In order, the claim fails where the data is not eight bytes,
/// where fewer than eight accounts are passed, where a draw result check
/// fails, where the vault authority is not the address derived under
/// `program_id` for the draw, where the vault is no initialized token
/// account, and where the token program account is not the token program.
/// Otherwise it moves every token of the vault to the claimer's token
/// account, signed for with the vault authority's seeds and bump.
pub open spec fn claim_outcome(program_id: Seq<u8>, accounts: Seq<AccountInput>, instruction_data: Seq<u8>) -> Result<ClaimTransferView, ClaimError> {
    if instruction_data.len() != 8 {
        Err(ClaimError::InvalidInstructionData)
    } else if accounts.len() < 8 {
        Err(ClaimError::NotEnoughAccountKeys)
    } else {
        let draw_number = claimed_draw(instruction_data);
        let lottery = accounts[6].key@;
        match draw_result_verdict(draw_number, accounts[0].key@, accounts[5], lottery) {
            Err(e) => Err(e),
            Ok(_) => {
                let (signer, bump) = bonus_prize_address(draw_number, lottery, program_id).unwrap();
                if signer != accounts[1].key@ {
                    Err(ClaimError::Custom(BonusPrizeError::InvalidBonusPrizeSigner))
                } else {
                    match token_account_amount(accounts[4].data@) {
                        Err(e) => Err(e),
                        Ok(amount) => match transfer_instruction(
                            accounts[7].key@,
                            accounts[4].key@,
                            accounts[3].key@,
                            accounts[1].key@,
                            amount,
                        ) {
                            Err(e) => Err(e),
                            Ok(instruction) => Ok(ClaimTransferView {
                                instruction,
                                signer_seeds: seq![BONUS_PRIZE@, lottery, spec_u64_to_le_bytes(draw_number), seq![bump]],
                            }),
                        },
                    }
                }
            },
        }
    }
}

/// Whether processing a claim runs to an answer rather than panicking: the
/// draw result account can be checked, and the vault authority's address
/// can be derived where the processing comes to it.
pub open spec fn claim_is_processable(program_id: Seq<u8>, accounts: Seq<AccountInput>, instruction_data: Seq<u8>) -> bool {
    instruction_data.len() == 8 && accounts.len() >= 8 ==> {
        let draw_number = claimed_draw(instruction_data);
        let lottery = accounts[6].key@;
        &&& draw_result_checkable(draw_number, accounts[0].key@, accounts[5], lottery)
        &&& draw_result_verdict(draw_number, accounts[0].key@, accounts[5], lottery) is Ok
            ==> bonus_prize_address(draw_number, lottery, program_id) is Some
    }
}

/// Processes a claim of a draw's bonus prize: checks it and returns the
/// token transfer that pays it out, for the caller to invoke signed with the
/// returned seeds.
pub fn process_instruction(
    program_id: &[u8; 32],
    accounts: &[AccountInput],
    instruction_data: &[u8],
) -> (r: Result<ClaimTransfer, ClaimError>)
    requires
        claim_is_processable(program_id@, accounts@, instruction_data@),
    ensures
        match r {
            Ok(transfer) => claim_outcome(program_id@, accounts@, instruction_data@) == Ok::<ClaimTransferView, ClaimError>(transfer@),
            Err(e) => claim_outcome(program_id@, accounts@, instruction_data@) == Err::<ClaimTransferView, ClaimError>(e),
        },
{
    if instruction_data.len() != 8 {
        return Err(ClaimError::InvalidInstructionData);
    }
    let draw_number = u64_from_le_bytes(instruction_data);
    if accounts.len() < 8 {
        return Err(ClaimError::NotEnoughAccountKeys);
    }
    let claimer = &accounts[0];
    let bonus_prize_seed_signer = &accounts[1];
    let claimer_ata = &accounts[3];
    let vault_ata = &accounts[4];
    let draw_result_account = &accounts[5];
    let lottery_account = &accounts[6];
    let token_program = &accounts[7];

    verify_draw_results_account(draw_number, claimer.key, draw_result_account, lottery_account.key)?;

    let (expected_bonus_prize, bump) = match find_bonus_prize_address(draw_number, &lottery_account.key, program_id) {
        Some(found) => found,
        None => vstd::pervasive::unreached(),
    };
    if !same_key(&expected_bonus_prize, &bonus_prize_seed_signer.key) {
        return Err(BonusPrizeError::InvalidBonusPrizeSigner.into());
    }

    let amount = unpack_token_account_amount(vault_ata.data.as_slice())?;
    let instruction = token_transfer(
        &token_program.key,
        &vault_ata.key,
        &claimer_ata.key,
        &bonus_prize_seed_signer.key,
        amount,
    )?;

    let mut signer_seeds: Vec<Vec<u8>> = Vec::new();
    signer_seeds.push(slice_to_vec(BONUS_PRIZE.as_slice()));
    signer_seeds.push(slice_to_vec(lottery_account.key.as_slice()));
    signer_seeds.push(u64_to_le_bytes(draw_number));
    let mut bump_seed: Vec<u8> = Vec::new();
    bump_seed.push(bump);
    signer_seeds.push(bump_seed);
    let r = ClaimTransfer { instruction, signer_seeds };
    assert(r@.signer_seeds =~= seq![BONUS_PRIZE@, lottery_account.key@, spec_u64_to_le_bytes(draw_number), seq![bump]]);
    Ok(r)
}

/// Processes a claim where that runs to an answer, and returns `None` where
/// it does not, the cases in which [`process_instruction`] would panic: the
/// draw result account has the wrong length, or an address it needs cannot
/// be derived.
pub fn checked_process_instruction(
    program_id: &[u8; 32],
    accounts: &[AccountInput],
    instruction_data: &[u8],
) -> (r: Option<Result<ClaimTransfer, ClaimError>>)
    ensures
        match r {
            Some(Ok(transfer)) => claim_is_processable(program_id@, accounts@, instruction_data@)
                && claim_outcome(program_id@, accounts@, instruction_data@) == Ok::<ClaimTransferView, ClaimError>(transfer@),
            Some(Err(e)) => claim_is_processable(program_id@, accounts@, instruction_data@)
                && claim_outcome(program_id@, accounts@, instruction_data@) == Err::<ClaimTransferView, ClaimError>(e),
            None => !claim_is_processable(program_id@, accounts@, instruction_data@),
        },
{
    if instruction_data.len() == 8 && accounts.len() >= 8 {
        let draw_number = u64_from_le_bytes(instruction_data);
        let draw_result_account = &accounts[5];
        let lottery = &accounts[6].key;
        if draw_result_account.data.len() != DRAW_RESULT_LEN {
            return None;
        }
        let recorded = DrawResult::from_bytes(draw_result_account.data.as_slice());
        if recorded.draw == draw_number && same_key(&recorded.winner, &accounts[0].key) {
            match find_draw_result_address(draw_number, lottery) {
                None => return None,
                Some(found) => {
                    if same_key(&found.0, &draw_result_account.key)
                        && same_key(&draw_result_account.owner, &NO_LOSS_LOTTERY_ID)
                        && find_bonus_prize_address(draw_number, lottery, program_id).is_none() {
                        return None;
                    }
                },
            }
        }
    }
    Some(process_instruction(program_id, accounts, instruction_data))
}

} // verus!

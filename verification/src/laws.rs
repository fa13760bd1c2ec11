//! Properties that relate the program's functions to one another.
use vstd::prelude::*;
use vstd::bytes::{spec_u64_from_le_bytes, spec_u64_to_le_bytes};
use crate::utils::constants::{token_program_key, BONUS_PRIZE, ID, NO_LOSS_LOTTERY_ID};
use crate::error::{BonusPrizeError, ClaimError};
use crate::instruction::{claim_addresses_exist, claim_instruction};
use crate::instructions::{add_prizes_instruction, lemma_instructions_decode_encode, send_prizes_instruction, Instructions};
use crate::nll_state::{recorded_draw, recorded_winner, DRAW_RESULT_LEN};
use crate::utils::pdas::{
    associated_token_address, bonus_prize_address, draw_result_address, lemma_bonus_prize_address_seeds,
    lemma_draw_result_address_seeds,
};
use crate::processor::{claim_is_processable, claim_outcome, claimed_draw, AccountInput, ClaimTransferView};
use crate::sdk::{program_address, token_account_amount, transfer_instruction};

verus! {

/// A claim is paid out only to the winner the draw result account records
/// for the claimed draw, only from the result account derived for that draw
/// and owned by the no-loss lottery program, only with the vault authority
/// derived for the draw, and it then moves every token the vault holds from
/// the vault to the claimer's token account.
pub proof fn lemma_claim_paid_only_to_winner(program_id: Seq<u8>, accounts: Seq<AccountInput>, instruction_data: Seq<u8>)
    requires
        claim_outcome(program_id, accounts, instruction_data) is Ok,
    ensures
        instruction_data.len() == 8,
        accounts.len() >= 8,
        spec_u64_from_le_bytes(accounts[5].data@.subrange(40, 48)) == spec_u64_from_le_bytes(instruction_data),
        accounts[5].data@.subrange(8, 40) == accounts[0].key@,
        accounts[5].key@ == program_address(
            seq![100u8, 114, 97, 119, 95, 114, 101, 115, 117, 108, 116],
            instruction_data,
            accounts[6].key@,
            NO_LOSS_LOTTERY_ID@,
        ).unwrap().0,
        accounts[5].owner@ == NO_LOSS_LOTTERY_ID@,
        accounts[1].key@ == program_address(
            seq![98u8, 111, 110, 117, 115, 95, 112, 114, 105, 122, 101],
            accounts[6].key@,
            instruction_data,
            program_id,
        ).unwrap().0,
        token_account_amount(accounts[4].data@) is Ok,
        Ok::<_, ClaimError>(claim_outcome(program_id, accounts, instruction_data).unwrap().instruction) == transfer_instruction(
            accounts[7].key@,
            accounts[4].key@,
            accounts[3].key@,
            accounts[1].key@,
            token_account_amount(accounts[4].data@).unwrap(),
        ),
        claim_outcome(program_id, accounts, instruction_data).unwrap().signer_seeds == seq![
            seq![98u8, 111, 110, 117, 115, 95, 112, 114, 105, 122, 101],
            accounts[6].key@,
            instruction_data,
            seq![program_address(
                seq![98u8, 111, 110, 117, 115, 95, 112, 114, 105, 122, 101],
                accounts[6].key@,
                instruction_data,
                program_id,
            ).unwrap().1],
        ],
{
    vstd::bytes::lemma_auto_spec_u64_to_from_le_bytes();
    let draw = claimed_draw(instruction_data);
    assert(spec_u64_to_le_bytes(spec_u64_from_le_bytes(instruction_data)) == instruction_data);
    lemma_bonus_prize_address_seeds(draw, accounts[6].key@, program_id);
    lemma_draw_result_address_seeds(draw, accounts[6].key@);
}

/// How a claim fails, in terms of what it is handed: data that is not eight
/// bytes is invalid; eight bytes with fewer than eight accounts lack keys;
/// then a draw result recording another draw is a draw mismatch, one naming
/// another winner refuses the claimer, one not at the derived address is a
/// derivation error, one not owned by the no-loss lottery program is an
/// owner mismatch, and a vault authority not at the derived address is an
/// invalid signer.
pub proof fn lemma_claim_failures(program_id: Seq<u8>, accounts: Seq<AccountInput>, instruction_data: Seq<u8>)
    ensures
        instruction_data.len() != 8 ==> claim_outcome(program_id, accounts, instruction_data)
            == Err::<ClaimTransferView, ClaimError>(ClaimError::InvalidInstructionData),
        instruction_data.len() == 8 && accounts.len() < 8 ==> claim_outcome(program_id, accounts, instruction_data)
            == Err::<ClaimTransferView, ClaimError>(ClaimError::NotEnoughAccountKeys),
        instruction_data.len() == 8 && accounts.len() >= 8
            && spec_u64_from_le_bytes(accounts[5].data@.subrange(40, 48)) != spec_u64_from_le_bytes(instruction_data)
            ==> claim_outcome(program_id, accounts, instruction_data)
            == Err::<ClaimTransferView, ClaimError>(ClaimError::Custom(BonusPrizeError::DrawNumberMismatch)),
        instruction_data.len() == 8 && accounts.len() >= 8
            && spec_u64_from_le_bytes(accounts[5].data@.subrange(40, 48)) == spec_u64_from_le_bytes(instruction_data)
            && accounts[5].data@.subrange(8, 40) != accounts[0].key@
            ==> claim_outcome(program_id, accounts, instruction_data)
            == Err::<ClaimTransferView, ClaimError>(ClaimError::Custom(BonusPrizeError::ClaimerNotWinner)),
        instruction_data.len() == 8 && accounts.len() >= 8
            && spec_u64_from_le_bytes(accounts[5].data@.subrange(40, 48)) == spec_u64_from_le_bytes(instruction_data)
            && accounts[5].data@.subrange(8, 40) == accounts[0].key@
            && accounts[5].key@ != program_address(
                seq![100u8, 114, 97, 119, 95, 114, 101, 115, 117, 108, 116],
                instruction_data,
                accounts[6].key@,
                NO_LOSS_LOTTERY_ID@,
            ).unwrap().0
            ==> claim_outcome(program_id, accounts, instruction_data)
            == Err::<ClaimTransferView, ClaimError>(ClaimError::Custom(BonusPrizeError::DrawResultAccountDerivationError)),
        instruction_data.len() == 8 && accounts.len() >= 8
            && spec_u64_from_le_bytes(accounts[5].data@.subrange(40, 48)) == spec_u64_from_le_bytes(instruction_data)
            && accounts[5].data@.subrange(8, 40) == accounts[0].key@
            && accounts[5].key@ == program_address(
                seq![100u8, 114, 97, 119, 95, 114, 101, 115, 117, 108, 116],
                instruction_data,
                accounts[6].key@,
                NO_LOSS_LOTTERY_ID@,
            ).unwrap().0
            && accounts[5].owner@ != NO_LOSS_LOTTERY_ID@
            ==> claim_outcome(program_id, accounts, instruction_data)
            == Err::<ClaimTransferView, ClaimError>(ClaimError::Custom(BonusPrizeError::DrawResultAccountOwnerMismatch)),
        instruction_data.len() == 8 && accounts.len() >= 8
            && spec_u64_from_le_bytes(accounts[5].data@.subrange(40, 48)) == spec_u64_from_le_bytes(instruction_data)
            && accounts[5].data@.subrange(8, 40) == accounts[0].key@
            && accounts[5].key@ == program_address(
                seq![100u8, 114, 97, 119, 95, 114, 101, 115, 117, 108, 116],
                instruction_data,
                accounts[6].key@,
                NO_LOSS_LOTTERY_ID@,
            ).unwrap().0
            && accounts[5].owner@ == NO_LOSS_LOTTERY_ID@
            && accounts[1].key@ != program_address(
                seq![98u8, 111, 110, 117, 115, 95, 112, 114, 105, 122, 101],
                accounts[6].key@,
                instruction_data,
                program_id,
            ).unwrap().0
            ==> claim_outcome(program_id, accounts, instruction_data)
            == Err::<ClaimTransferView, ClaimError>(ClaimError::Custom(BonusPrizeError::InvalidBonusPrizeSigner)),
{
    vstd::bytes::lemma_auto_spec_u64_to_from_le_bytes();
    if instruction_data.len() == 8 && accounts.len() >= 8 {
        let draw = claimed_draw(instruction_data);
        assert(spec_u64_to_le_bytes(spec_u64_from_le_bytes(instruction_data)) == instruction_data);
        lemma_bonus_prize_address_seeds(draw, accounts[6].key@, program_id);
        lemma_draw_result_address_seeds(draw, accounts[6].key@);
    }
}

/// A claim whose draw result names another claimer fails with
/// `ClaimerNotWinner`, whatever else the accounts hold, once the data and the
/// recorded draw number are right.
pub proof fn lemma_claim_by_other_fails(program_id: Seq<u8>, accounts: Seq<AccountInput>, instruction_data: Seq<u8>)
    requires
        instruction_data.len() == 8,
        accounts.len() >= 8,
        recorded_draw(accounts[5].data@) == claimed_draw(instruction_data),
        recorded_winner(accounts[5].data@) != accounts[0].key@,
    ensures
        claim_outcome(program_id, accounts, instruction_data)
            == Err::<ClaimTransferView, ClaimError>(ClaimError::Custom(BonusPrizeError::ClaimerNotWinner)),
{
}

/// The instruction a winner builds with `create_claim_instruction` is one the
/// program accepts: handed the accounts it names in its order and its data,
/// under the program's own address, processing runs to an answer, reads back
/// the draw number, and where the draw result records that draw and winner,
/// is owned by the no-loss lottery program and the vault is an initialized
/// token account, pays every token of the vault to the claimer's token
/// account, signed for with the vault authority's seeds.
pub proof fn lemma_claim_instruction_accepted(
    claimer: Seq<u8>,
    mint: Seq<u8>,
    lottery: Seq<u8>,
    draw_number: u64,
    accounts: Seq<AccountInput>,
)
    requires
        claim_addresses_exist(claimer, mint, lottery, draw_number),
        accounts.len() == 8,
        forall|i: int| 0 <= i < 8 ==> #[trigger] accounts[i].key@ == claim_instruction(claimer, mint, lottery, draw_number).accounts[i].pubkey,
        accounts[5].data@.len() == DRAW_RESULT_LEN,
        recorded_draw(accounts[5].data@) == draw_number,
        recorded_winner(accounts[5].data@) == claimer,
        accounts[5].owner@ == NO_LOSS_LOTTERY_ID@,
        token_account_amount(accounts[4].data@) is Ok,
    ensures
        ({
            let ix = claim_instruction(claimer, mint, lottery, draw_number);
            let signer = bonus_prize_address(draw_number, lottery, ID@).unwrap();
            &&& claimed_draw(ix.data) == draw_number
            &&& claim_is_processable(ix.program_id, accounts, ix.data)
            &&& claim_outcome(ix.program_id, accounts, ix.data) == Ok::<ClaimTransferView, ClaimError>(ClaimTransferView {
                instruction: transfer_instruction(
                    token_program_key(),
                    associated_token_address(signer.0, mint).unwrap().0,
                    associated_token_address(claimer, mint).unwrap().0,
                    signer.0,
                    token_account_amount(accounts[4].data@).unwrap(),
                ).unwrap(),
                signer_seeds: seq![BONUS_PRIZE@, lottery, spec_u64_to_le_bytes(draw_number), seq![signer.1]],
            })
        }),
{
    vstd::bytes::lemma_auto_spec_u64_to_from_le_bytes();
    let ix = claim_instruction(claimer, mint, lottery, draw_number);
    assert(accounts[0].key@ == claimer);
    assert(accounts[1].key@ == bonus_prize_address(draw_number, lottery, ID@).unwrap().0);
    assert(accounts[3].key@ == ix.accounts[3].pubkey);
    assert(accounts[4].key@ == ix.accounts[4].pubkey);
    assert(accounts[5].key@ == draw_result_address(draw_number, lottery).unwrap().0);
    assert(accounts[6].key@ == lottery);
    assert(accounts[7].key@ == token_program_key());
    assert(claimed_draw(ix.data) == draw_number);
}

/// The data of a send-prizes instruction decodes as `SendPrizes` for its draw.
pub proof fn lemma_send_prizes_data_decodes(
    program_id: Seq<u8>,
    draw_number: u64,
    lottery: Seq<u8>,
    payer: Seq<u8>,
    mints: Seq<[u8; 32]>,
)
    ensures
        Instructions::spec_from_bytes(send_prizes_instruction(program_id, draw_number, lottery, payer, mints).data)
            == Some(Instructions::SendPrizes { draw_number }),
{
    lemma_instructions_decode_encode(Instructions::SendPrizes { draw_number });
}

/// The data of an add-prizes instruction decodes as `AddPrizes` for its draw,
/// with the number of mints cut to one byte.
pub proof fn lemma_add_prizes_data_decodes(
    program_id: Seq<u8>,
    draw_number: u64,
    lottery: Seq<u8>,
    prize_mints: Seq<[u8; 32]>,
    payer: Seq<u8>,
)
    ensures
        Instructions::spec_from_bytes(add_prizes_instruction(program_id, draw_number, lottery, prize_mints, payer).data)
            == Some(Instructions::AddPrizes { number_of_prizes: prize_mints.len() as u8, draw_number }),
{
    lemma_instructions_decode_encode(Instructions::AddPrizes { number_of_prizes: prize_mints.len() as u8, draw_number });
}

/// An error's code is its position in the declaration of the errors.
pub proof fn lemma_error_code_is_position(e: BonusPrizeError)
    ensures
        e.spec_code() < 6,
        seq![
            BonusPrizeError::InvalidInstruction,
            BonusPrizeError::ClaimerNotWinner,
            BonusPrizeError::DrawNumberMismatch,
            BonusPrizeError::DrawResultAccountDerivationError,
            BonusPrizeError::DrawResultAccountOwnerMismatch,
            BonusPrizeError::InvalidBonusPrizeSigner,
        ][e.spec_code() as int] == e,
{
}

/// Each of the program's errors has its own code.
pub proof fn lemma_error_codes_distinct(a: BonusPrizeError, b: BonusPrizeError)
    requires
        a.spec_code() == b.spec_code(),
    ensures
        a == b,
{
}

} // verus!

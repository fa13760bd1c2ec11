//! The program derived addresses of a draw.
use vstd::prelude::*;
use vstd::bytes::{spec_u64_to_le_bytes, u64_to_le_bytes};
use crate::utils::constants::{BONUS_PRIZE, DRAW_RESULT, ID, NO_LOSS_LOTTERY_ID};
use crate::sdk::{program_address, try_find_program_address};

verus! {

/// The address derived under `program_id` from the seeds
/// `["bonus_prize", lottery, draw number]`: the authority of a draw's prize
/// vault, and the account listing the draw's prize mints.
pub open spec fn bonus_prize_address(draw_number: u64, lottery: Seq<u8>, program_id: Seq<u8>) -> Option<(Seq<u8>, u8)> {
    program_address(BONUS_PRIZE@, lottery, spec_u64_to_le_bytes(draw_number), program_id)
}

/// The address of a draw's result account, derived under the no-loss lottery
/// program from the seeds `["draw_result", draw number, lottery]`.
pub open spec fn draw_result_address(draw_number: u64, lottery: Seq<u8>) -> Option<(Seq<u8>, u8)> {
    program_address(DRAW_RESULT@, spec_u64_to_le_bytes(draw_number), lottery, NO_LOSS_LOTTERY_ID@)
}

/// Finds the bonus prize address of a draw under `program_id`, with its bump seed.
pub fn find_bonus_prize_address(draw_number: u64, lottery: &[u8; 32], program_id: &[u8; 32]) -> (r: Option<([u8; 32], u8)>)
    ensures
        bonus_prize_address(draw_number, lottery@, program_id@) == match r {
            Some(found) => Some((found.0@, found.1)),
            None => None::<(Seq<u8>, u8)>,
        },
        program_address(BONUS_PRIZE@, lottery@, spec_u64_to_le_bytes(draw_number), program_id@) == match r {
            Some(found) => Some((found.0@, found.1)),
            None => None::<(Seq<u8>, u8)>,
        },
{
    let draw = u64_to_le_bytes(draw_number);
    try_find_program_address(BONUS_PRIZE.as_slice(), lottery.as_slice(), draw.as_slice(), program_id)
}

/// Finds the address of a draw's result account, with its bump seed.
pub fn find_draw_result_address(draw_number: u64, lottery: &[u8; 32]) -> (r: Option<([u8; 32], u8)>)
    ensures
        draw_result_address(draw_number, lottery@) == match r {
            Some(found) => Some((found.0@, found.1)),
            None => None::<(Seq<u8>, u8)>,
        },
        program_address(DRAW_RESULT@, spec_u64_to_le_bytes(draw_number), lottery@, NO_LOSS_LOTTERY_ID@) == match r {
            Some(found) => Some((found.0@, found.1)),
            None => None::<(Seq<u8>, u8)>,
        },
{
    let draw = u64_to_le_bytes(draw_number);
    try_find_program_address(DRAW_RESULT.as_slice(), draw.as_slice(), lottery.as_slice(), &NO_LOSS_LOTTERY_ID)
}

/// The account that lists a draw's prize mints.
pub fn get_prize_mints(draw_number: u64, lottery_account: [u8; 32]) -> (r: [u8; 32])
    requires
        bonus_prize_address(draw_number, lottery_account@, ID@) is Some,
    ensures
        r@ == bonus_prize_address(draw_number, lottery_account@, ID@).unwrap().0,
        r@ == program_address(BONUS_PRIZE@, lottery_account@, spec_u64_to_le_bytes(draw_number), ID@).unwrap().0,
{
    match find_bonus_prize_address(draw_number, &lottery_account, &ID) {
        Some(found) => found.0,
        None => vstd::pervasive::unreached(),
    }
}

/// The authority that signs for a draw's prize vault.
pub fn get_bonus_prize_seed_signer(draw_number: u64, lottery_account: [u8; 32]) -> (r: [u8; 32])
    requires
        bonus_prize_address(draw_number, lottery_account@, ID@) is Some,
    ensures
        r@ == bonus_prize_address(draw_number, lottery_account@, ID@).unwrap().0,
        r@ == program_address(BONUS_PRIZE@, lottery_account@, spec_u64_to_le_bytes(draw_number), ID@).unwrap().0,
{
    match find_bonus_prize_address(draw_number, &lottery_account, &ID) {
        Some(found) => found.0,
        None => vstd::pervasive::unreached(),
    }
}

/// The result account of a draw.
pub fn get_draw_result(draw_number: u64, lottery_account: [u8; 32]) -> (r: [u8; 32])
    requires
        draw_result_address(draw_number, lottery_account@) is Some,
    ensures
        r@ == draw_result_address(draw_number, lottery_account@).unwrap().0,
        r@ == program_address(DRAW_RESULT@, spec_u64_to_le_bytes(draw_number), lottery_account@, NO_LOSS_LOTTERY_ID@).unwrap().0,
{
    match find_draw_result_address(draw_number, &lottery_account) {
        Some(found) => found.0,
        None => vstd::pervasive::unreached(),
    }
}

} // verus!

verus! {

/// The associated token account of `wallet` for `mint`: the address derived
/// under the associated token account program from the seeds
/// `[wallet, token program, mint]`.
pub open spec fn associated_token_address(wallet: Seq<u8>, mint: Seq<u8>) -> Option<(Seq<u8>, u8)> {
    program_address(wallet, crate::utils::constants::token_program_key(), mint, crate::utils::constants::associated_token_program_key())
}

/// Whether the associated token account of `wallet` for `mint` can be
/// derived, that is whether deriving it does not fail.
pub fn associated_token_address_exists(wallet: &[u8; 32], mint: &[u8; 32]) -> (r: bool)
    ensures
        r == associated_token_address(wallet@, mint@) is Some,
        r == program_address(
            wallet@,
            crate::utils::constants::token_program_key(),
            mint@,
            crate::utils::constants::associated_token_program_key(),
        ) is Some,
{
    let token_program = crate::sdk::token_program_id();
    let ata_program = crate::sdk::associated_token_program_id();
    try_find_program_address(wallet.as_slice(), token_program.as_slice(), mint.as_slice(), &ata_program).is_some()
}

} // verus!

verus! {

/// A draw's bonus prize address is the one derived under the given program
/// from the seeds `"bonus_prize"`, the lottery passed in and the draw number
/// in little-endian order, in that order.
pub proof fn lemma_bonus_prize_address_seeds(draw_number: u64, lottery: Seq<u8>, program_id: Seq<u8>)
    ensures
        bonus_prize_address(draw_number, lottery, program_id)
            == program_address(seq![98u8, 111, 110, 117, 115, 95, 112, 114, 105, 122, 101], lottery, spec_u64_to_le_bytes(draw_number), program_id),
{
    assert(BONUS_PRIZE@ =~= seq![98u8, 111, 110, 117, 115, 95, 112, 114, 105, 122, 101]);
}

/// A draw's result account is the one derived under the no-loss lottery
/// program from the seeds `"draw_result"`, the draw number in little-endian
/// order and the lottery passed in, in that order.
pub proof fn lemma_draw_result_address_seeds(draw_number: u64, lottery: Seq<u8>)
    ensures
        draw_result_address(draw_number, lottery)
            == program_address(seq![100u8, 114, 97, 119, 95, 114, 101, 115, 117, 108, 116], spec_u64_to_le_bytes(draw_number), lottery, NO_LOSS_LOTTERY_ID@),
{
    assert(DRAW_RESULT@ =~= seq![100u8, 114, 97, 119, 95, 114, 101, 115, 117, 108, 116]);
}

/// An associated token account is the one derived under the associated
/// token account program from the wallet, the token program and the mint
/// passed in, in that order.
pub proof fn lemma_associated_token_address_seeds(wallet: Seq<u8>, mint: Seq<u8>)
    ensures
        associated_token_address(wallet, mint)
            == program_address(wallet, crate::utils::constants::token_program_key(), mint, crate::utils::constants::associated_token_program_key()),
{
}

} // verus!

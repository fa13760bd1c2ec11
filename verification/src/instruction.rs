//! Instructions as the runtime receives them, and the claim instruction a
//! winner sends to collect the bonus prize.
use vstd::prelude::*;
use vstd::bytes::{spec_u64_to_le_bytes, u64_to_le_bytes};
use crate::utils::constants::{associated_token_program_key, token_program_key, BONUS_PRIZE, DRAW_RESULT, ID, NO_LOSS_LOTTERY_ID};
use crate::sdk::program_address;
use crate::utils::pdas::{
    associated_token_address, associated_token_address_exists, bonus_prize_address,
    draw_result_address, find_bonus_prize_address, find_draw_result_address,
    get_bonus_prize_seed_signer, get_draw_result,
};
use crate::sdk::{get_associated_token_address, token_program_id};

verus! {

/// An account an instruction touches, with how it is touched.
#[derive(Clone, Copy, Debug, PartialEq, Eq)]
pub struct AccountMeta {
    pub pubkey: [u8; 32],
    pub is_signer: bool,
    pub is_writable: bool,
}

/// What an [`AccountMeta`] says, with the address as a byte sequence.
pub struct AccountMetaView {
    pub pubkey: Seq<u8>,
    pub is_signer: bool,
    pub is_writable: bool,
}

/// The view of an account touched with the given rights.
pub open spec fn meta_view(pubkey: Seq<u8>, is_signer: bool, is_writable: bool) -> AccountMetaView {
    AccountMetaView { pubkey, is_signer, is_writable }
}

impl View for AccountMeta {
    type V = AccountMetaView;

    open spec fn view(&self) -> AccountMetaView {
        meta_view(self.pubkey@, self.is_signer, self.is_writable)
    }
}

impl AccountMeta {
    /// An account the instruction writes to.
    pub fn new(pubkey: [u8; 32], is_signer: bool) -> (r: AccountMeta)
        ensures
            r@ == meta_view(pubkey@, is_signer, true),
    {
        AccountMeta { pubkey, is_signer, is_writable: true }
    }

    /// An account the instruction only reads.
    pub fn new_readonly(pubkey: [u8; 32], is_signer: bool) -> (r: AccountMeta)
        ensures
            r@ == meta_view(pubkey@, is_signer, false),
    {
        AccountMeta { pubkey, is_signer, is_writable: false }
    }
}

/// A call of a program: the program, the accounts it is handed and its data.
#[derive(Clone, Debug, PartialEq, Eq)]
pub struct Instruction {
    pub program_id: [u8; 32],
    pub accounts: Vec<AccountMeta>,
    pub data: Vec<u8>,
}

/// The views of a list of account metas.
pub open spec fn metas_view(metas: Seq<AccountMeta>) -> Seq<AccountMetaView> {
    metas.map_values(|m: AccountMeta| m@)
}

/// Adding a meta to a list adds its view to the list's views.
pub proof fn lemma_metas_view_push(metas: Seq<AccountMeta>, m: AccountMeta)
    ensures
        metas_view(metas.push(m)) == metas_view(metas).push(m@),
{
    assert(metas_view(metas.push(m)) =~= metas_view(metas).push(m@));
}

/// What an [`Instruction`] says, as sequences.
pub struct InstructionView {
    pub program_id: Seq<u8>,
    pub accounts: Seq<AccountMetaView>,
    pub data: Seq<u8>,
}

impl View for Instruction {
    type V = InstructionView;

    open spec fn view(&self) -> InstructionView {
        InstructionView {
            program_id: self.program_id@,
            accounts: metas_view(self.accounts@),
            data: self.data@,
        }
    }
}

/// Whether every address a claim instruction names can be derived: the
/// draw's result account, its vault authority, and the token accounts of the
/// authority and of the claimer for the prize mint.
pub open spec fn claim_addresses_exist(claimer: Seq<u8>, mint: Seq<u8>, lottery: Seq<u8>, draw_number: u64) -> bool {
    &&& draw_result_address(draw_number, lottery) is Some
    &&& bonus_prize_address(draw_number, lottery, ID@) is Some
    &&& associated_token_address(bonus_prize_address(draw_number, lottery, ID@).unwrap().0, mint) is Some
    &&& associated_token_address(claimer, mint) is Some
}

/// The instruction a winner sends to claim the bonus prize of a draw: the
/// program's address, the eight accounts the program reads in the order it
/// reads them, and the draw number in little-endian order as data.
pub open spec fn claim_instruction(claimer: Seq<u8>, mint: Seq<u8>, lottery: Seq<u8>, draw_number: u64) -> InstructionView {
    let signer = bonus_prize_address(draw_number, lottery, ID@).unwrap().0;
    InstructionView {
        program_id: ID@,
        accounts: seq![
            meta_view(claimer, true, true),
            meta_view(signer, false, false),
            meta_view(mint, false, false),
            meta_view(associated_token_address(claimer, mint).unwrap().0, false, true),
            meta_view(associated_token_address(signer, mint).unwrap().0, false, true),
            meta_view(draw_result_address(draw_number, lottery).unwrap().0, false, false),
            meta_view(lottery, false, true),
            meta_view(token_program_key(), false, false),
        ],
        data: spec_u64_to_le_bytes(draw_number),
    }
}

/// Builds the instruction with which `claimer` collects the bonus prize of
/// draw `draw_number` of `lottery`, paid in tokens of `mint`.
pub fn create_claim_instruction(claimer: [u8; 32], mint: [u8; 32], lottery: [u8; 32], draw_number: u64) -> (r: Instruction)
    requires
        claim_addresses_exist(claimer@, mint@, lottery@, draw_number),
    ensures
        r@ == claim_instruction(claimer@, mint@, lottery@, draw_number),
        r.program_id@ == ID@,
        r.data@ == spec_u64_to_le_bytes(draw_number),
        r.accounts@.len() == 8,
        r.accounts@[0]@ == meta_view(claimer@, true, true),
        r.accounts@[1]@ == meta_view(program_address(BONUS_PRIZE@, lottery@, spec_u64_to_le_bytes(draw_number), ID@).unwrap().0, false, false),
        r.accounts@[2]@ == meta_view(mint@, false, false),
        r.accounts@[3]@ == meta_view(program_address(claimer@, token_program_key(), mint@, associated_token_program_key()).unwrap().0, false, true),
        r.accounts@[4]@ == meta_view(program_address(
            program_address(BONUS_PRIZE@, lottery@, spec_u64_to_le_bytes(draw_number), ID@).unwrap().0,
            token_program_key(), mint@, associated_token_program_key()).unwrap().0, false, true),
        r.accounts@[5]@ == meta_view(program_address(DRAW_RESULT@, spec_u64_to_le_bytes(draw_number), lottery@, NO_LOSS_LOTTERY_ID@).unwrap().0, false, false),
        r.accounts@[6]@ == meta_view(lottery@, false, true),
        r.accounts@[7]@ == meta_view(token_program_key(), false, false),
{
    let data = u64_to_le_bytes(draw_number);
    let draw_result_account = get_draw_result(draw_number, lottery);
    let bonus_prize_seed_signer = get_bonus_prize_seed_signer(draw_number, lottery);
    let vault_ata = get_associated_token_address(&bonus_prize_seed_signer, &mint);
    let claimer_ata = get_associated_token_address(&claimer, &mint);
    let token_program = token_program_id();
    let mut accounts: Vec<AccountMeta> = Vec::new();
    accounts.push(AccountMeta::new(claimer, true));
    accounts.push(AccountMeta::new_readonly(bonus_prize_seed_signer, false));
    accounts.push(AccountMeta::new_readonly(mint, false));
    accounts.push(AccountMeta::new(claimer_ata, false));
    accounts.push(AccountMeta::new(vault_ata, false));
    accounts.push(AccountMeta::new_readonly(draw_result_account, false));
    accounts.push(AccountMeta::new(lottery, false));
    accounts.push(AccountMeta::new_readonly(token_program, false));
    let r = Instruction { program_id: ID, accounts, data };
    assert(r@.accounts =~= claim_instruction(claimer@, mint@, lottery@, draw_number).accounts);
    proof {
        assert forall|k: int| 0 <= k < 8 implies (#[trigger] r.accounts@[k])@ == r@.accounts[k] by {}
    }
    r
}

/// Builds the claim instruction where every address it names can be
/// derived, and returns `None` where one cannot be, the case in which
/// [`create_claim_instruction`] would panic.
pub fn checked_create_claim_instruction(claimer: [u8; 32], mint: [u8; 32], lottery: [u8; 32], draw_number: u64) -> (r: Option<Instruction>)
    ensures
        match r {
            Some(ix) => claim_addresses_exist(claimer@, mint@, lottery@, draw_number)
                && ix@ == claim_instruction(claimer@, mint@, lottery@, draw_number),
            None => !claim_addresses_exist(claimer@, mint@, lottery@, draw_number),
        },
{
    if find_draw_result_address(draw_number, &lottery).is_none() {
        return None;
    }
    let signer = match find_bonus_prize_address(draw_number, &lottery, &ID) {
        Some(found) => found.0,
        None => return None,
    };
    if !associated_token_address_exists(&signer, &mint) || !associated_token_address_exists(&claimer, &mint) {
        return None;
    }
    Some(create_claim_instruction(claimer, mint, lottery, draw_number))
}

/// The claim instruction is addressed to the program and carries the draw
/// number in eight little-endian bytes; it names, in order: the claimer
/// (signing, written to), the vault authority derived from `"bonus_prize"`,
/// the lottery and the draw number, the mint, the claimer's token account,
/// the vault authority's token account, the draw result account derived
/// under the no-loss lottery program from `"draw_result"`, the draw number
/// and the lottery, the lottery (written to) and the token program.
pub proof fn lemma_claim_instruction_layout(claimer: Seq<u8>, mint: Seq<u8>, lottery: Seq<u8>, draw_number: u64)
    ensures
        ({
            let ix = claim_instruction(claimer, mint, lottery, draw_number);
            let draw = spec_u64_to_le_bytes(draw_number);
            let signer = program_address(seq![98u8, 111, 110, 117, 115, 95, 112, 114, 105, 122, 101], lottery, draw, ID@).unwrap().0;
            &&& ix.program_id == ID@
            &&& ix.data == draw
            &&& ix.accounts.len() == 8
            &&& ix.accounts[0] == meta_view(claimer, true, true)
            &&& ix.accounts[1] == meta_view(signer, false, false)
            &&& ix.accounts[2] == meta_view(mint, false, false)
            &&& ix.accounts[3] == meta_view(program_address(claimer, token_program_key(), mint, associated_token_program_key()).unwrap().0, false, true)
            &&& ix.accounts[4] == meta_view(program_address(signer, token_program_key(), mint, associated_token_program_key()).unwrap().0, false, true)
            &&& ix.accounts[5] == meta_view(program_address(
                seq![100u8, 114, 97, 119, 95, 114, 101, 115, 117, 108, 116], draw, lottery, NO_LOSS_LOTTERY_ID@).unwrap().0, false, false)
            &&& ix.accounts[6] == meta_view(lottery, false, true)
            &&& ix.accounts[7] == meta_view(token_program_key(), false, false)
        }),
{
    crate::utils::pdas::lemma_bonus_prize_address_seeds(draw_number, lottery, ID@);
    crate::utils::pdas::lemma_draw_result_address_seeds(draw_number, lottery);
}

} // verus!

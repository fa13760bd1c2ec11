//! The instructions that register and send out a draw's prizes, with their
//! wire encoding, and the client helpers that build them.
use vstd::prelude::*;
use vstd::bytes::{spec_u64_from_le_bytes, spec_u64_to_le_bytes, u64_from_le_bytes, u64_to_le_bytes};
use crate::utils::constants::{associated_token_program_key, token_program_key, BONUS_PRIZE, ID, SYSTEM_PROGRAM_ID};
use crate::instruction::{lemma_metas_view_push, meta_view, metas_view, AccountMeta, AccountMetaView, Instruction, InstructionView};
use crate::utils::pdas::{associated_token_address, associated_token_address_exists, bonus_prize_address, find_bonus_prize_address, get_prize_mints};
use crate::sdk::{get_associated_token_address, program_address, token_program_id};

verus! {

broadcast use vstd::array::group_array_axioms;

/// The prize instructions. On the wire an instruction is its variant's index
/// as one byte, then its fields in order, integers in little-endian order.
#[derive(Clone, Copy, Debug, PartialEq, Eq, Structural)]
pub enum Instructions {
    AddPrizes { number_of_prizes: u8, draw_number: u64 },
    SendPrizes { draw_number: u64 },
}

impl Instructions {
    /// The encoding of the instruction.
    pub open spec fn spec_to_bytes(self) -> Seq<u8> {
        match self {
            Instructions::AddPrizes { number_of_prizes, draw_number } =>
                seq![0u8, number_of_prizes] + spec_u64_to_le_bytes(draw_number),
            Instructions::SendPrizes { draw_number } =>
                seq![1u8] + spec_u64_to_le_bytes(draw_number),
        }
    }

    /// The instruction `data` encodes, if it encodes one and holds nothing more.
    pub open spec fn spec_from_bytes(data: Seq<u8>) -> Option<Instructions> {
        if data.len() == 10 && data[0] == 0 {
            Some(Instructions::AddPrizes {
                number_of_prizes: data[1],
                draw_number: spec_u64_from_le_bytes(data.subrange(2, 10)),
            })
        } else if data.len() == 9 && data[0] == 1 {
            Some(Instructions::SendPrizes { draw_number: spec_u64_from_le_bytes(data.subrange(1, 9)) })
        } else {
            None
        }
    }

    /// Encodes the instruction.
    pub fn to_bytes(&self) -> (r: Vec<u8>)
        ensures
            r@ == self.spec_to_bytes(),
    {
        let mut out: Vec<u8> = Vec::new();
        match self {
            Instructions::AddPrizes { number_of_prizes, draw_number } => {
                out.push(0u8);
                out.push(*number_of_prizes);
                let mut tail = u64_to_le_bytes(*draw_number);
                out.append(&mut tail);
            },
            Instructions::SendPrizes { draw_number } => {
                out.push(1u8);
                let mut tail = u64_to_le_bytes(*draw_number);
                out.append(&mut tail);
            },
        }
        assert(out@ =~= self.spec_to_bytes());
        out
    }

    /// Decodes an instruction, refusing data with an unknown variant, too few
    /// bytes, or bytes left over.
    pub fn from_bytes(data: &[u8]) -> (r: Option<Instructions>)
        ensures
            r == Instructions::spec_from_bytes(data@),
    {
        let len = data.len();
        if len == 10 && data[0] == 0 {
            let draw_number = u64_from_le_bytes(&data[2..10]);
            Some(Instructions::AddPrizes { number_of_prizes: data[1], draw_number })
        } else if len == 9 && data[0] == 1 {
            let draw_number = u64_from_le_bytes(&data[1..9]);
            Some(Instructions::SendPrizes { draw_number })
        } else {
            None
        }
    }
}

/// Decoding an encoded instruction gives the instruction back.
pub proof fn lemma_instructions_decode_encode(ix: Instructions)
    ensures
        Instructions::spec_from_bytes(ix.spec_to_bytes()) == Some(ix),
{
    vstd::bytes::lemma_auto_spec_u64_to_from_le_bytes();
    let b = ix.spec_to_bytes();
    match ix {
        Instructions::AddPrizes { number_of_prizes, draw_number } => {
            assert(b.subrange(2, 10) =~= spec_u64_to_le_bytes(draw_number));
        },
        Instructions::SendPrizes { draw_number } => {
            assert(b.subrange(1, 9) =~= spec_u64_to_le_bytes(draw_number));
        },
    }
}

/// Data that decodes to an instruction is that instruction's encoding: no
/// two byte strings decode to the same instruction.
pub proof fn lemma_instructions_encode_decode(data: Seq<u8>)
    requires
        Instructions::spec_from_bytes(data) is Some,
    ensures
        Instructions::spec_from_bytes(data).unwrap().spec_to_bytes() == data,
{
    vstd::bytes::lemma_auto_spec_u64_to_from_le_bytes();
    if data[0] == 0 {
        let tail = data.subrange(2, 10);
        assert(spec_u64_to_le_bytes(spec_u64_from_le_bytes(tail)) == tail);
        assert(data =~= seq![0u8, data[1]] + tail);
    } else {
        let tail = data.subrange(1, 9);
        assert(spec_u64_to_le_bytes(spec_u64_from_le_bytes(tail)) == tail);
        assert(data =~= seq![1u8] + tail);
    }
}

/// Whether every address a send-prizes instruction names can be derived: the
/// draw's prize mints account, and for each mint the token accounts of that
/// account and of the payer.
pub open spec fn send_prizes_addresses_exist(draw_number: u64, lottery: Seq<u8>, payer: Seq<u8>, mints: Seq<[u8; 32]>) -> bool {
    &&& bonus_prize_address(draw_number, lottery, ID@) is Some
    &&& forall|i: int| 0 <= i < mints.len() ==> {
        &&& associated_token_address(bonus_prize_address(draw_number, lottery, ID@).unwrap().0, #[trigger] mints[i]@) is Some
        &&& associated_token_address(payer, mints[i]@) is Some
    }
}

/// For each mint, the prize vault's token account and then the payer's, both
/// written to.
pub open spec fn prize_token_accounts(vault: Seq<u8>, payer: Seq<u8>, mints: Seq<[u8; 32]>) -> Seq<AccountMetaView> {
    Seq::new(
        2 * mints.len(),
        |k: int|
            if k % 2 == 0 {
                meta_view(associated_token_address(vault, mints[k / 2]@).unwrap().0, false, true)
            } else {
                meta_view(associated_token_address(payer, mints[k / 2]@).unwrap().0, false, true)
            },
    )
}

/// The instruction that sends a draw's prizes: the payer signing, the prize
/// mints account, the lottery and the token program, then the token account
/// pairs of [`prize_token_accounts`]; its data encodes `SendPrizes`.
pub open spec fn send_prizes_instruction(
    program_id: Seq<u8>,
    draw_number: u64,
    lottery: Seq<u8>,
    payer: Seq<u8>,
    mints: Seq<[u8; 32]>,
) -> InstructionView {
    let vault = bonus_prize_address(draw_number, lottery, ID@).unwrap().0;
    InstructionView {
        program_id,
        accounts: seq![
            meta_view(payer, true, true),
            meta_view(vault, false, true),
            meta_view(lottery, false, true),
            meta_view(token_program_key(), false, true),
        ] + prize_token_accounts(vault, payer, mints),
        data: Instructions::SendPrizes { draw_number }.spec_to_bytes(),
    }
}

/// Builds the instruction that sends the prizes of draw `draw_number`, paid
/// in the tokens of `mints`, from the draw's vault to `payer`.
pub fn send_prizes(
    program_id: &[u8; 32],
    draw_number: u64,
    lottery_account: [u8; 32],
    payer: [u8; 32],
    mints: Vec<[u8; 32]>,
) -> (r: Instruction)
    requires
        send_prizes_addresses_exist(draw_number, lottery_account@, payer@, mints@),
        4 + 2 * mints@.len() <= usize::MAX,
    ensures
        r@ == send_prizes_instruction(program_id@, draw_number, lottery_account@, payer@, mints@),
        r.program_id@ == program_id@,
        r.accounts@.len() == 4 + 2 * mints@.len(),
        r.accounts@[0]@ == meta_view(payer@, true, true),
        r.accounts@[1]@ == meta_view(program_address(BONUS_PRIZE@, lottery_account@, spec_u64_to_le_bytes(draw_number), ID@).unwrap().0, false, true),
        r.accounts@[2]@ == meta_view(lottery_account@, false, true),
        r.accounts@[3]@ == meta_view(token_program_key(), false, true),
        forall|i: int| 0 <= i < mints@.len() ==> {
            let vault = program_address(BONUS_PRIZE@, lottery_account@, spec_u64_to_le_bytes(draw_number), ID@).unwrap().0;
            &&& (#[trigger] r.accounts@[4 + 2 * i])@ == meta_view(
                program_address(vault, token_program_key(), mints@[i]@, associated_token_program_key()).unwrap().0, false, true)
            &&& r.accounts@[5 + 2 * i]@ == meta_view(
                program_address(payer@, token_program_key(), mints@[i]@, associated_token_program_key()).unwrap().0, false, true)
        },
        r.data@ == seq![1u8] + spec_u64_to_le_bytes(draw_number),
{
    let data = Instructions::SendPrizes { draw_number }.to_bytes();
    let prize_mints_address = get_prize_mints(draw_number, lottery_account);
    let ghost target = send_prizes_instruction(program_id@, draw_number, lottery_account@, payer@, mints@).accounts;
    let mut accounts: Vec<AccountMeta> = Vec::new();
    accounts.push(AccountMeta::new(payer, true));
    accounts.push(AccountMeta::new(prize_mints_address, false));
    accounts.push(AccountMeta::new(lottery_account, false));
    accounts.push(AccountMeta::new(token_program_id(), false));
    assert(metas_view(accounts@) =~= target.take(4));
    let n = mints.len();
    let mut i: usize = 0;
    while i < n
        invariant
            i <= n,
            n == mints@.len(),
            4 + 2 * n <= usize::MAX,
            prize_mints_address@ == bonus_prize_address(draw_number, lottery_account@, ID@).unwrap().0,
            send_prizes_addresses_exist(draw_number, lottery_account@, payer@, mints@),
            target == send_prizes_instruction(program_id@, draw_number, lottery_account@, payer@, mints@).accounts,
            metas_view(accounts@) == target.take(4 + 2 * i),
        decreases n - i,
    {
        let mint = mints[i];
        assert(mints@[i as int] == mint);
        let vault_ata = get_associated_token_address(&prize_mints_address, &mint);
        let payer_ata = get_associated_token_address(&payer, &mint);
        let ghost prev = accounts@;
        let vault_meta = AccountMeta::new(vault_ata, false);
        let payer_meta = AccountMeta::new(payer_ata, false);
        accounts.push(vault_meta);
        accounts.push(payer_meta);
        proof {
            let pairs = prize_token_accounts(prize_mints_address@, payer@, mints@);
            assert(pairs[2 * i as int] == meta_view(vault_ata@, false, true));
            assert(pairs[2 * i + 1] == meta_view(payer_ata@, false, true));
            assert(target[4 + 2 * i] == pairs[2 * i as int]);
            assert(target[4 + 2 * i + 1] == pairs[2 * i + 1]);
            assert(accounts@ == prev.push(vault_meta).push(payer_meta));
            lemma_metas_view_push(prev, vault_meta);
            lemma_metas_view_push(prev.push(vault_meta), payer_meta);
            assert(target.take(4 + 2 * i + 2) =~= target.take(4 + 2 * i).push(target[4 + 2 * i]).push(target[4 + 2 * i + 1]));
        }
        i = i + 1;
        assert(metas_view(accounts@) =~= target.take(4 + 2 * i));
    }
    assert(target.take(4 + 2 * n) =~= target);
    let r = Instruction { program_id: *program_id, accounts, data };
    proof {
        lemma_send_prizes_layout(program_id@, draw_number, lottery_account@, payer@, mints@);
        assert forall|k: int| 0 <= k < r.accounts@.len() implies (#[trigger] r.accounts@[k])@ == r@.accounts[k] by {}
        assert forall|i: int| 0 <= i < mints@.len() implies (#[trigger] mints@[i]) == mints@[i] && r.accounts@[5 + 2 * i]@ == r@.accounts[5 + 2 * i] by {}
    }
    r
}

/// Builds the send-prizes instruction where every address it names can be
/// derived, and returns `None` where one cannot be, the case in which
/// [`send_prizes`] would panic.
pub fn checked_send_prizes(
    program_id: &[u8; 32],
    draw_number: u64,
    lottery_account: [u8; 32],
    payer: [u8; 32],
    mints: Vec<[u8; 32]>,
) -> (r: Option<Instruction>)
    requires
        4 + 2 * mints@.len() <= usize::MAX,
    ensures
        match r {
            Some(ix) => send_prizes_addresses_exist(draw_number, lottery_account@, payer@, mints@)
                && ix@ == send_prizes_instruction(program_id@, draw_number, lottery_account@, payer@, mints@),
            None => !send_prizes_addresses_exist(draw_number, lottery_account@, payer@, mints@),
        },
{
    let vault = match find_bonus_prize_address(draw_number, &lottery_account, &ID) {
        Some(found) => found.0,
        None => return None,
    };
    let n = mints.len();
    let mut i: usize = 0;
    while i < n
        invariant
            i <= n,
            n == mints@.len(),
            bonus_prize_address(draw_number, lottery_account@, ID@) == Some((vault@, bonus_prize_address(draw_number, lottery_account@, ID@).unwrap().1)),
            forall|j: int| 0 <= j < i ==> {
                &&& associated_token_address(vault@, #[trigger] mints@[j]@) is Some
                &&& associated_token_address(payer@, mints@[j]@) is Some
            },
        decreases n - i,
    {
        let mint = mints[i];
        if !associated_token_address_exists(&vault, &mint) || !associated_token_address_exists(&payer, &mint) {
            return None;
        }
        i = i + 1;
    }
    Some(send_prizes(program_id, draw_number, lottery_account, payer, mints))
}

/// The instruction that registers a draw's prizes: the payer signing, the
/// prize mints account, the lottery and the system program, then each mint
/// read-only; its data encodes `AddPrizes` with the number of mints cut to
/// one byte.
pub open spec fn add_prizes_instruction(
    program_id: Seq<u8>,
    draw_number: u64,
    lottery: Seq<u8>,
    prize_mints: Seq<[u8; 32]>,
    payer: Seq<u8>,
) -> InstructionView {
    InstructionView {
        program_id,
        accounts: seq![
            meta_view(payer, true, true),
            meta_view(bonus_prize_address(draw_number, lottery, ID@).unwrap().0, false, true),
            meta_view(lottery, false, true),
            meta_view(SYSTEM_PROGRAM_ID@, false, false),
        ] + prize_mints.map_values(|m: [u8; 32]| meta_view(m@, false, false)),
        data: Instructions::AddPrizes {
            number_of_prizes: prize_mints.len() as u8,
            draw_number,
        }.spec_to_bytes(),
    }
}

/// Builds the instruction that registers `prize_mints` as the prizes of draw
/// `draw_number`, funded by `payer`.
pub fn create_add_prizes_instruction(
    program_id: &[u8; 32],
    draw_number: u64,
    lottery_account: [u8; 32],
    prize_mints: Vec<[u8; 32]>,
    payer: [u8; 32],
) -> (r: Instruction)
    requires
        bonus_prize_address(draw_number, lottery_account@, ID@) is Some,
    ensures
        r@ == add_prizes_instruction(program_id@, draw_number, lottery_account@, prize_mints@, payer@),
        r.program_id@ == program_id@,
        r.accounts@.len() == 4 + prize_mints@.len(),
        r.accounts@[0]@ == meta_view(payer@, true, true),
        r.accounts@[1]@ == meta_view(program_address(BONUS_PRIZE@, lottery_account@, spec_u64_to_le_bytes(draw_number), ID@).unwrap().0, false, true),
        r.accounts@[2]@ == meta_view(lottery_account@, false, true),
        r.accounts@[3]@ == meta_view(SYSTEM_PROGRAM_ID@, false, false),
        forall|i: int| 0 <= i < prize_mints@.len() ==> (#[trigger] r.accounts@[4 + i])@ == meta_view(prize_mints@[i]@, false, false),
        r.data@ == seq![0u8, prize_mints@.len() as u8] + spec_u64_to_le_bytes(draw_number),
{
    let number_of_prizes = #[verifier::truncate] (prize_mints.len() as u8);
    let data = Instructions::AddPrizes { number_of_prizes, draw_number }.to_bytes();
    let prize_mints_account = get_prize_mints(draw_number, lottery_account);
    let ghost target = add_prizes_instruction(program_id@, draw_number, lottery_account@, prize_mints@, payer@).accounts;
    let mut accounts: Vec<AccountMeta> = Vec::new();
    accounts.push(AccountMeta::new(payer, true));
    accounts.push(AccountMeta::new(prize_mints_account, false));
    accounts.push(AccountMeta::new(lottery_account, false));
    accounts.push(AccountMeta::new_readonly(SYSTEM_PROGRAM_ID, false));
    assert(metas_view(accounts@) =~= target.take(4));
    let n = prize_mints.len();
    let mut i: usize = 0;
    while i < n
        invariant
            i <= n,
            n == prize_mints@.len(),
            target == add_prizes_instruction(program_id@, draw_number, lottery_account@, prize_mints@, payer@).accounts,
            metas_view(accounts@) == target.take(4 + i),
        decreases n - i,
    {
        let mint = prize_mints[i];
        let ghost prev = accounts@;
        let meta = AccountMeta::new_readonly(mint, false);
        accounts.push(meta);
        proof {
            lemma_metas_view_push(prev, meta);
            assert(target.take(4 + i + 1) =~= target.take(4 + i).push(target[4 + i]));
            let tail = prize_mints@.map_values(|m: [u8; 32]| meta_view(m@, false, false));
            assert(tail[i as int] == meta_view(mint@, false, false));
            assert(target[4 + i] == tail[i as int]);
        }
        i = i + 1;
        assert(metas_view(accounts@) =~= target.take(4 + i));
    }
    assert(target.take(4 + n) =~= target);
    let r = Instruction { program_id: *program_id, accounts, data };
    proof {
        lemma_add_prizes_layout(program_id@, draw_number, lottery_account@, prize_mints@, payer@);
        assert forall|k: int| 0 <= k < r.accounts@.len() implies (#[trigger] r.accounts@[k])@ == r@.accounts[k] by {}
    }
    r
}

/// Builds the add-prizes instruction where the prize mints account can be
/// derived, and returns `None` where it cannot be, the case in which
/// [`create_add_prizes_instruction`] would panic.
pub fn checked_create_add_prizes_instruction(
    program_id: &[u8; 32],
    draw_number: u64,
    lottery_account: [u8; 32],
    prize_mints: Vec<[u8; 32]>,
    payer: [u8; 32],
) -> (r: Option<Instruction>)
    ensures
        match r {
            Some(ix) => bonus_prize_address(draw_number, lottery_account@, ID@) is Some
                && ix@ == add_prizes_instruction(program_id@, draw_number, lottery_account@, prize_mints@, payer@),
            None => bonus_prize_address(draw_number, lottery_account@, ID@) is None,
        },
{
    if find_bonus_prize_address(draw_number, &lottery_account, &ID).is_none() {
        return None;
    }
    Some(create_add_prizes_instruction(program_id, draw_number, lottery_account, prize_mints, payer))
}

/// The wire format of the prize instructions: `AddPrizes` is the byte 0,
/// the number of prizes, then the draw number in eight little-endian bytes;
/// `SendPrizes` is the byte 1 then the draw number in eight little-endian
/// bytes.
pub proof fn lemma_instructions_wire_format(number_of_prizes: u8, draw_number: u64)
    ensures
        (Instructions::AddPrizes { number_of_prizes, draw_number }).spec_to_bytes()
            == seq![0u8, number_of_prizes] + spec_u64_to_le_bytes(draw_number),
        (Instructions::SendPrizes { draw_number }).spec_to_bytes() == seq![1u8] + spec_u64_to_le_bytes(draw_number),
        spec_u64_to_le_bytes(draw_number).len() == 8,
{
    vstd::bytes::lemma_auto_spec_u64_to_from_le_bytes();
}

/// The send-prizes instruction names, in order: the payer (signing), the
/// draw's prize mints account, the lottery passed in and the token program,
/// all written to, then for each mint in order the prize mints account's
/// token account and the payer's token account for it; it is addressed to
/// the program passed in and carries the byte 1 and the draw number.
pub proof fn lemma_send_prizes_layout(
    program_id: Seq<u8>,
    draw_number: u64,
    lottery: Seq<u8>,
    payer: Seq<u8>,
    mints: Seq<[u8; 32]>,
)
    ensures
        ({
            let ix = send_prizes_instruction(program_id, draw_number, lottery, payer, mints);
            let vault = program_address(BONUS_PRIZE@, lottery, spec_u64_to_le_bytes(draw_number), ID@).unwrap().0;
            &&& ix.program_id == program_id
            &&& ix.accounts.len() == 4 + 2 * mints.len()
            &&& ix.accounts[0] == meta_view(payer, true, true)
            &&& ix.accounts[1] == meta_view(vault, false, true)
            &&& ix.accounts[2] == meta_view(lottery, false, true)
            &&& ix.accounts[3] == meta_view(token_program_key(), false, true)
            &&& forall|i: int| 0 <= i < mints.len() ==> {
                &&& #[trigger] ix.accounts[4 + 2 * i] == meta_view(
                    program_address(vault, token_program_key(), mints[i]@, associated_token_program_key()).unwrap().0, false, true)
                &&& ix.accounts[5 + 2 * i] == meta_view(
                    program_address(payer, token_program_key(), mints[i]@, associated_token_program_key()).unwrap().0, false, true)
            }
            &&& ix.data == seq![1u8] + spec_u64_to_le_bytes(draw_number)
        }),
{
    lemma_instructions_wire_format(0, draw_number);
    let ix = send_prizes_instruction(program_id, draw_number, lottery, payer, mints);
    let vault = bonus_prize_address(draw_number, lottery, ID@).unwrap().0;
    let pairs = prize_token_accounts(vault, payer, mints);
    assert forall|i: int| 0 <= i < mints.len() implies {
        &&& #[trigger] ix.accounts[4 + 2 * i] == meta_view(
            program_address(vault, token_program_key(), mints[i]@, associated_token_program_key()).unwrap().0, false, true)
        &&& ix.accounts[5 + 2 * i] == meta_view(
            program_address(payer, token_program_key(), mints[i]@, associated_token_program_key()).unwrap().0, false, true)
    } by {
        assert(ix.accounts[4 + 2 * i] == pairs[2 * i]);
        assert(ix.accounts[5 + 2 * i] == pairs[2 * i + 1]);
        assert((2 * i) / 2 == i);
        assert((2 * i + 1) / 2 == i);
        assert((2 * i) % 2 == 0);
        assert((2 * i + 1) % 2 == 1);
    }
}

/// The add-prizes instruction names, in order: the payer (signing), the
/// draw's prize mints account and the lottery passed in, written to, the
/// system program, then each mint in order, read-only; it is addressed to
/// the program passed in and carries the byte 0, the number of mints cut to
/// one byte, and the draw number.
pub proof fn lemma_add_prizes_layout(
    program_id: Seq<u8>,
    draw_number: u64,
    lottery: Seq<u8>,
    prize_mints: Seq<[u8; 32]>,
    payer: Seq<u8>,
)
    ensures
        ({
            let ix = add_prizes_instruction(program_id, draw_number, lottery, prize_mints, payer);
            &&& ix.program_id == program_id
            &&& ix.accounts.len() == 4 + prize_mints.len()
            &&& ix.accounts[0] == meta_view(payer, true, true)
            &&& ix.accounts[1] == meta_view(
                program_address(BONUS_PRIZE@, lottery, spec_u64_to_le_bytes(draw_number), ID@).unwrap().0, false, true)
            &&& ix.accounts[2] == meta_view(lottery, false, true)
            &&& ix.accounts[3] == meta_view(SYSTEM_PROGRAM_ID@, false, false)
            &&& forall|i: int| 0 <= i < prize_mints.len() ==> #[trigger] ix.accounts[4 + i] == meta_view(prize_mints[i]@, false, false)
            &&& ix.data == seq![0u8, prize_mints.len() as u8] + spec_u64_to_le_bytes(draw_number)
        }),
{
    lemma_instructions_wire_format(prize_mints.len() as u8, draw_number);
}

} // verus!

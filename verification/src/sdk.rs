//! The calls this library makes into the Solana SDK and the SPL token
//! programs' client crates. Each item here is trusted: its contract restates
//! what the called code does, and is not proved.
use vstd::prelude::*;
use vstd::bytes::spec_u64_to_le_bytes;
use vstd::bytes::spec_u64_from_le_bytes;
use solana_program::program_error::ProgramError;
use solana_program::program_pack::Pack;
use solana_program::pubkey::Pubkey;
use crate::utils::constants::{associated_token_program_key, token_program_key};
use crate::error::ClaimError;
use crate::instruction::{meta_view, AccountMeta, Instruction, InstructionView};

verus! {

/// The program derived address and bump seed that
/// `Pubkey::try_find_program_address` finds for three seeds and a program,
/// `None` where it finds none. It is a function of these bytes alone: the
/// search hashes them with each bump seed from 255 down.
pub uninterp spec fn program_address(
    seed0: Seq<u8>,
    seed1: Seq<u8>,
    seed2: Seq<u8>,
    program_id: Seq<u8>,
) -> Option<(Seq<u8>, u8)>;

/// Calls `solana_program::pubkey::Pubkey::try_find_program_address` on the
/// seeds `[seed0, seed1, seed2]` and the program; its result is
/// [`program_address`] of the same bytes.
#[verifier::external_body]
pub(crate) fn try_find_program_address(
    seed0: &[u8],
    seed1: &[u8],
    seed2: &[u8],
    program_id: &[u8; 32],
) -> (r: Option<([u8; 32], u8)>)
    ensures
        program_address(seed0@, seed1@, seed2@, program_id@) == match r {
            Some(found) => Some((found.0@, found.1)),
            None => None::<(Seq<u8>, u8)>,
        },
{
    let program = Pubkey::new_from_array(*program_id);
    match Pubkey::try_find_program_address(&[seed0, seed1, seed2], &program) {
        Some((key, bump)) => Some((key.to_bytes(), bump)),
        None => None,
    }
}

/// Calls `spl_associated_token_account::get_associated_token_address`. Its
/// source derives the address with `Pubkey::find_program_address` from the
/// seeds `[wallet, token program, mint]` under the associated token account
/// program, and panics where that search finds nothing; so the contract
/// asks that [`program_address`] finds one and says the result is its address.
#[verifier::external_body]
pub(crate) fn get_associated_token_address(wallet: &[u8; 32], mint: &[u8; 32]) -> (r: [u8; 32])
    requires
        program_address(wallet@, token_program_key(), mint@, associated_token_program_key()) is Some,
    ensures
        r@ == program_address(
            wallet@,
            token_program_key(),
            mint@,
            associated_token_program_key(),
        ).unwrap().0,
{
    let wallet = Pubkey::new_from_array(*wallet);
    let mint = Pubkey::new_from_array(*mint);
    spl_associated_token_account::get_associated_token_address(&wallet, &mint).to_bytes()
}

/// Calls `spl_token::id()`, the address the token program is declared at.
#[verifier::external_body]
pub(crate) fn token_program_id() -> (r: [u8; 32])
    ensures
        r@ == token_program_key(),
{
    spl_token::id().to_bytes()
}

/// Calls `spl_associated_token_account::id()`, the address the associated
/// token account program is declared at.
#[verifier::external_body]
pub(crate) fn associated_token_program_id() -> (r: [u8; 32])
    ensures
        r@ == associated_token_program_key(),
{
    spl_associated_token_account::id().to_bytes()
}

/// Whether the four bytes at `at` are the tag of an optional value that the
/// token program accepts: `[0, 0, 0, 0]` for none, `[1, 0, 0, 0]` for some.
pub open spec fn option_tag_valid(data: Seq<u8>, at: int) -> bool {
    &&& data[at] == 0 || data[at] == 1
    &&& data[at + 1] == 0
    &&& data[at + 2] == 0
    &&& data[at + 3] == 0
}

/// What unpacking a token account yields of `data`: the token account is 165
/// bytes long with three optional fields (delegate at 72, native amount at
/// 109, close authority at 129) and a state byte at 108 that is 0 while the
/// account is uninitialized and at most 2; its amount is the little-endian
/// integer at bytes 64 to 72.
pub open spec fn token_account_amount(data: Seq<u8>) -> Result<u64, ClaimError> {
    if data.len() != 165 || !option_tag_valid(data, 72) || data[108] > 2
        || !option_tag_valid(data, 109) || !option_tag_valid(data, 129) {
        Err(ClaimError::InvalidAccountData)
    } else if data[108] == 0 {
        Err(ClaimError::UninitializedAccount)
    } else {
        Ok(spec_u64_from_le_bytes(data.subrange(64, 72)))
    }
}

/// Calls `spl_token::state::Account::unpack` on the bytes of an account and
/// keeps the amount of tokens it holds. The contract restates the source:
/// `unpack` fails with `InvalidAccountData` unless the length is 165 and the
/// optional-field tags and the state byte are valid, then with
/// `UninitializedAccount` where the state byte is 0.
#[verifier::external_body]
pub(crate) fn unpack_token_account_amount(data: &[u8]) -> (r: Result<u64, ClaimError>)
    ensures
        r == token_account_amount(data@),
{
    match spl_token::state::Account::unpack(data) {
        Ok(account) => Ok(account.amount),
        Err(ProgramError::UninitializedAccount) => Err(ClaimError::UninitializedAccount),
        Err(_) => Err(ClaimError::InvalidAccountData),
    }
}

/// The token transfer instruction `spl_token::instruction::transfer` builds
/// for a single authority that signs: it fails with `IncorrectProgramId`
/// unless `token_program` is the token program, and otherwise calls it with
/// the source and destination writable, the authority read-only and signing,
/// and the data `3` followed by the amount in little-endian order.
pub open spec fn transfer_instruction(
    token_program: Seq<u8>,
    source: Seq<u8>,
    destination: Seq<u8>,
    authority: Seq<u8>,
    amount: u64,
) -> Result<InstructionView, ClaimError> {
    if token_program != token_program_key() {
        Err(ClaimError::IncorrectProgramId)
    } else {
        Ok(
            InstructionView {
                program_id: token_program,
                accounts: seq![
                    meta_view(source, false, true),
                    meta_view(destination, false, true),
                    meta_view(authority, true, false),
                ],
                data: seq![3u8] + spec_u64_to_le_bytes(amount),
            },
        )
    }
}

/// Calls `spl_token::instruction::transfer` with no extra signers and turns
/// the instruction it builds into this library's [`Instruction`].
#[verifier::external_body]
pub(crate) fn token_transfer(
    token_program: &[u8; 32],
    source: &[u8; 32],
    destination: &[u8; 32],
    authority: &[u8; 32],
    amount: u64,
) -> (r: Result<Instruction, ClaimError>)
    ensures
        transfer_instruction(token_program@, source@, destination@, authority@, amount) == match r {
            Ok(ix) => Ok(ix@),
            Err(e) => Err::<InstructionView, ClaimError>(e),
        },
{
    let key = |k: &[u8; 32]| Pubkey::new_from_array(*k);
    match spl_token::instruction::transfer(&key(token_program), &key(source), &key(destination), &key(authority), &[], amount) {
        Ok(ix) => Ok(Instruction {
            program_id: ix.program_id.to_bytes(),
            accounts: ix.accounts.iter().map(|m| AccountMeta { pubkey: m.pubkey.to_bytes(), is_signer: m.is_signer, is_writable: m.is_writable }).collect(),
            data: ix.data,
        }),
        Err(_) => Err(ClaimError::IncorrectProgramId),
    }
}

} // verus!

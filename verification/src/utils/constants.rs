//! Addresses and seeds the bonus prize program is built around.
use vstd::prelude::*;

verus! {

/// Length in bytes of an account address.
pub const KEY_LEN: usize = 32;

/// The bonus prize program's own address
/// (`54oykPNNXxpXihbuU5H6j3MZmqCxaAdHALDvVYfzwnW4`).
pub const ID: [u8; 32] = [
    60, 104, 155, 217, 253, 117, 187, 179, 156, 118, 251, 161, 213, 110, 37, 145,
    7, 13, 48, 153, 136, 21, 101, 182, 161, 248, 57, 39, 76, 254, 193, 105,
];

/// The no-loss lottery program, which owns the draw result accounts
/// (`57JfdST1qV2upu9fU3E2K2GdQpzJhU36C8n61qnZrGea`).
pub const NO_LOSS_LOTTERY_ID: [u8; 32] = [
    61, 12, 53, 35, 157, 168, 164, 140, 86, 127, 101, 124, 154, 147, 195, 221,
    201, 65, 131, 95, 66, 198, 57, 149, 196, 46, 54, 180, 218, 9, 5, 103,
];

/// The lottery account whose draws carry bonus prizes
/// (`2pqqzZMoFpXem9tVMoWCz1xfQiZp9863479ta739Dybm`).
pub const LOTTERY_ACCOUNT: [u8; 32] = [
    27, 29, 54, 189, 92, 57, 79, 99, 254, 221, 124, 127, 22, 155, 156, 1,
    216, 129, 109, 49, 159, 3, 73, 248, 140, 64, 177, 149, 145, 231, 136, 96,
];

/// The system program (`11111111111111111111111111111111`).
pub const SYSTEM_PROGRAM_ID: [u8; 32] = [
    0, 0, 0, 0, 0, 0, 0, 0, 0, 0, 0, 0, 0, 0, 0, 0,
    0, 0, 0, 0, 0, 0, 0, 0, 0, 0, 0, 0, 0, 0, 0, 0,
];

/// Seed of the bonus prize vault authority: the bytes of `"bonus_prize"`.
pub const BONUS_PRIZE: [u8; 11] = [98, 111, 110, 117, 115, 95, 112, 114, 105, 122, 101];

/// Seed of a draw result account: the bytes of `"draw_result"`.
pub const DRAW_RESULT: [u8; 11] = [100, 114, 97, 119, 95, 114, 101, 115, 117, 108, 116];

/// Seed of a prize mints account: the bytes of `"prize_mints"`.
pub const PRIZE_MINTS_SEED: [u8; 11] = [112, 114, 105, 122, 101, 95, 109, 105, 110, 116, 115];

/// The eight bytes that open every draw result account.
pub const DRAW_RESULT_DISCRIMINATOR: [u8; 8] = [0x39, 0xb6, 0xbd, 0x10, 0x63, 0xe8, 0x3b, 0xf3];

/// The SPL token program (`TokenkegQfeZyiNwAJbNbGKPFXCWuBvf9Ss623VQ5DA`).
pub open spec fn token_program_key() -> Seq<u8> {
    seq![
        6u8, 221, 246, 225, 215, 101, 161, 147, 217, 203, 225, 70, 206, 235, 121, 172,
        28, 180, 133, 237, 95, 91, 55, 145, 58, 140, 245, 133, 126, 255, 0, 169,
    ]
}

/// The associated token account program
/// (`ATokenGPvbdGVxr1b2hvZbsiqW5xWH25efTNsLJA8knL`).
pub open spec fn associated_token_program_key() -> Seq<u8> {
    seq![
        140u8, 151, 37, 143, 78, 36, 137, 241, 187, 61, 16, 41, 20, 142, 13, 131,
        11, 90, 19, 153, 218, 255, 16, 132, 4, 142, 123, 216, 219, 233, 248, 89,
    ]
}

} // verus!

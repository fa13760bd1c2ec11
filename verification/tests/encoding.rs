use bonus_prize::instructions::Instructions;
use bonus_prize::nll_state::DrawResult;
use bonus_prize::state::PrizeMints;
use bonus_prize::utils::constants::DRAW_RESULT_DISCRIMINATOR;

#[test]
fn instructions_encode_as_borsh() {
    let add = Instructions::AddPrizes { number_of_prizes: 3, draw_number: 0x0102_0304_0506_0708 };
    assert_eq!(add.to_bytes(), borsh::to_vec(&(0u8, 3u8, 0x0102_0304_0506_0708u64)).unwrap());
    assert_eq!(add.to_bytes(), vec![0, 3, 8, 7, 6, 5, 4, 3, 2, 1]);
    let send = Instructions::SendPrizes { draw_number: 4 };
    assert_eq!(send.to_bytes(), borsh::to_vec(&(1u8, 4u64)).unwrap());
    assert_eq!(send.to_bytes(), vec![1, 4, 0, 0, 0, 0, 0, 0, 0]);
}

#[test]
fn instructions_decode_back() {
    for ix in [Instructions::AddPrizes { number_of_prizes: 200, draw_number: u64::MAX }, Instructions::SendPrizes { draw_number: 17 }] {
        assert_eq!(Instructions::from_bytes(&ix.to_bytes()), Some(ix));
    }
    assert_eq!(Instructions::from_bytes(&[]), None);
    assert_eq!(Instructions::from_bytes(&[2, 0, 0, 0, 0, 0, 0, 0, 0]), None);
    assert_eq!(Instructions::from_bytes(&[1, 0, 0, 0, 0, 0, 0, 0]), None);
    assert_eq!(Instructions::from_bytes(&[1, 0, 0, 0, 0, 0, 0, 0, 0, 0]), None);
    assert_eq!(Instructions::from_bytes(&[0, 5, 9, 0, 0, 0, 0, 0, 0, 0]), Some(Instructions::AddPrizes { number_of_prizes: 5, draw_number: 9 }));
}

#[test]
fn prize_mints_encode_as_borsh() {
    let mints = vec![[1u8; 32], [2u8; 32], [3u8; 32]];
    let list = PrizeMints { mints: mints.clone() };
    let bytes = list.to_bytes().unwrap();
    assert_eq!(bytes, borsh::to_vec(&mints).unwrap());
    assert_eq!(bytes.len(), 4 + 96);
    assert_eq!(&bytes[0..4], &[3, 0, 0, 0]);
    assert_eq!(PrizeMints::from_bytes(&bytes), Some(list));
    assert_eq!(PrizeMints { mints: Vec::new() }.to_bytes().unwrap(), vec![0, 0, 0, 0]);
}

#[test]
fn prize_mints_refuse_bad_lengths() {
    assert_eq!(PrizeMints::from_bytes(&[1, 0, 0]), None);
    let mut bytes = PrizeMints { mints: vec![[7u8; 32]] }.to_bytes().unwrap();
    bytes.push(0);
    assert_eq!(PrizeMints::from_bytes(&bytes), None);
    bytes.truncate(20);
    assert_eq!(PrizeMints::from_bytes(&bytes), None);
    assert_eq!(PrizeMints::from_bytes(&[0, 0, 0, 0]), Some(PrizeMints { mints: Vec::new() }));
}

#[test]
fn draw_result_layout() {
    let result = DrawResult {
        discriminator: DRAW_RESULT_DISCRIMINATOR,
        winner: [5u8; 32],
        draw: 4,
        timestamp: -2,
        prize: 1_000_000_000,
        version: 1,
        _reserved0: [0; 7],
        lottery_num_tickets: 10,
        winning_ticket: 7,
        winner_num_tickets: 2,
    };
    let bytes = result.to_bytes();
    assert_eq!(bytes.len(), 96);
    assert_eq!(&bytes[0..8], &DRAW_RESULT_DISCRIMINATOR);
    assert_eq!(&bytes[8..40], &[5u8; 32]);
    assert_eq!(&bytes[40..48], &4u64.to_le_bytes());
    assert_eq!(&bytes[48..56], &(-2i64).to_le_bytes());
    assert_eq!(bytes[64], 1);
    assert_eq!(&bytes[88..96], &2u64.to_le_bytes());
    assert_eq!(DrawResult::from_bytes(&bytes), result);
}

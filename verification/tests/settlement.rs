use wager_settlement::codec::{decode_request, le_u64_from_bytes};
use wager_settlement::handler::{conclude_invocation, process_instruction, settle_request};
use wager_settlement::wager::{settle, Choice, Settlement, WagerError, WagerRequest};

fn buffer(bet: u64, choice_byte: u8) -> Vec<u8> {
    let mut data: Vec<u8> = Vec::new();
    let mut v = bet;
    for _ in 0..8 {
        data.push((v & 0xff) as u8);
        v >>= 8;
    }
    data.push(choice_byte);
    data
}

#[test]
fn decodes_little_endian_bet_amount() {
    let data = vec![0x78, 0x56, 0x34, 0x12, 0, 0, 0, 0];
    assert_eq!(le_u64_from_bytes(&data), 0x12345678);
    let data = vec![0x01, 0x02, 0x03, 0x04, 0x05, 0x06, 0x07, 0x08];
    assert_eq!(le_u64_from_bytes(&data), 0x0807060504030201);
    let data = vec![0xff; 8];
    assert_eq!(le_u64_from_bytes(&data), u64::MAX);
}

#[test]
fn decodes_request_heads() {
    let data = buffer(100, 0);
    assert_eq!(
        decode_request(&data),
        Ok(WagerRequest { bet_amount: 100, choice: Choice::Heads })
    );
}

#[test]
fn decodes_request_tails_ignoring_trailing_bytes() {
    let mut data = buffer(7, 1);
    data.push(0xaa);
    data.push(0xbb);
    assert_eq!(
        decode_request(&data),
        Ok(WagerRequest { bet_amount: 7, choice: Choice::Tails })
    );
}

#[test]
fn rejects_short_buffer() {
    let data = vec![1, 2, 3, 4, 5, 6, 7];
    assert_eq!(decode_request(&data), Err(WagerError::MalformedInput));
    assert_eq!(settle_request(&data, 0), Err(WagerError::MalformedInput));
    assert_eq!(settle_request(&data, 1), Err(WagerError::MalformedInput));
}

#[test]
fn rejects_empty_buffer() {
    let data: Vec<u8> = Vec::new();
    assert_eq!(decode_request(&data), Err(WagerError::MalformedInput));
}

#[test]
fn rejects_eight_byte_buffer_missing_choice() {
    let data = vec![100, 0, 0, 0, 0, 0, 0, 0];
    assert_eq!(decode_request(&data), Err(WagerError::MalformedInput));
}

#[test]
fn rejects_invalid_choice_byte() {
    for bad in [2u8, 3, 7, 255] {
        let data = buffer(100, bad);
        assert_eq!(decode_request(&data), Err(WagerError::MalformedInput));
        assert_eq!(settle_request(&data, 0), Err(WagerError::MalformedInput));
    }
}

#[test]
fn matching_draw_pays_double() {
    let data = buffer(100, 0);
    assert_eq!(
        settle_request(&data, 0),
        Ok(Settlement::Payout { amount: 200 })
    );
}

#[test]
fn mismatched_draw_retains_wager() {
    let data = buffer(100, 0);
    assert_eq!(settle_request(&data, 1), Ok(Settlement::Retained));
}

#[test]
fn tails_wins_against_tails_draw() {
    let data = buffer(33, 1);
    assert_eq!(
        settle_request(&data, 1),
        Ok(Settlement::Payout { amount: 66 })
    );
    assert_eq!(settle_request(&data, 0), Ok(Settlement::Retained));
}

#[test]
fn largest_payable_bet_doubles() {
    let bet = u64::MAX / 2;
    let data = buffer(bet, 1);
    assert_eq!(
        settle_request(&data, 1),
        Ok(Settlement::Payout { amount: u64::MAX - 1 })
    );
}

#[test]
fn overflowing_bet_fails_whatever_the_draw() {
    let data = buffer(u64::MAX, 1);
    assert_eq!(settle_request(&data, 0), Err(WagerError::ArithmeticOverflow));
    assert_eq!(settle_request(&data, 1), Err(WagerError::ArithmeticOverflow));
    let data = buffer(u64::MAX / 2 + 1, 0);
    assert_eq!(settle_request(&data, 0), Err(WagerError::ArithmeticOverflow));
}

#[test]
fn settle_decides_from_request_and_outcome() {
    let req = WagerRequest { bet_amount: 5, choice: Choice::Heads };
    assert_eq!(
        settle(&req, Choice::Heads),
        Ok(Settlement::Payout { amount: 10 })
    );
    assert_eq!(settle(&req, Choice::Tails), Ok(Settlement::Retained));
    let big = WagerRequest { bet_amount: u64::MAX, choice: Choice::Tails };
    assert_eq!(settle(&big, Choice::Tails), Err(WagerError::ArithmeticOverflow));
}

#[test]
fn process_instruction_settles_valid_request_either_way() {
    let data = buffer(100, 0);
    let r = process_instruction(&data);
    assert!(
        r == Ok(Settlement::Payout { amount: 200 }) || r == Ok(Settlement::Retained),
        "unexpected settlement: {:?}",
        r
    );
}

#[test]
fn process_instruction_rejects_malformed_input_deterministically() {
    let data = vec![9, 9, 9];
    for _ in 0..32 {
        assert_eq!(process_instruction(&data), Err(WagerError::MalformedInput));
    }
    let bad_choice = buffer(1, 2);
    for _ in 0..32 {
        assert_eq!(
            process_instruction(&bad_choice),
            Err(WagerError::MalformedInput)
        );
    }
}

#[test]
fn process_instruction_rejects_overflow_deterministically() {
    let data = buffer(u64::MAX, 1);
    for _ in 0..32 {
        assert_eq!(
            process_instruction(&data),
            Err(WagerError::ArithmeticOverflow)
        );
    }
}

#[test]
fn conclude_invocation_reports_transfer_result() {
    let payout = Settlement::Payout { amount: 200 };
    assert_eq!(conclude_invocation(payout, true), Ok(()));
    assert_eq!(
        conclude_invocation(payout, false),
        Err(WagerError::TransferFailure)
    );
    assert_eq!(conclude_invocation(Settlement::Retained, true), Ok(()));
    assert_eq!(conclude_invocation(Settlement::Retained, false), Ok(()));
}

//! Wire format of a wager instruction: bytes 0..8 are a little-endian
//! unsigned 64-bit bet amount, byte 8 selects the choice (0 = heads,
//! 1 = tails), and everything past byte 8 is ignored.

use vstd::prelude::*;

use crate::wager::{Choice, WagerError, WagerRequest};

verus! {

/// The value of the first eight bytes of `s` read as a little-endian
/// unsigned 64-bit integer.
pub open spec fn le_bytes_to_u64(s: Seq<u8>) -> int
    recommends
        s.len() >= 8,
{
    s[0] + 256 * (s[1] + 256 * (s[2] + 256 * (s[3] + 256 * (s[4] + 256 * (s[5] + 256 * (s[6]
        + 256 * s[7]))))))
}

/// Eight little-endian bytes always fit in the unsigned 64-bit range.
pub proof fn lemma_le_bytes_to_u64_bounds(s: Seq<u8>)
    requires
        s.len() >= 8,
    ensures
        0 <= le_bytes_to_u64(s) <= u64::MAX,
{
}

/// A choice byte must name one of the two sides.
pub open spec fn choice_byte_valid(b: u8) -> bool {
    b == 0 || b == 1
}

/// The side a valid choice byte names.
pub open spec fn spec_choice_of_byte(b: u8) -> Choice
    recommends
        choice_byte_valid(b),
{
    if b == 0 {
        Choice::Heads
    } else {
        Choice::Tails
    }
}

/// A buffer decodes to a request exactly when it reaches the choice byte
/// and that byte names a side.
pub open spec fn request_well_formed(data: Seq<u8>) -> bool {
    data.len() >= 9 && choice_byte_valid(data[8])
}

/// What decoding an instruction buffer yields: the request it encodes, or
/// `MalformedInput` for a buffer that is too short or carries an invalid
/// choice byte.
pub open spec fn spec_decode(data: Seq<u8>) -> Result<WagerRequest, WagerError> {
    if request_well_formed(data) {
        Ok(
            WagerRequest {
                bet_amount: le_bytes_to_u64(data) as u64,
                choice: spec_choice_of_byte(data[8]),
            },
        )
    } else {
        Err(WagerError::MalformedInput)
    }
}

/// Read the bet amount: the first eight bytes of `data`, little-endian.
pub fn le_u64_from_bytes(data: &[u8]) -> (amount: u64)
    requires
        data@.len() >= 8,
    ensures
        amount == le_bytes_to_u64(data@),
{
    let b7: u64 = data[7] as u64;
    let b6: u64 = data[6] as u64 + 256 * b7;
    let b5: u64 = data[5] as u64 + 256 * b6;
    let b4: u64 = data[4] as u64 + 256 * b5;
    let b3: u64 = data[3] as u64 + 256 * b4;
    let b2: u64 = data[2] as u64 + 256 * b3;
    let b1: u64 = data[1] as u64 + 256 * b2;
    let b0: u64 = data[0] as u64 + 256 * b1;
    b0
}

/// Decode an instruction buffer into a wager request, rejecting a buffer
/// shorter than nine bytes or one whose choice byte is not 0 or 1.
pub fn decode_request(data: &[u8]) -> (r: Result<WagerRequest, WagerError>)
    ensures
        r == spec_decode(data@),
{
    if data.len() < 9 {
        return Err(WagerError::MalformedInput);
    }
    let choice = if data[8] == 0 {
        Choice::Heads
    } else if data[8] == 1 {
        Choice::Tails
    } else {
        return Err(WagerError::MalformedInput);
    };
    let bet_amount = le_u64_from_bytes(data);
    proof {
        lemma_le_bytes_to_u64_bounds(data@);
    }
    Ok(WagerRequest { bet_amount, choice })
}

} // verus!

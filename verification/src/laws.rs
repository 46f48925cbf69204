//! Properties of the settlement handler, proved over the same spec
//! functions that the executable functions' contracts use.

use vstd::prelude::*;

use crate::codec::{le_bytes_to_u64, lemma_le_bytes_to_u64_bounds, request_well_formed};
use crate::handler::{payout_overflows, spec_process};
use crate::wager::{Settlement, WagerError};

verus! {

/// For a well-formed request whose doubled bet fits the 64-bit range,
/// a draw that matches the chosen side settles in exactly one payout of
/// twice the bet, and any other draw settles with no payout at all.
pub proof fn lemma_settlement_decision(data: Seq<u8>, draw: u8)
    requires
        draw < 2,
        request_well_formed(data),
        !payout_overflows(data),
    ensures
        data[8] == draw ==> spec_process(data, draw) == Ok::<Settlement, WagerError>(
            Settlement::Payout { amount: (2 * le_bytes_to_u64(data)) as u64 },
        ),
        data[8] != draw ==> spec_process(data, draw) == Ok::<Settlement, WagerError>(
            Settlement::Retained,
        ),
{
    lemma_le_bytes_to_u64_bounds(data);
}

/// A buffer that ends before the choice byte is rejected as malformed,
/// whatever the draw, and nothing is paid out.
pub proof fn lemma_short_buffer_rejected(data: Seq<u8>, draw: u8)
    requires
        data.len() < 9,
    ensures
        spec_process(data, draw) == Err::<Settlement, WagerError>(WagerError::MalformedInput),
{
}

/// A choice byte that names neither side is rejected as malformed,
/// whatever the draw.
pub proof fn lemma_invalid_choice_rejected(data: Seq<u8>, draw: u8)
    requires
        data.len() >= 9,
        data[8] != 0,
        data[8] != 1,
    ensures
        spec_process(data, draw) == Err::<Settlement, WagerError>(WagerError::MalformedInput),
{
}

/// A well-formed request whose doubled bet leaves the 64-bit range is
/// rejected with an overflow failure, whatever the draw, and nothing is
/// paid out.
pub proof fn lemma_overflow_rejected(data: Seq<u8>, draw: u8)
    requires
        request_well_formed(data),
        payout_overflows(data),
    ensures
        spec_process(data, draw) == Err::<Settlement, WagerError>(WagerError::ArithmeticOverflow),
{
    lemma_le_bytes_to_u64_bounds(data);
}

/// Rejection of a malformed buffer does not depend on the randomness draw:
/// repeating the invocation on the same bytes fails the same way every time.
pub proof fn lemma_rejection_independent_of_draw(data: Seq<u8>, draw1: u8, draw2: u8)
    requires
        !request_well_formed(data),
    ensures
        spec_process(data, draw1) == spec_process(data, draw2),
        spec_process(data, draw1) == Err::<Settlement, WagerError>(WagerError::MalformedInput),
{
}

} // verus!

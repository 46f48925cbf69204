//! The settlement handler: decode one instruction buffer, draw one outcome
//! from the randomness source, and decide whether a payout is owed. The
//! host transfer primitive runs outside; its reported result is folded back
//! in by [`conclude_invocation`].

use rand::Rng;
use vstd::prelude::*;

use crate::codec::{
    choice_byte_valid, decode_request, le_bytes_to_u64, request_well_formed, spec_choice_of_byte,
    spec_decode,
};
use crate::wager::{Choice, Settlement, WagerError, settle, spec_settle};

verus! {

/// Whether paying out twice the encoded bet would leave the 64-bit range.
pub open spec fn payout_overflows(data: Seq<u8>) -> bool
    recommends
        data.len() >= 8,
{
    2 * le_bytes_to_u64(data) > u64::MAX
}

/// One invocation of the handler as a function of the instruction bytes and
/// the randomness draw: decode the request, then settle it against the side
/// the draw names.
pub open spec fn spec_process(data: Seq<u8>, draw: u8) -> Result<Settlement, WagerError>
    recommends
        choice_byte_valid(draw),
{
    match spec_decode(data) {
        Ok(req) => spec_settle(req, spec_choice_of_byte(draw)),
        Err(e) => Err(e),
    }
}

/// Settle one wager instruction against a given randomness draw.
pub fn settle_request(data: &[u8], draw: u8) -> (r: Result<Settlement, WagerError>)
    requires
        draw < 2,
    ensures
        r == spec_process(data@, draw),
{
    let req = match decode_request(data) {
        Ok(req) => req,
        Err(e) => {
            return Err(e);
        },
    };
    let outcome = if draw == 0 {
        Choice::Heads
    } else {
        Choice::Tails
    };
    settle(&req, outcome)
}

/// Relies on rand's `thread_rng` and `Rng::gen_range` over the half-open
/// range `0..2`: the range is not empty, so the call returns (it panics only
/// on an empty range) and every draw is 0 or 1.
#[verifier::external_body]
fn draw_outcome_byte() -> (draw: u8)
    ensures
        draw < 2,
{
    rand::thread_rng().gen_range(0..2u8)
}

/// Process one wager instruction: decode it, draw the coin, and decide the
/// settlement. The draw is random, so the result is pinned only as far as it
/// is independent of the draw: rejection of a malformed buffer or an
/// overflowing bet is certain, and a well-formed buffer with a payable bet
/// always settles.
pub fn process_instruction(instruction_data: &[u8]) -> (r: Result<Settlement, WagerError>)
    ensures
        exists|draw: u8| draw < 2 && r == #[trigger] spec_process(instruction_data@, draw),
        !request_well_formed(instruction_data@) ==> r == Err::<Settlement, WagerError>(
            WagerError::MalformedInput,
        ),
        request_well_formed(instruction_data@) && payout_overflows(instruction_data@) ==> r
            == Err::<Settlement, WagerError>(WagerError::ArithmeticOverflow),
        request_well_formed(instruction_data@) && !payout_overflows(instruction_data@)
            ==> r is Ok,
{
    let draw = draw_outcome_byte();
    settle_request(instruction_data, draw)
}

/// Fold the result reported by the host transfer primitive into the
/// invocation's outcome: a retained wager needs no transfer and succeeds; a
/// payout succeeds exactly when the transfer did, and otherwise fails with
/// `TransferFailure`.
pub fn conclude_invocation(settlement: Settlement, transfer_succeeded: bool) -> (r: Result<
    (),
    WagerError,
>)
    ensures
        settlement is Retained ==> r == Ok::<(), WagerError>(()),
        settlement is Payout && transfer_succeeded ==> r == Ok::<(), WagerError>(()),
        settlement is Payout && !transfer_succeeded ==> r == Err::<(), WagerError>(
            WagerError::TransferFailure,
        ),
{
    match settlement {
        Settlement::Payout { .. } => {
            if transfer_succeeded {
                Ok(())
            } else {
                Err(WagerError::TransferFailure)
            }
        },
        Settlement::Retained => Ok(()),
    }
}

} // verus!

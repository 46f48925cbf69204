//! Core data model: the two-sided choice, the decoded wager request, the
//! settlement decision, and the error taxonomy of one invocation.

use vstd::prelude::*;

verus! {

/// The two sides of the coin a participant can bet on.
#[derive(Clone, Copy, Debug, PartialEq, Eq, Structural)]
pub enum Choice {
    Heads,
    Tails,
}

/// Why an invocation failed.
#[derive(Clone, Copy, Debug, PartialEq, Eq, Structural)]
pub enum WagerError {
    /// The instruction buffer is too short, or the choice byte is not 0 or 1.
    MalformedInput,
    /// Doubling the bet amount would exceed the 64-bit range.
    ArithmeticOverflow,
    /// The host transfer primitive rejected the payout.
    TransferFailure,
}

/// A decoded wager: the amount staked and the side chosen.
#[derive(Clone, Copy, Debug, PartialEq, Eq, Structural)]
pub struct WagerRequest {
    pub bet_amount: u64,
    pub choice: Choice,
}

/// The decision a settled invocation ends in: pay out winnings, or retain
/// the escrowed wager.
#[derive(Clone, Copy, Debug, PartialEq, Eq, Structural)]
pub enum Settlement {
    /// The participant won: transfer `amount` (twice the bet) to them.
    Payout { amount: u64 },
    /// The participant lost: no transfer, the program keeps the wager.
    Retained,
}

/// How a request settles against a drawn outcome: an overflow of the doubled
/// bet fails the invocation, a matching choice wins twice the bet, and a
/// mismatch retains the wager.
pub open spec fn spec_settle(req: WagerRequest, outcome: Choice) -> Result<Settlement, WagerError> {
    if req.bet_amount > u64::MAX / 2 {
        Err(WagerError::ArithmeticOverflow)
    } else if req.choice == outcome {
        Ok(Settlement::Payout { amount: (2 * req.bet_amount) as u64 })
    } else {
        Ok(Settlement::Retained)
    }
}

/// Decide the settlement of `req` against the drawn `outcome`.
pub fn settle(req: &WagerRequest, outcome: Choice) -> (r: Result<Settlement, WagerError>)
    ensures
        r == spec_settle(*req, outcome),
{
    if req.bet_amount > u64::MAX / 2 {
        Err(WagerError::ArithmeticOverflow)
    } else if req.choice == outcome {
        Ok(Settlement::Payout { amount: 2 * req.bet_amount })
    } else {
        Ok(Settlement::Retained)
    }
}

} // verus!

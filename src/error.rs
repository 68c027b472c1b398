use vstd::prelude::*;
use vstd::string::StringExecFns;

verus! {

/// Reason given when the bound search runs out of iterations.
pub const BOUNDS_NOT_FOUND: &'static str = "Could not find initial bounds";

/// Reason given when the bisection runs out of iterations.
pub const BISECTION_NOT_CONVERGED: &'static str = "Binary search did not converge";

/// Reason given when the discount rate or the precision is out of range.
pub const BAD_RATE_OR_DECIMALS: &'static str = "Invalid discount rate or decimals";

/// The ways a rate computation can fail. Each is final: nothing is retried.
#[derive(Debug, Clone, Copy, PartialEq, Eq)]
pub enum BeckerError {
    /// A search used up its iteration budget; the reason names the phase.
    MaxIterationsReached(&'static str),
    /// The earnings sequence was empty.
    EmptyEarnings,
    /// A precondition on the discount rate or the precision did not hold.
    InvalidInput(&'static str),
}

/// The human-readable text of an error.
pub open spec fn message_of(e: BeckerError) -> Seq<char> {
    match e {
        BeckerError::MaxIterationsReached(reason) => "Max iterations reached: "@ + reason@,
        BeckerError::EmptyEarnings => "Empty earnings sequence"@,
        BeckerError::InvalidInput(reason) => "Invalid input: "@ + reason@,
    }
}

impl BeckerError {
    /// The text of the error, as a host environment would show it.
    pub fn message(&self) -> (r: String)
        ensures
            r@ == message_of(*self),
    {
        match self {
            BeckerError::MaxIterationsReached(reason) => {
                let mut s = String::from_str("Max iterations reached: ");
                s.append(reason);
                s
            },
            BeckerError::EmptyEarnings => String::from_str("Empty earnings sequence"),
            BeckerError::InvalidInput(reason) => {
                let mut s = String::from_str("Invalid input: ");
                s.append(reason);
                s
            },
        }
    }
}

} // verus!

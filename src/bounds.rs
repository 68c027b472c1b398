use vstd::prelude::*;
use core::cmp::Ordering;
use crate::config::IrrConfig;
use crate::error::{BeckerError, BOUNDS_NOT_FOUND};

verus! {

/// Which way the bound search moves the candidate rate.
#[derive(Debug, Clone, Copy, PartialEq, Eq)]
pub enum Direction {
    /// The balance at the guess is negative: lower the rate.
    Down,
    /// The balance at the guess is zero, positive or not a number: raise the rate.
    Up,
}

/// A bound search under way.
///
/// `taken` counts the probes that neither crossed zero nor ended the search;
/// `max_iterations` is the budget of probes.
#[derive(Debug, Clone, Copy, PartialEq, Eq)]
pub struct BoundSearch {
    pub direction: Direction,
    pub taken: u32,
    pub max_iterations: u32,
}

/// How a bound search begins, given the balance at the guess.
#[derive(Debug, Clone, Copy, PartialEq, Eq)]
pub enum BoundStart {
    /// The balance at the guess is within tolerance: the guess is its own bound.
    AtGuess,
    /// Probe away from the guess, starting with the initial step.
    Search(BoundSearch),
    /// There is no budget for a single probe.
    Failed(BeckerError),
}

/// What to do after one probe of the bound search.
#[derive(Debug, Clone, Copy, PartialEq, Eq)]
pub enum BoundStep {
    /// The probed rate is the bound.
    Found,
    /// Probe again, one step further; double the step first if asked.
    Continue { double_step: bool },
    /// The budget is spent without a sign change.
    Failed(BeckerError),
}

/// The error of a bound search that found no sign change.
pub open spec fn bounds_failure() -> BeckerError {
    BeckerError::MaxIterationsReached(BOUNDS_NOT_FOUND)
}

/// A balance, compared with zero as `sign`, lies past zero for a search
/// moving in `direction`: at or above zero going down, at or below going up.
pub open spec fn crosses(direction: Direction, sign: Option<Ordering>) -> bool {
    match direction {
        Direction::Down => sign == Some(Ordering::Equal) || sign == Some(Ordering::Greater),
        Direction::Up => sign == Some(Ordering::Less) || sign == Some(Ordering::Equal),
    }
}

/// A new balance, compared with the previous one as `trend`, moved further
/// from zero: lower going down, higher going up.
pub open spec fn moves_away(direction: Direction, trend: Option<Ordering>) -> bool {
    match direction {
        Direction::Down => trend == Some(Ordering::Less),
        Direction::Up => trend == Some(Ordering::Greater),
    }
}

/// How a search begins: `within` is the balance's magnitude compared with
/// the tolerance, `sign` the balance compared with zero.
pub open spec fn start_of(config: IrrConfig, within: Option<Ordering>, sign: Option<Ordering>) -> BoundStart {
    if within == Some(Ordering::Less) {
        BoundStart::AtGuess
    } else if config.max_iterations == 0 {
        BoundStart::Failed(bounds_failure())
    } else {
        BoundStart::Search(
            BoundSearch {
                direction: if sign == Some(Ordering::Less) {
                    Direction::Down
                } else {
                    Direction::Up
                },
                taken: 0,
                max_iterations: config.max_iterations,
            },
        )
    }
}

/// The state and decision after a probe whose balance compares with zero as
/// `sign` and with the previous balance as `trend`.
pub open spec fn step_of(s: BoundSearch, sign: Option<Ordering>, trend: Option<Ordering>) -> (
    BoundSearch,
    BoundStep,
) {
    if crosses(s.direction, sign) {
        (s, BoundStep::Found)
    } else if s.taken + 1 >= s.max_iterations {
        (s, BoundStep::Failed(bounds_failure()))
    } else {
        (
            BoundSearch { taken: (s.taken + 1) as u32, ..s },
            BoundStep::Continue { double_step: moves_away(s.direction, trend) },
        )
    }
}

/// The first decision other than `Continue` when the probes read `probes`
/// (each a sign and a trend) in turn; `None` if every one says to go on.
pub open spec fn outcome_of(s: BoundSearch, probes: Seq<(Option<Ordering>, Option<Ordering>)>) -> Option<
    BoundStep,
>
    decreases probes.len(),
{
    if probes.len() == 0 {
        None
    } else {
        let (next, step) = step_of(s, probes[0].0, probes[0].1);
        match step {
            BoundStep::Continue { .. } => outcome_of(next, probes.drop_first()),
            _ => Some(step),
        }
    }
}

/// A bound search whose probes never lie past zero fails exactly when its
/// budget is spent: with fewer probes than the budget left it is still going,
/// and with as many it fails with `MaxIterationsReached`.
pub proof fn lemma_no_crossing_exhausts_budget(
    s: BoundSearch,
    probes: Seq<(Option<Ordering>, Option<Ordering>)>,
)
    requires
        s.taken < s.max_iterations,
        probes.len() <= s.max_iterations - s.taken,
        forall|i: int| 0 <= i < probes.len() ==> !crosses(s.direction, (#[trigger] probes[i]).0),
    ensures
        probes.len() < s.max_iterations - s.taken ==> outcome_of(s, probes) is None,
        probes.len() == s.max_iterations - s.taken ==> outcome_of(s, probes) == Some(
            BoundStep::Failed(bounds_failure()),
        ),
    decreases probes.len(),
{
    if probes.len() > 0 {
        assert(!crosses(s.direction, probes[0].0));
        if s.taken + 1 < s.max_iterations {
            let next = step_of(s, probes[0].0, probes[0].1).0;
            let rest = probes.drop_first();
            assert forall|i: int| 0 <= i < rest.len() implies !crosses(
                next.direction,
                (#[trigger] rest[i]).0,
            ) by {
                assert(rest[i] == probes[i + 1]);
            }
            lemma_no_crossing_exhausts_budget(next, rest);
        }
    }
}

impl BoundSearch {
    /// Begins a bound search from the balance at the guess.
    ///
    /// `within` is `balance.abs().partial_cmp(&tolerance)` and `sign` is
    /// `balance.partial_cmp(&0.0)`.
    pub fn start(config: &IrrConfig, within: Option<Ordering>, sign: Option<Ordering>) -> (r:
        BoundStart)
        ensures
            r == start_of(*config, within, sign),
    {
        if matches!(within, Some(Ordering::Less)) {
            return BoundStart::AtGuess;
        }
        if config.max_iterations == 0 {
            return BoundStart::Failed(BeckerError::MaxIterationsReached(BOUNDS_NOT_FOUND));
        }
        let direction = if matches!(sign, Some(Ordering::Less)) {
            Direction::Down
        } else {
            Direction::Up
        };
        BoundStart::Search(
            BoundSearch { direction, taken: 0, max_iterations: config.max_iterations },
        )
    }

    /// Takes the reading of one probe and decides what comes next.
    ///
    /// `sign` is `new_balance.partial_cmp(&0.0)` and `trend` is
    /// `new_balance.partial_cmp(&previous_balance)`.
    pub fn observe(&mut self, sign: Option<Ordering>, trend: Option<Ordering>) -> (r: BoundStep)
        ensures
            (*final(self), r) == step_of(*old(self), sign, trend),
    {
        let crossed = match self.direction {
            Direction::Down => matches!(sign, Some(Ordering::Equal) | Some(Ordering::Greater)),
            Direction::Up => matches!(sign, Some(Ordering::Less) | Some(Ordering::Equal)),
        };
        if crossed {
            return BoundStep::Found;
        }
        if self.taken as u64 + 1 >= self.max_iterations as u64 {
            return BoundStep::Failed(BeckerError::MaxIterationsReached(BOUNDS_NOT_FOUND));
        }
        self.taken = self.taken + 1;
        let double_step = match self.direction {
            Direction::Down => matches!(trend, Some(Ordering::Less)),
            Direction::Up => matches!(trend, Some(Ordering::Greater)),
        };
        BoundStep::Continue { double_step }
    }
}

} // verus!

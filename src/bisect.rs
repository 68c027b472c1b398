use vstd::prelude::*;
use core::cmp::Ordering;
use crate::config::IrrConfig;
use crate::error::{BeckerError, BISECTION_NOT_CONVERGED};

verus! {

/// A bisection under way on a bracket `(a, b)` whose balance is negative at
/// `a` and not negative at `b`.
///
/// `taken` counts the narrowings made; `max_iterations` is the budget of
/// midpoints examined.
#[derive(Debug, Clone, Copy, PartialEq, Eq)]
pub struct Bisection {
    pub taken: u32,
    pub max_iterations: u32,
}

/// How a bisection begins, given the width of the bracket.
#[derive(Debug, Clone, Copy, PartialEq, Eq)]
pub enum BisectStart {
    /// The bracket is narrower than the tolerance: its midpoint is the rate.
    Tight,
    /// Bisect the bracket.
    Search(Bisection),
    /// There is no budget for a single midpoint.
    Failed(BeckerError),
}

/// What to do after the balance at a midpoint has been read.
#[derive(Debug, Clone, Copy, PartialEq, Eq)]
pub enum BisectStep {
    /// The balance is within tolerance of zero: the midpoint is the rate.
    Accept,
    /// The balance is negative: the midpoint becomes `a`.
    ReplaceA,
    /// The balance is not negative: the midpoint becomes `b`.
    ReplaceB,
    /// The budget is spent without convergence.
    Failed(BeckerError),
}

/// The error of a bisection that did not converge.
pub open spec fn bisection_failure() -> BeckerError {
    BeckerError::MaxIterationsReached(BISECTION_NOT_CONVERGED)
}

/// The guess is the `a` end of the bracket exactly when its balance,
/// compared with zero as `sign`, is negative; the bound found is the other end.
pub open spec fn guess_is_a_of(sign: Option<Ordering>) -> bool {
    sign == Some(Ordering::Less)
}

/// How a bisection begins: `width` is `|a - b|` compared with the tolerance.
pub open spec fn start_of(config: IrrConfig, width: Option<Ordering>) -> BisectStart {
    if width == Some(Ordering::Less) {
        BisectStart::Tight
    } else if config.max_iterations == 0 {
        BisectStart::Failed(bisection_failure())
    } else {
        BisectStart::Search(Bisection { taken: 0, max_iterations: config.max_iterations })
    }
}

/// Inside the loop, a bracket is accepted when its width, compared with the
/// tolerance as `width`, is at most the tolerance.
pub open spec fn narrow_enough_of(width: Option<Ordering>) -> bool {
    width == Some(Ordering::Less) || width == Some(Ordering::Equal)
}

/// The state and decision after the balance at a midpoint has been read:
/// `within` is its magnitude compared with the tolerance, `sign` the balance
/// compared with zero.
pub open spec fn step_of(s: Bisection, within: Option<Ordering>, sign: Option<Ordering>) -> (
    Bisection,
    BisectStep,
) {
    if within == Some(Ordering::Less) {
        (s, BisectStep::Accept)
    } else if s.taken + 1 >= s.max_iterations {
        (s, BisectStep::Failed(bisection_failure()))
    } else {
        (
            Bisection { taken: (s.taken + 1) as u32, ..s },
            if sign == Some(Ordering::Less) {
                BisectStep::ReplaceA
            } else {
                BisectStep::ReplaceB
            },
        )
    }
}

/// The first decision that is not a narrowing when the midpoints read
/// `readings` (each a magnitude and a sign) in turn; `None` if every one
/// narrows.
pub open spec fn outcome_of(s: Bisection, readings: Seq<(Option<Ordering>, Option<Ordering>)>) -> Option<
    BisectStep,
>
    decreases readings.len(),
{
    if readings.len() == 0 {
        None
    } else {
        let (next, step) = step_of(s, readings[0].0, readings[0].1);
        match step {
            BisectStep::ReplaceA | BisectStep::ReplaceB => outcome_of(next, readings.drop_first()),
            _ => Some(step),
        }
    }
}

/// A bisection whose midpoints never come within tolerance fails exactly when
/// its budget is spent: with fewer readings than the budget left it is still
/// narrowing, and with as many it fails with `MaxIterationsReached`.
pub proof fn lemma_no_hit_exhausts_budget(
    s: Bisection,
    readings: Seq<(Option<Ordering>, Option<Ordering>)>,
)
    requires
        s.taken < s.max_iterations,
        readings.len() <= s.max_iterations - s.taken,
        forall|i: int| 0 <= i < readings.len() ==> (#[trigger] readings[i]).0 != Some(Ordering::Less),
    ensures
        readings.len() < s.max_iterations - s.taken ==> outcome_of(s, readings) is None,
        readings.len() == s.max_iterations - s.taken ==> outcome_of(s, readings) == Some(
            BisectStep::Failed(bisection_failure()),
        ),
    decreases readings.len(),
{
    if readings.len() > 0 {
        assert(readings[0].0 != Some(Ordering::Less));
        if s.taken + 1 < s.max_iterations {
            let next = step_of(s, readings[0].0, readings[0].1).0;
            let rest = readings.drop_first();
            assert forall|i: int| 0 <= i < rest.len() implies (#[trigger] rest[i]).0 != Some(
                Ordering::Less,
            ) by {
                assert(rest[i] == readings[i + 1]);
            }
            lemma_no_hit_exhausts_budget(next, rest);
        }
    }
}

/// Whether the guess is the `a` end of the bracket, given its balance
/// compared with zero as `sign` (`balance.partial_cmp(&0.0)`).
pub fn guess_is_a(sign: Option<Ordering>) -> (r: bool)
    ensures
        r == guess_is_a_of(sign),
{
    matches!(sign, Some(Ordering::Less))
}

/// Whether a bracket is narrow enough to stop inside the loop, given its
/// width compared with the tolerance (`(a - b).abs().partial_cmp(&tolerance)`).
pub fn narrow_enough(width: Option<Ordering>) -> (r: bool)
    ensures
        r == narrow_enough_of(width),
{
    matches!(width, Some(Ordering::Less) | Some(Ordering::Equal))
}

impl Bisection {
    /// Begins a bisection, given the width of the bracket compared with the
    /// tolerance (`(a - b).abs().partial_cmp(&tolerance)`).
    pub fn start(config: &IrrConfig, width: Option<Ordering>) -> (r: BisectStart)
        ensures
            r == start_of(*config, width),
    {
        if matches!(width, Some(Ordering::Less)) {
            return BisectStart::Tight;
        }
        if config.max_iterations == 0 {
            return BisectStart::Failed(BeckerError::MaxIterationsReached(BISECTION_NOT_CONVERGED));
        }
        BisectStart::Search(Bisection { taken: 0, max_iterations: config.max_iterations })
    }

    /// Takes the balance at the midpoint and decides what comes next.
    ///
    /// `within` is `balance.abs().partial_cmp(&tolerance)` and `sign` is
    /// `balance.partial_cmp(&0.0)`.
    pub fn observe(&mut self, within: Option<Ordering>, sign: Option<Ordering>) -> (r: BisectStep)
        ensures
            (*final(self), r) == step_of(*old(self), within, sign),
    {
        if matches!(within, Some(Ordering::Less)) {
            return BisectStep::Accept;
        }
        if self.taken as u64 + 1 >= self.max_iterations as u64 {
            return BisectStep::Failed(BeckerError::MaxIterationsReached(BISECTION_NOT_CONVERGED));
        }
        self.taken = self.taken + 1;
        if matches!(sign, Some(Ordering::Less)) {
            BisectStep::ReplaceA
        } else {
            BisectStep::ReplaceB
        }
    }
}

} // verus!

use vstd::prelude::*;
use core::cmp::Ordering;
use crate::config::{config_for, IrrConfig};
use crate::error::{BeckerError, BAD_RATE_OR_DECIMALS};

verus! {

/// A result fixed by the signs of the earnings alone, without any search.
#[derive(Debug, Clone, Copy, PartialEq, Eq)]
pub enum Shortcut {
    /// The rate is zero.
    Zero,
    /// The rate is positive infinity.
    PosInfinity,
    /// The rate is negative infinity.
    NegInfinity,
}

/// What is left to do once the inputs have been screened.
#[derive(Debug, Clone, Copy, PartialEq, Eq)]
pub enum Screen {
    /// The result is known already.
    Done(Shortcut),
    /// A search is needed, with these settings.
    Solve(IrrConfig),
}

/// An earning compares equal to zero.
pub open spec fn is_zero(sign: Option<Ordering>) -> bool {
    sign == Some(Ordering::Equal)
}

/// The shortcut for earnings whose comparisons with zero are `signs`, if any.
///
/// A single earning gives zero, positive infinity or negative infinity as it
/// is zero, positive, or anything else (negative, or not a number). Earnings
/// that are all zero give zero.
pub open spec fn shortcut_of(signs: Seq<Option<Ordering>>) -> Option<Shortcut> {
    if signs.len() == 1 {
        if is_zero(signs[0]) {
            Some(Shortcut::Zero)
        } else if signs[0] == Some(Ordering::Greater) {
            Some(Shortcut::PosInfinity)
        } else {
            Some(Shortcut::NegInfinity)
        }
    } else if forall|i: int| 0 <= i < signs.len() ==> is_zero(#[trigger] signs[i]) {
        Some(Shortcut::Zero)
    } else {
        None
    }
}

/// The outcome of screening: `signs` holds each earning compared with zero,
/// `rate_vs_floor` the discount rate compared with minus one.
pub open spec fn screen_of(
    signs: Seq<Option<Ordering>>,
    rate_vs_floor: Option<Ordering>,
    decimals: i32,
) -> Result<Screen, BeckerError> {
    if signs.len() == 0 {
        Err(BeckerError::EmptyEarnings)
    } else if rate_vs_floor == Some(Ordering::Less) || decimals < 0 {
        Err(BeckerError::InvalidInput(BAD_RATE_OR_DECIMALS))
    } else {
        match shortcut_of(signs) {
            Some(s) => Ok(Screen::Done(s)),
            None => Ok(Screen::Solve(config_for(decimals as u32))),
        }
    }
}

/// Earnings that are all zero, with a valid discount rate and precision,
/// have a rate of exactly zero.
pub proof fn lemma_all_zero_earnings(
    signs: Seq<Option<Ordering>>,
    rate_vs_floor: Option<Ordering>,
    decimals: i32,
)
    requires
        signs.len() >= 1,
        forall|i: int| 0 <= i < signs.len() ==> is_zero(#[trigger] signs[i]),
        rate_vs_floor != Some(Ordering::Less),
        decimals >= 0,
    ensures
        screen_of(signs, rate_vs_floor, decimals) == Ok::<Screen, BeckerError>(
            Screen::Done(Shortcut::Zero),
        ),
{
    if signs.len() == 1 {
        assert(is_zero(signs[0]));
    }
}

/// A single earning, with a valid discount rate and precision, has a rate of
/// zero if it is zero, positive infinity if it is positive, and negative
/// infinity otherwise.
pub proof fn lemma_single_earning(
    sign: Option<Ordering>,
    rate_vs_floor: Option<Ordering>,
    decimals: i32,
)
    requires
        rate_vs_floor != Some(Ordering::Less),
        decimals >= 0,
    ensures
        screen_of(seq![sign], rate_vs_floor, decimals) == Ok::<Screen, BeckerError>(
            Screen::Done(
                if sign == Some(Ordering::Equal) {
                    Shortcut::Zero
                } else if sign == Some(Ordering::Greater) {
                    Shortcut::PosInfinity
                } else {
                    Shortcut::NegInfinity
                },
            ),
        ),
{
}

/// Empty earnings are refused with `EmptyEarnings`, whatever the other inputs.
pub proof fn lemma_empty_earnings(rate_vs_floor: Option<Ordering>, decimals: i32)
    ensures
        screen_of(Seq::empty(), rate_vs_floor, decimals) == Err::<Screen, BeckerError>(
            BeckerError::EmptyEarnings,
        ),
{
}

/// Non-empty earnings with a discount rate below minus one, or a negative
/// precision, are refused with `InvalidInput`, whatever the earnings hold.
pub proof fn lemma_invalid_input(
    signs: Seq<Option<Ordering>>,
    rate_vs_floor: Option<Ordering>,
    decimals: i32,
)
    requires
        signs.len() >= 1,
        rate_vs_floor == Some(Ordering::Less) || decimals < 0,
    ensures
        screen_of(signs, rate_vs_floor, decimals) == Err::<Screen, BeckerError>(
            BeckerError::InvalidInput(BAD_RATE_OR_DECIMALS),
        ),
{
}

/// Checks the inputs of a rate computation and settles the degenerate cases.
///
/// `signs[i]` is `earnings[i].partial_cmp(&0.0)` and `rate_vs_floor` is
/// `disc_rate.partial_cmp(&-1.0)`.
pub fn screen(
    signs: &Vec<Option<Ordering>>,
    rate_vs_floor: Option<Ordering>,
    decimals: i32,
) -> (r: Result<Screen, BeckerError>)
    ensures
        r == screen_of(signs@, rate_vs_floor, decimals),
{
    if signs.len() == 0 {
        return Err(BeckerError::EmptyEarnings);
    }
    if matches!(rate_vs_floor, Some(Ordering::Less)) || decimals < 0 {
        return Err(BeckerError::InvalidInput(BAD_RATE_OR_DECIMALS));
    }
    match shortcut(signs) {
        Some(s) => Ok(Screen::Done(s)),
        None => Ok(Screen::Solve(IrrConfig::with_decimals(decimals as u32))),
    }
}

/// The shortcut for earnings whose comparisons with zero are `signs`, if any.
pub fn shortcut(signs: &Vec<Option<Ordering>>) -> (r: Option<Shortcut>)
    ensures
        r == shortcut_of(signs@),
{
    if signs.len() == 1 {
        let only = match signs[0] {
            Some(Ordering::Equal) => Shortcut::Zero,
            Some(Ordering::Greater) => Shortcut::PosInfinity,
            _ => Shortcut::NegInfinity,
        };
        return Some(only);
    }
    let mut i: usize = 0;
    while i < signs.len()
        invariant
            i <= signs.len(),
            signs.len() != 1,
            forall|j: int| 0 <= j < i ==> is_zero(#[trigger] signs@[j]),
        decreases signs.len() - i,
    {
        if !matches!(signs[i], Some(Ordering::Equal)) {
            assert(!is_zero(signs@[i as int]));
            return None;
        }
        i = i + 1;
    }
    Some(Shortcut::Zero)
}

} // verus!

use vstd::prelude::*;

verus! {

/// Iteration budget of each search phase.
pub const DEFAULT_MAX_ITERATIONS: u32 = 50;

/// First step of the bound search, in hundredths of a unit rate.
pub const DEFAULT_INIT_INCREMENT_HUNDREDTHS: u32 = 5;

/// Precision used when none is asked for.
pub const DEFAULT_DECIMALS: u32 = 10;

/// The fixed settings of one rate computation.
///
/// The tolerance is ten to the power `-decimals`, and the first step of the
/// bound search is `init_increment_hundredths / 100`. The values are made once
/// per computation and never changed.
#[derive(Debug, Clone, Copy, PartialEq, Eq)]
pub struct IrrConfig {
    pub max_iterations: u32,
    pub init_increment_hundredths: u32,
    pub decimals: u32,
}

/// The default settings with the precision `decimals`.
pub open spec fn config_for(decimals: u32) -> IrrConfig {
    IrrConfig {
        max_iterations: DEFAULT_MAX_ITERATIONS,
        init_increment_hundredths: DEFAULT_INIT_INCREMENT_HUNDREDTHS,
        decimals,
    }
}

impl IrrConfig {
    /// The default settings with the precision asked for.
    pub fn with_decimals(decimals: u32) -> (r: IrrConfig)
        ensures
            r == config_for(decimals),
    {
        IrrConfig {
            max_iterations: DEFAULT_MAX_ITERATIONS,
            init_increment_hundredths: DEFAULT_INIT_INCREMENT_HUNDREDTHS,
            decimals,
        }
    }
}

impl Default for IrrConfig {
    fn default() -> (r: IrrConfig)
        ensures
            r == config_for(DEFAULT_DECIMALS),
    {
        IrrConfig::with_decimals(DEFAULT_DECIMALS)
    }
}

} // verus!

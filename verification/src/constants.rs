//! Business-rule constants.
use vstd::prelude::*;

verus! {

/// One whole unit of basis points: the denominator of every cap fraction.
pub const MAX_BPS: u64 = 10_000;

/// Per-contributor cap as basis points of the raise target.
pub const MAX_CONTRIBUTION_PERCENTAGE_BPS: u64 = 1_000;

/// Seconds in one whole day, the unit of a campaign's duration.
pub const SECONDS_TO_DAYS: u64 = 86_400;

/// Base of the minimum-raise floor; the floor is this value raised to the
/// asset's decimal precision.
pub const MIN_AMOUNT_TO_RAISE: u64 = 3;

/// Base of the minimum-contribution floor; the floor is this value raised to
/// the asset's decimal precision.
pub const MIN_CONTRIBUTION_UNIT: u64 = 1;

} // verus!

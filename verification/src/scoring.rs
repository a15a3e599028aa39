//! How a right answer is scored.
use vstd::prelude::*;

verus! {

/// A way to score a right answer from how long the player took.
pub trait ScoringStrategy: Send + Sync {
    /// The points for a right answer given after `response_time_ms`, when the
    /// question allowed `time_limit_ms`.
    fn calculate_score(&self, response_time_ms: i32, time_limit_ms: i32) -> i32;
}

/// The fewest points a right answer earns under dynamic scoring, also what a
/// late right answer earns.
pub const MIN_DYNAMIC_POINTS: i32 = 300;

/// The points an instant right answer would earn under dynamic scoring; the
/// points fall in proportion to the time used.
pub const MAX_DYNAMIC_POINTS: i32 = 1500;

/// Dynamic scoring, given `proportional`, the share of `MAX_DYNAMIC_POINTS`
/// that matches the time left (used only when the answer came in time).
pub open spec fn dynamic_points(response_time_ms: i32, time_limit_ms: i32, proportional: i32) -> i32 {
    if response_time_ms >= time_limit_ms {
        MIN_DYNAMIC_POINTS
    } else if proportional > MIN_DYNAMIC_POINTS {
        proportional
    } else {
        MIN_DYNAMIC_POINTS
    }
}

/// Finishes dynamic scoring: a late answer earns the minimum, an answer in
/// time earns its proportional share of the maximum but never less than the
/// minimum.
pub fn dynamic_score(response_time_ms: i32, time_limit_ms: i32, proportional: i32) -> (points: i32)
    ensures
        points == dynamic_points(response_time_ms, time_limit_ms, proportional),
{
    if response_time_ms >= time_limit_ms {
        return MIN_DYNAMIC_POINTS;
    }
    if proportional > MIN_DYNAMIC_POINTS { proportional } else { MIN_DYNAMIC_POINTS }
}

/// A right answer never earns less than the minimum, and a late one earns
/// exactly the minimum.
pub proof fn lemma_dynamic_points_floor(response_time_ms: i32, time_limit_ms: i32, proportional: i32)
    ensures
        dynamic_points(response_time_ms, time_limit_ms, proportional) >= MIN_DYNAMIC_POINTS,
        response_time_ms >= time_limit_ms ==> dynamic_points(response_time_ms, time_limit_ms, proportional) == MIN_DYNAMIC_POINTS,
        response_time_ms < time_limit_ms && proportional >= MIN_DYNAMIC_POINTS
            ==> dynamic_points(response_time_ms, time_limit_ms, proportional) == proportional,
{
}

/// An answer in time earns the larger of the minimum and its proportional
/// share: never less than either, and exactly one of them.
pub proof fn lemma_in_time_points_are_max(response_time_ms: i32, time_limit_ms: i32, proportional: i32)
    requires
        response_time_ms < time_limit_ms,
    ensures
        dynamic_points(response_time_ms, time_limit_ms, proportional) >= MIN_DYNAMIC_POINTS,
        dynamic_points(response_time_ms, time_limit_ms, proportional) >= proportional,
        dynamic_points(response_time_ms, time_limit_ms, proportional) == MIN_DYNAMIC_POINTS
            || dynamic_points(response_time_ms, time_limit_ms, proportional) == proportional,
        proportional <= MIN_DYNAMIC_POINTS ==> dynamic_points(response_time_ms, time_limit_ms, proportional) == MIN_DYNAMIC_POINTS,
{
}

} // verus!

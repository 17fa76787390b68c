//! How scores follow from what the registry has counted.
//!
//! The entry points that need a score take the rule as a function; these are the rules that come
//! with the library.

use vstd::prelude::*;

use super::{PerformanceMetrics, ReputationInputs, MAX_SCORE};

verus! {

/// Jobs from which their number counts in full.
pub const FULL_VOLUME: u32 = 50;

/// Seconds in which a review counts as recent: ninety days.
pub const RECENT_SECS: u64 = 7_776_000;

/// `x`, but at most [`MAX_SCORE`].
pub open spec fn capped(x: int) -> int {
    if x > MAX_SCORE {
        MAX_SCORE as int
    } else {
        x
    }
}

/// What `jobs` completed jobs are worth: [`MAX_SCORE`] from [`FULL_VOLUME`] jobs on, below that
/// a share of it for each.
pub open spec fn volume_score(jobs: u32) -> int {
    if jobs >= FULL_VOLUME {
        MAX_SCORE as int
    } else {
        200 * jobs
    }
}

impl ReputationInputs {
    /// The average rating; zero, where there is none.
    pub open spec fn mean(self) -> int {
        if self.rating_count == 0 {
            0
        } else {
            capped(self.rating_sum as int / self.rating_count as int)
        }
    }

    /// Whether there is a review that is recent at the time `now`.
    pub open spec fn recent(self, now: u64) -> bool {
        self.rating_count > 0 && now < self.last_review_at + RECENT_SECS
    }

    /// Six tenths for the average rating, three for the number of jobs, one for a recent review.
    pub open spec fn weighted(self, now: u64) -> int {
        (6 * self.mean() + 3 * volume_score(self.tip_count) + (if self.recent(now) {
            MAX_SCORE as int
        } else {
            0
        })) / 10
    }
}

impl PerformanceMetrics {
    /// Seven tenths for the average rating, three for the number of jobs.
    pub open spec fn rated(self) -> int {
        (7 * capped(self.avg_rating as int) + 3 * volume_score(self.jobs_completed)) / 10
    }
}

/// What `jobs` completed jobs are worth.
fn volume(jobs: u32) -> (r: u64)
    ensures
        r == volume_score(jobs),
{
    if jobs >= FULL_VOLUME {
        MAX_SCORE as u64
    } else {
        200 * jobs as u64
    }
}

/// The reputation that follows from a worker's jobs and ratings at the time `now`. It is at most
/// [`MAX_SCORE`], and more than zero after a job or a recent review.
pub fn compute_weighted_reputation(inputs: &ReputationInputs, now: u64) -> (r: u32)
    ensures
        r == inputs.weighted(now),
        r <= MAX_SCORE,
        inputs.tip_count > 0 || inputs.recent(now) ==> r > 0,
{
    let max: u64 = MAX_SCORE as u64;
    let mut rating: u64 = 0;
    if inputs.rating_count > 0 {
        rating = inputs.rating_sum / inputs.rating_count as u64;
        if rating > max {
            rating = max;
        }
    }
    let mut bonus: u64 = 0;
    if inputs.rating_count > 0 && (now < inputs.last_review_at || now - inputs.last_review_at
        < RECENT_SECS) {
        bonus = max;
    }
    ((6 * rating + 3 * volume(inputs.tip_count) + bonus) / 10) as u32
}

/// The score that follows from a worker's metrics. It is at most [`MAX_SCORE`].
pub fn calculate_performance_score(metrics: &PerformanceMetrics) -> (r: u32)
    ensures
        r == metrics.rated(),
        r <= MAX_SCORE,
{
    let mut rating: u64 = metrics.avg_rating as u64;
    if rating > MAX_SCORE as u64 {
        rating = MAX_SCORE as u64;
    }
    ((7 * rating + 3 * volume(metrics.jobs_completed)) / 10) as u32
}

} // verus!

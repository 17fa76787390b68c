//! Performance metrics of workers.
//!
//! How the score follows from the other metrics is the caller's to say: it is taken as a
//! function, such as [`calculate_performance_score`](super::scoring::calculate_performance_score).

use vstd::prelude::*;

use super::figures;
use super::laws;
use super::{
    at, DataKey, PerformanceMetrics, RegistryContract, RegistryState, MAX_SCORE, ROLE_REP_MGR_ID,
};
use crate::error::ContractError;
use crate::host::{Call, Data, Env, Topics, Val};
use crate::roles;
use crate::roles::{both, refuse_if};
use crate::values::{Address, Symbol};

verus! {

impl PerformanceMetrics {
    /// The metrics after an update at the time `now`, the score not yet computed anew. A rating
    /// of zero is none.
    pub open spec fn updated(self, jobs_completed: u32, rating: u32, now: u64) -> PerformanceMetrics {
        PerformanceMetrics {
            jobs_completed,
            avg_rating: if rating > 0 {
                ((self.avg_rating * self.total_ratings + rating) / (self.total_ratings + 1)) as u32
            } else {
                self.avg_rating
            },
            total_ratings: if rating > 0 {
                (self.total_ratings + 1) as u32
            } else {
                self.total_ratings
            },
            last_updated: now,
            performance_score: self.performance_score,
        }
    }
}

impl RegistryState {
    /// The metrics of the worker `id`; all zero, where there are none.
    pub open spec fn metrics_of(self, id: Seq<char>) -> PerformanceMetrics {
        if self.metrics.contains_key(id) {
            self.metrics[id]
        } else {
            PerformanceMetrics {
                jobs_completed: 0,
                avg_rating: 0,
                total_ratings: 0,
                last_updated: 0,
                performance_score: 0,
            }
        }
    }

    /// The state in which the metrics of the worker `id` are `metrics`.
    pub open spec fn with_metrics(self, id: Seq<char>, metrics: PerformanceMetrics) -> RegistryState {
        RegistryState { metrics: self.metrics.insert(id, metrics), ..self }
    }

    /// What `update_metrics` answers.
    pub open spec fn metrics_verdict(self, caller: Seq<char>, rating: u32) -> Result<
        (),
        ContractError,
    > {
        both(
            self.managed(ROLE_REP_MGR_ID, caller),
            refuse_if(rating > MAX_SCORE, ContractError::RatingOutOfRange),
        )
    }
}

/// The mean of a mean of `count` ratings and one more rating is in range, and nothing overflows
/// on the way.
pub(super) proof fn lemma_mean(avg: int, count: int, rating: int)
    requires
        0 <= avg <= MAX_SCORE,
        0 <= rating <= MAX_SCORE,
        0 <= count < u32::MAX,
    ensures
        0 <= avg * count,
        avg * count + rating <= u64::MAX,
        0 <= (avg * count + rating) / (count + 1) <= MAX_SCORE,
{
    assert(0 <= avg * count <= 10_000 * count) by (nonlinear_arith)
        requires
            0 <= avg <= 10_000,
            0 <= count,
    ;
    let sum = avg * count + rating;
    assert(0 <= sum / (count + 1) <= 10_000) by (nonlinear_arith)
        requires
            0 <= sum <= 10_000 * (count + 1),
            count >= 0,
    ;
}

impl RegistryContract {
    /// Whether `update_metrics` lets `caller` give a rating.
    pub fn check_metrics(&self, caller: &Address, rating: u32) -> (r: Result<(), ContractError>)
        ensures
            r == self@.metrics_verdict(caller@, rating),
    {
        if !roles::has_role(&self.roles, ROLE_REP_MGR_ID, caller) {
            return Err(ContractError::MissingRole);
        }
        roles::require_not_paused(self.paused)?;
        if rating > MAX_SCORE {
            return Err(ContractError::RatingOutOfRange);
        }
        Ok(())
    }

    /// Set a worker's completed jobs and take one more rating into account. The caller must hold
    /// the reputation manager's role. `rate` gives the score that follows from the metrics, which
    /// is at most [`MAX_SCORE`].
    pub fn update_metrics<F: Fn(&PerformanceMetrics) -> u32>(
        &mut self,
        env: &mut Env<DataKey>,
        admin: Address,
        worker_id: Symbol,
        jobs_completed: u32,
        rating: u32,
        rate: F,
    ) -> (r: Result<(), ContractError>)
        requires
            old(self)@.wf(),
            old(self)@.metrics_verdict(admin@, rating) is Ok ==> {
                let before = old(self)@.metrics_of(worker_id@);
                let now = old(env).timestamp;
                &&& rating > 0 ==> before.total_ratings < u32::MAX
                &&& call_requires(rate, (&before.updated(jobs_completed, rating, now),))
                &&& forall|score: u32|
                    call_ensures(rate, (&before.updated(jobs_completed, rating, now),), score)
                        ==> score <= MAX_SCORE
            },
        ensures
            final(self)@.wf(),
            r == old(self)@.metrics_verdict(admin@, rating),
            r is Err ==> final(self)@ == old(self)@ && final(env).did(
                *old(env),
                seq![Call::RequireAuth(admin)],
            ),
            r is Ok ==> {
                let updated = old(self)@.metrics_of(worker_id@).updated(
                    jobs_completed,
                    rating,
                    old(env).timestamp,
                );
                let before = old(self)@.metrics_of(worker_id@);
                let n = before.total_ratings as int;
                &&& rating > 0 ==> updated.avg_rating * (n + 1) <= before.avg_rating * n + rating < (
                updated.avg_rating + 1) * (n + 1)
                &&& rating == 0 ==> updated.avg_rating == before.avg_rating
                &&& exists|score: u32|
                    {
                        &&& #[trigger] call_ensures(rate, (&updated,), score)
                        &&& final(self)@ == old(self)@.with_metrics(
                            worker_id@,
                            PerformanceMetrics { performance_score: score, ..updated },
                        )
                        &&& final(self)@ == old(self)@.after(
                            (laws::Op::UpdateMetrics {
                                caller: admin,
                                id: worker_id,
                                jobs_completed,
                                rating,
                                score,
                            }),
                            old(env).timestamp,
                            old(env).sequence,
                        )
                        &&& final(env).did(
                            *old(env),
                            seq![
                                Call::RequireAuth(admin),
                                Call::Write(DataKey::PerformanceMetrics(worker_id)),
                                Call::Publish {
                                    topics: Topics::Two("MetUpd", Val::Symbol(worker_id)),
                                    data: Data::Three(
                                        Val::U32(jobs_completed),
                                        Val::U32(updated.avg_rating),
                                        Val::U32(score),
                                    ),
                                },
                            ],
                        )
                    }
            },
    {
        env.require_auth(&admin);
        self.check_metrics(&admin, rating)?;
        let mut metrics = match self.metrics.get(&worker_id) {
            Some(metrics) => metrics.clone(),
            None => PerformanceMetrics {
                jobs_completed: 0,
                avg_rating: 0,
                total_ratings: 0,
                last_updated: 0,
                performance_score: 0,
            },
        };
        metrics.jobs_completed = jobs_completed;
        if rating > 0 {
            proof {
                lemma_mean(
                    metrics.avg_rating as int,
                    metrics.total_ratings as int,
                    rating as int,
                );
            }
            let total: u64 = metrics.avg_rating as u64 * metrics.total_ratings as u64
                + rating as u64;
            metrics.total_ratings = metrics.total_ratings + 1;
            metrics.avg_rating = (total / metrics.total_ratings as u64) as u32;
        }
        metrics.last_updated = env.timestamp;
        proof {
            let before = old(self)@.metrics_of(worker_id@);
            if rating > 0 {
                figures::metrics_average_all_ratings_alike(
                    before,
                    jobs_completed,
                    rating,
                    env.timestamp,
                );
            }
        }
        let score: u32 = rate(&metrics);
        metrics.performance_score = score;
        let average: u32 = metrics.avg_rating;
        self.metrics.set(worker_id.clone(), metrics);
        assert(self@.stakes == old(self)@.stakes);
        assert(self@.reputation_inputs == old(self)@.reputation_inputs);
        env.write(DataKey::PerformanceMetrics(worker_id.clone()));
        env.publish(
            Topics::Two("MetUpd", Val::Symbol(worker_id)),
            Data::Three(Val::U32(jobs_completed), Val::U32(average), Val::U32(score)),
        );
        Ok(())
    }

    /// The metrics of the worker `worker_id`.
    pub fn get_metrics(&self, worker_id: Symbol) -> (r: Result<
        Option<PerformanceMetrics>,
        ContractError,
    >)
        ensures
            r == Ok::<Option<PerformanceMetrics>, ContractError>(at(self@.metrics, worker_id@)),
    {
        match self.metrics.get(&worker_id) {
            Some(metrics) => Ok(Some(metrics.clone())),
            None => Ok(None),
        }
    }
}

} // verus!

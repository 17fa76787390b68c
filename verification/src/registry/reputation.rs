//! Reviews and reputation of workers.
//!
//! How the score follows from a worker's jobs and ratings is the caller's to say: the entry
//! points that need it take it as a function, such as
//! [`compute_weighted_reputation`](super::scoring::compute_weighted_reputation).

use vstd::prelude::*;

use super::laws;
use super::{
    at, list_at, DataKey, RegistryContract, RegistryState, ReputationEvent, ReputationInputs,
    WorkerView, MAX_SCORE, ROLE_ADMIN_ID, ROLE_REP_MGR_ID,
};
use crate::error::ContractError;
use crate::host::{Call, Data, Env, Topics, Val};
use crate::list;
use crate::roles;
use crate::roles::{both, pause_verdict, refuse_if};
use crate::values::{Address, Symbol};

verus! {

/// A worker whose average rating is below this loses half the reputation with every review.
pub const SLASH_THRESHOLD_RATING: u32 = 3_000;

/// Fewest reviews after which a worker can lose reputation that way.
pub const SLASH_MIN_REVIEWS: u32 = 3;

impl ReputationInputs {
    /// The inputs after a review at the time `now`.
    pub open spec fn rated(self, rating: u32, now: u64) -> ReputationInputs {
        ReputationInputs {
            rating_sum: (self.rating_sum + rating) as u64,
            rating_count: (self.rating_count + 1) as u32,
            last_review_at: now,
            ..self
        }
    }

    /// The inputs after a completed job.
    pub open spec fn worked(self) -> ReputationInputs {
        ReputationInputs { tip_count: (self.tip_count + 1) as u32, ..self }
    }

    /// The average rating.
    pub open spec fn average(self) -> u32 {
        (self.rating_sum as int / self.rating_count as int) as u32
    }
}

impl WorkerView {
    /// Whether the next review, which makes `avg_rating` the average, halves the reputation.
    pub open spec fn slashed_by(self, avg_rating: u32) -> bool {
        avg_rating < SLASH_THRESHOLD_RATING && self.review_count + 1 >= SLASH_MIN_REVIEWS
    }

    /// The worker after a review that makes `avg_rating` the average and gives `score`.
    pub open spec fn reviewed(self, avg_rating: u32, score: u32) -> WorkerView {
        WorkerView {
            review_count: (self.review_count + 1) as u32,
            avg_rating,
            reputation: if self.slashed_by(avg_rating) {
                score / 2
            } else {
                score
            },
            ..self
        }
    }

    /// The reputation less `slash_bps`, but not below zero.
    pub open spec fn slashed(self, slash_bps: u32) -> u32 {
        if self.reputation > slash_bps {
            (self.reputation - slash_bps) as u32
        } else {
            0
        }
    }
}

impl RegistryState {
    /// The reputation inputs of the worker `id`; all zero, where there are none.
    pub open spec fn inputs_of(self, id: Seq<char>) -> ReputationInputs {
        if self.reputation_inputs.contains_key(id) {
            self.reputation_inputs[id]
        } else {
            ReputationInputs { tip_count: 0, rating_sum: 0, rating_count: 0, last_review_at: 0 }
        }
    }

    /// The changes of the reputation of the worker `id`, oldest first.
    pub open spec fn history_of(self, id: Seq<char>) -> Seq<ReputationEvent> {
        list_at(self.reputation_history, id)
    }

    /// The state in which one more change of reputation of the worker `id` is on record.
    pub open spec fn with_event(
        self,
        id: Seq<char>,
        previous_score: u32,
        new_score: u32,
        reason: &'static str,
    ) -> RegistryState {
        RegistryState {
            reputation_history: self.reputation_history.insert(
                id,
                self.history_of(id).push(ReputationEvent { previous_score, new_score, reason }),
            ),
            ..self
        }
    }

    /// The state in which the reputation of the worker `id` is `score`, for `reason`.
    pub open spec fn with_reputation(
        self,
        id: Seq<char>,
        score: u32,
        reason: &'static str,
    ) -> RegistryState {
        let w = self.workers[id];
        self.with_worker(id, WorkerView { reputation: score, ..w }).with_event(
            id,
            w.reputation,
            score,
            reason,
        )
    }

    /// The state in which the reputation inputs of the worker `id` are `inputs`.
    pub open spec fn with_inputs(self, id: Seq<char>, inputs: ReputationInputs) -> RegistryState {
        RegistryState { reputation_inputs: self.reputation_inputs.insert(id, inputs), ..self }
    }

    /// What an entry point answers that takes a score of at most [`MAX_SCORE`] for the worker
    /// `id` from a caller who manages reputation.
    pub open spec fn score_verdict(self, caller: Seq<char>, id: Seq<char>, score: u32) -> Result<
        (),
        ContractError,
    > {
        both(
            self.managed(ROLE_REP_MGR_ID, caller),
            both(
                refuse_if(score > MAX_SCORE, ContractError::ScoreOutOfRange),
                self.worker_verdict(id),
            ),
        )
    }

    /// What `submit_review` answers.
    pub open spec fn review_verdict(self, id: Seq<char>, rating: u32) -> Result<
        (),
        ContractError,
    > {
        both(
            pause_verdict(self.paused),
            both(
                refuse_if(rating > MAX_SCORE, ContractError::RatingOutOfRange),
                self.worker_verdict(id),
            ),
        )
    }

    /// What `record_job_completion` answers.
    pub open spec fn job_verdict(self, caller: Seq<char>, id: Seq<char>) -> Result<
        (),
        ContractError,
    > {
        both(self.managed(ROLE_REP_MGR_ID, caller), self.worker_verdict(id))
    }

    /// What `update_reviews` answers.
    pub open spec fn update_reviews_verdict(
        self,
        caller: Seq<char>,
        id: Seq<char>,
        avg_rating: u32,
    ) -> Result<(), ContractError> {
        both(
            self.managed(ROLE_ADMIN_ID, caller),
            both(
                refuse_if(avg_rating > MAX_SCORE, ContractError::RatingOutOfRange),
                self.worker_verdict(id),
            ),
        )
    }

    /// The state after a review of the worker `id` that gives `score`: the loss of half the
    /// score, where it comes, is on record before the review.
    pub open spec fn reviewed(
        self,
        id: Seq<char>,
        rating: u32,
        now: u64,
        score: u32,
    ) -> RegistryState {
        let w = self.workers[id];
        let inputs = self.inputs_of(id).rated(rating, now);
        let counted = self.with_inputs(id, inputs).with_worker(
            id,
            w.reviewed(inputs.average(), score),
        );
        let halved = if w.slashed_by(inputs.average()) {
            counted.with_event(id, score, score / 2, "slash")
        } else {
            counted
        };
        halved.with_event(id, w.reputation, score, "review")
    }

    /// What a review asks of the host once it was let in.
    pub open spec fn review_calls(
        self,
        reviewer: Address,
        id: Symbol,
        rating: u32,
        now: u64,
        score: u32,
    ) -> Seq<Call<DataKey>> {
        let w = self.workers[id@];
        let average = self.inputs_of(id@).rated(rating, now).average();
        seq![Call::Write(DataKey::ReputationInputs(id))] + (if w.slashed_by(average) {
            seq![
                Call::Write(DataKey::ReputationHistory(id)),
                Call::Publish {
                    topics: Topics::Two("RepSlashed", Val::Symbol(id)),
                    data: Data::Two(Val::U32(average), Val::U32(score / 2)),
                },
            ]
        } else {
            seq![]
        }) + seq![
            Call::Write(DataKey::Worker(id)),
            Call::Write(DataKey::ReputationHistory(id)),
            Call::Publish {
                topics: Topics::Two("RevSub", Val::Symbol(id)),
                data: Data::Three(
                    Val::Address(reviewer),
                    Val::U32(rating),
                    Val::U32(w.reviewed(average, score).reputation),
                ),
            },
        ]
    }
}

/// An average of ratings in range is in range.
pub(super) proof fn lemma_average(sum: int, count: int)
    requires
        0 <= sum <= MAX_SCORE * count,
        count > 0,
    ensures
        0 <= sum / count <= MAX_SCORE,
{
    assert(0 <= sum / count <= 10_000) by (nonlinear_arith)
        requires
            0 <= sum <= 10_000 * count,
            count > 0,
    ;
}

impl RegistryContract {
    /// Put one more change of reputation on record.
    fn append_reputation_history(
        &mut self,
        env: &mut Env<DataKey>,
        id: &Symbol,
        previous_score: u32,
        new_score: u32,
        reason: &'static str,
    )
        ensures
            final(self)@ == old(self)@.with_event(id@, previous_score, new_score, reason),
            final(env).did(*old(env), seq![Call::Write(DataKey::ReputationHistory(*id))]),
    {
        let mut history = self.history_list(id);
        history.push(ReputationEvent { previous_score, new_score, reason });
        self.reputation_history.set(id.clone(), history);
        env.write(DataKey::ReputationHistory(id.clone()));
    }

    /// The changes of the reputation of the worker `id`.
    fn history_list(&self, id: &Symbol) -> (r: Vec<ReputationEvent>)
        ensures
            r@ == self@.history_of(id@),
    {
        match self.reputation_history.get(id) {
            Some(history) => list::copy(history),
            None => Vec::new(),
        }
    }

    /// The reputation inputs of the worker `id`.
    fn inputs_or_zero(&self, id: &Symbol) -> (r: ReputationInputs)
        ensures
            r == self@.inputs_of(id@),
    {
        match self.reputation_inputs.get(id) {
            Some(inputs) => inputs.clone(),
            None => ReputationInputs {
                tip_count: 0,
                rating_sum: 0,
                rating_count: 0,
                last_review_at: 0,
            },
        }
    }

    /// Set the reputation of the worker `id`; what it was before.
    fn set_reputation(&mut self, id: &Symbol, score: u32) -> (previous: u32)
        requires
            old(self)@.workers.contains_key(id@),
        ensures
            previous == old(self)@.workers[id@].reputation,
            final(self)@ == old(self)@.with_worker(
                id@,
                WorkerView { reputation: score, ..old(self)@.workers[id@] },
            ),
    {
        match self.workers.get_mut(id) {
            Some(worker) => {
                let previous: u32 = worker.reputation;
                worker.reputation = score;
                previous
            },
            None => 0,
        }
    }

    /// Set a worker's reputation. The caller must hold the reputation manager's role.
    pub fn update_reputation(
        &mut self,
        env: &mut Env<DataKey>,
        admin: Address,
        id: Symbol,
        score: u32,
    ) -> (r: Result<(), ContractError>)
        requires
            old(self)@.wf(),
        ensures
            final(self)@.wf(),
            r == old(self)@.verdict(
                (laws::Op::UpdateReputation { caller: admin, id, score }),
                old(env).timestamp,
                old(env).sequence,
            ),
            final(self)@ == old(self)@.after(
                (laws::Op::UpdateReputation { caller: admin, id, score }),
                old(env).timestamp,
                old(env).sequence,
            ),
            r == old(self)@.score_verdict(admin@, id@, score),
            r is Err ==> final(self)@ == old(self)@ && final(env).did(
                *old(env),
                seq![Call::RequireAuth(admin)],
            ),
            r is Ok ==> {
                &&& final(self)@ == old(self)@.with_reputation(id@, score, "manual")
                &&& final(env).did(
                    *old(env),
                    seq![
                        Call::RequireAuth(admin),
                        Call::Write(DataKey::Worker(id)),
                        Call::Write(DataKey::ReputationHistory(id)),
                        Call::Publish {
                            topics: Topics::Two("RepUpd", Val::Symbol(id)),
                            data: Data::One(Val::U32(score)),
                        },
                    ],
                )
            },
    {
        roles::require_role(env, &self.roles, ROLE_REP_MGR_ID, &admin)?;
        roles::require_not_paused(self.paused)?;
        if score > MAX_SCORE {
            return Err(ContractError::ScoreOutOfRange);
        }
        if !self.workers.has(&id) {
            return Err(ContractError::WorkerNotFound);
        }
        let previous: u32 = self.set_reputation(&id, score);
        env.write(DataKey::Worker(id.clone()));
        self.append_reputation_history(env, &id, previous, score, "manual");
        env.publish(Topics::Two("RepUpd", Val::Symbol(id)), Data::One(Val::U32(score)));
        Ok(())
    }

    /// Whether `submit_review` lets a rating of a worker in.
    pub fn check_review(&self, worker_id: &Symbol, rating: u32) -> (r: Result<(), ContractError>)
        ensures
            r == self@.review_verdict(worker_id@, rating),
    {
        roles::require_not_paused(self.paused)?;
        if rating > MAX_SCORE {
            return Err(ContractError::RatingOutOfRange);
        }
        if !self.workers.has(worker_id) {
            return Err(ContractError::WorkerNotFound);
        }
        Ok(())
    }

    /// Review a worker. `weigh` gives the score that follows from the inputs at the time of the
    /// review, which is at most [`MAX_SCORE`].
    pub fn submit_review<F: Fn(&ReputationInputs, u64) -> u32>(
        &mut self,
        env: &mut Env<DataKey>,
        reviewer: Address,
        worker_id: Symbol,
        rating: u32,
        weigh: F,
    ) -> (r: Result<(), ContractError>)
        requires
            old(self)@.wf(),
            old(self)@.review_verdict(worker_id@, rating) is Ok ==> {
                let now = old(env).timestamp;
                let inputs = old(self)@.inputs_of(worker_id@);
                &&& inputs.rating_count < u32::MAX
                &&& old(self)@.workers[worker_id@].review_count < u32::MAX
                &&& call_requires(weigh, (&inputs.rated(rating, now), now))
                &&& forall|score: u32|
                    call_ensures(weigh, (&inputs.rated(rating, now), now), score) ==> score
                        <= MAX_SCORE
            },
        ensures
            final(self)@.wf(),
            r == old(self)@.review_verdict(worker_id@, rating),
            r is Err ==> final(self)@ == old(self)@ && final(env).did(
                *old(env),
                seq![Call::RequireAuth(reviewer)],
            ),
            r is Ok ==> {
                let now = old(env).timestamp;
                let inputs = old(self)@.inputs_of(worker_id@).rated(rating, now);
                exists|score: u32|
                    {
                        &&& #[trigger] call_ensures(weigh, (&inputs, now), score)
                        &&& final(self)@ == old(self)@.reviewed(worker_id@, rating, now, score)
                        &&& final(self)@ == old(self)@.after(
                            (laws::Op::SubmitReview { reviewer, id: worker_id, rating, score }),
                            now,
                            old(env).sequence,
                        )
                        &&& final(env).did(
                            *old(env),
                            seq![Call::RequireAuth(reviewer)] + old(self)@.review_calls(
                                reviewer,
                                worker_id,
                                rating,
                                now,
                                score,
                            ),
                        )
                    }
            },
    {
        env.require_auth(&reviewer);
        self.check_review(&worker_id, rating)?;
        let now: u64 = env.timestamp;
        let mut inputs = self.inputs_or_zero(&worker_id);
        inputs.rating_sum = inputs.rating_sum + rating as u64;
        inputs.rating_count = inputs.rating_count + 1;
        inputs.last_review_at = now;
        proof {
            lemma_average(inputs.rating_sum as int, inputs.rating_count as int);
        }
        let score: u32 = weigh(&inputs, now);
        let average: u32 = (inputs.rating_sum / inputs.rating_count as u64) as u32;
        self.reputation_inputs.set(worker_id.clone(), inputs);
        env.write(DataKey::ReputationInputs(worker_id.clone()));
        let mut previous: u32 = 0;
        let mut reputation: u32 = score;
        let mut slashed: bool = false;
        match self.workers.get_mut(&worker_id) {
            Some(worker) => {
                previous = worker.reputation;
                worker.review_count = worker.review_count + 1;
                worker.avg_rating = average;
                slashed = average < SLASH_THRESHOLD_RATING && worker.review_count
                    >= SLASH_MIN_REVIEWS;
                if slashed {
                    reputation = score / 2;
                }
                worker.reputation = reputation;
            },
            None => {},
        }
        if slashed {
            self.append_reputation_history(env, &worker_id, score, reputation, "slash");
            env.publish(
                Topics::Two("RepSlashed", Val::Symbol(worker_id.clone())),
                Data::Two(Val::U32(average), Val::U32(reputation)),
            );
        }
        env.write(DataKey::Worker(worker_id.clone()));
        self.append_reputation_history(env, &worker_id, previous, score, "review");
        assert(self@.stakes == old(self)@.stakes);
        assert(self@.metrics == old(self)@.metrics);
        env.publish(
            Topics::Two("RevSub", Val::Symbol(worker_id)),
            Data::Three(Val::Address(reviewer), Val::U32(rating), Val::U32(reputation)),
        );
        Ok(())
    }

    /// Whether `record_job_completion` lets `caller` count a job of a worker.
    pub fn check_job(&self, caller: &Address, worker_id: &Symbol) -> (r: Result<
        (),
        ContractError,
    >)
        ensures
            r == self@.job_verdict(caller@, worker_id@),
    {
        if !roles::has_role(&self.roles, ROLE_REP_MGR_ID, caller) {
            return Err(ContractError::MissingRole);
        }
        roles::require_not_paused(self.paused)?;
        if !self.workers.has(worker_id) {
            return Err(ContractError::WorkerNotFound);
        }
        Ok(())
    }

    /// Count a completed job. The caller must hold the reputation manager's role. `weigh` gives
    /// the score that follows from the inputs, which is at most [`MAX_SCORE`].
    pub fn record_job_completion<F: Fn(&ReputationInputs, u64) -> u32>(
        &mut self,
        env: &mut Env<DataKey>,
        caller: Address,
        worker_id: Symbol,
        weigh: F,
    ) -> (r: Result<(), ContractError>)
        requires
            old(self)@.wf(),
            old(self)@.job_verdict(caller@, worker_id@) is Ok ==> {
                let inputs = old(self)@.inputs_of(worker_id@);
                &&& inputs.tip_count < u32::MAX
                &&& call_requires(weigh, (&inputs.worked(), old(env).timestamp))
                &&& forall|score: u32|
                    call_ensures(weigh, (&inputs.worked(), old(env).timestamp), score) ==> score
                        <= MAX_SCORE
            },
        ensures
            final(self)@.wf(),
            r == old(self)@.job_verdict(caller@, worker_id@),
            r is Err ==> final(self)@ == old(self)@ && final(env).did(
                *old(env),
                seq![Call::RequireAuth(caller)],
            ),
            r is Ok ==> {
                let inputs = old(self)@.inputs_of(worker_id@).worked();
                exists|score: u32|
                    {
                        &&& #[trigger] call_ensures(weigh, (&inputs, old(env).timestamp), score)
                        &&& final(self)@ == old(self)@.with_inputs(
                            worker_id@,
                            inputs,
                        ).with_reputation(worker_id@, score, "job_comp")
                        &&& final(self)@ == old(self)@.after(
                            (laws::Op::RecordJob { caller, id: worker_id, score }),
                            old(env).timestamp,
                            old(env).sequence,
                        )
                        &&& final(env).did(
                            *old(env),
                            seq![
                                Call::RequireAuth(caller),
                                Call::Write(DataKey::ReputationInputs(worker_id)),
                                Call::Write(DataKey::Worker(worker_id)),
                                Call::Write(DataKey::ReputationHistory(worker_id)),
                                Call::Publish {
                                    topics: Topics::Two("JobComp", Val::Symbol(worker_id)),
                                    data: Data::Two(
                                        Val::U32(inputs.tip_count),
                                        Val::U32(score),
                                    ),
                                },
                            ],
                        )
                    }
            },
    {
        env.require_auth(&caller);
        self.check_job(&caller, &worker_id)?;
        let mut inputs = self.inputs_or_zero(&worker_id);
        inputs.tip_count = inputs.tip_count + 1;
        let score: u32 = weigh(&inputs, env.timestamp);
        let tip_count: u32 = inputs.tip_count;
        self.reputation_inputs.set(worker_id.clone(), inputs);
        env.write(DataKey::ReputationInputs(worker_id.clone()));
        let previous: u32 = self.set_reputation(&worker_id, score);
        env.write(DataKey::Worker(worker_id.clone()));
        self.append_reputation_history(env, &worker_id, previous, score, "job_comp");
        assert(self@.stakes == old(self)@.stakes);
        assert(self@.metrics == old(self)@.metrics);
        env.publish(
            Topics::Two("JobComp", Val::Symbol(worker_id)),
            Data::Two(Val::U32(tip_count), Val::U32(score)),
        );
        Ok(())
    }

    /// Lower a worker's reputation by `slash_bps`, but not below zero. The caller must hold the
    /// reputation manager's role.
    pub fn slash_reputation(
        &mut self,
        env: &mut Env<DataKey>,
        caller: Address,
        worker_id: Symbol,
        slash_bps: u32,
    ) -> (r: Result<(), ContractError>)
        requires
            old(self)@.wf(),
        ensures
            final(self)@.wf(),
            r == old(self)@.verdict(
                (laws::Op::SlashReputation { caller, id: worker_id, slash_bps }),
                old(env).timestamp,
                old(env).sequence,
            ),
            final(self)@ == old(self)@.after(
                (laws::Op::SlashReputation { caller, id: worker_id, slash_bps }),
                old(env).timestamp,
                old(env).sequence,
            ),
            r == old(self)@.score_verdict(caller@, worker_id@, slash_bps),
            r is Err ==> final(self)@ == old(self)@ && final(env).did(
                *old(env),
                seq![Call::RequireAuth(caller)],
            ),
            r is Ok ==> {
                let left = old(self)@.workers[worker_id@].slashed(slash_bps);
                &&& final(self)@ == old(self)@.with_reputation(worker_id@, left, "slash")
                &&& final(env).did(
                    *old(env),
                    seq![
                        Call::RequireAuth(caller),
                        Call::Write(DataKey::Worker(worker_id)),
                        Call::Write(DataKey::ReputationHistory(worker_id)),
                        Call::Publish {
                            topics: Topics::Two("RepSlash", Val::Symbol(worker_id)),
                            data: Data::Two(Val::U32(slash_bps), Val::U32(left)),
                        },
                    ],
                )
            },
    {
        roles::require_role(env, &self.roles, ROLE_REP_MGR_ID, &caller)?;
        roles::require_not_paused(self.paused)?;
        if slash_bps > MAX_SCORE {
            return Err(ContractError::ScoreOutOfRange);
        }
        let left: u32 = match self.workers.get(&worker_id) {
            None => return Err(ContractError::WorkerNotFound),
            Some(worker) => {
                if worker.reputation > slash_bps {
                    worker.reputation - slash_bps
                } else {
                    0
                }
            },
        };
        let previous: u32 = self.set_reputation(&worker_id, left);
        env.write(DataKey::Worker(worker_id.clone()));
        self.append_reputation_history(env, &worker_id, previous, left, "slash");
        env.publish(
            Topics::Two("RepSlash", Val::Symbol(worker_id)),
            Data::Two(Val::U32(slash_bps), Val::U32(left)),
        );
        Ok(())
    }

    /// The changes of a worker's reputation, oldest first.
    pub fn get_reputation_history(&self, worker_id: Symbol) -> (r: Result<
        Vec<ReputationEvent>,
        ContractError,
    >)
        ensures
            r is Ok,
            r->Ok_0@ == self@.history_of(worker_id@),
    {
        Ok(self.history_list(&worker_id))
    }

    /// What a worker's reputation is computed from.
    pub fn get_reputation_inputs(&self, worker_id: Symbol) -> (r: Result<
        Option<ReputationInputs>,
        ContractError,
    >)
        ensures
            r == Ok::<Option<ReputationInputs>, ContractError>(
                at(self@.reputation_inputs, worker_id@),
            ),
    {
        match self.reputation_inputs.get(&worker_id) {
            Some(inputs) => Ok(Some(inputs.clone())),
            None => Ok(None),
        }
    }

    /// Set a worker's review count and average rating. The caller must hold the admin's role.
    pub fn update_reviews(
        &mut self,
        env: &mut Env<DataKey>,
        admin: Address,
        id: Symbol,
        review_count: u32,
        avg_rating: u32,
    ) -> (r: Result<(), ContractError>)
        requires
            old(self)@.wf(),
        ensures
            final(self)@.wf(),
            r == old(self)@.verdict(
                (laws::Op::UpdateReviews { caller: admin, id, review_count, avg_rating }),
                old(env).timestamp,
                old(env).sequence,
            ),
            final(self)@ == old(self)@.after(
                (laws::Op::UpdateReviews { caller: admin, id, review_count, avg_rating }),
                old(env).timestamp,
                old(env).sequence,
            ),
            r == old(self)@.update_reviews_verdict(admin@, id@, avg_rating),
            r is Err ==> final(self)@ == old(self)@ && final(env).did(
                *old(env),
                seq![Call::RequireAuth(admin)],
            ),
            r is Ok ==> {
                &&& final(self)@ == old(self)@.with_worker(
                    id@,
                    WorkerView { review_count, avg_rating, ..old(self)@.workers[id@] },
                )
                &&& final(env).did(
                    *old(env),
                    seq![
                        Call::RequireAuth(admin),
                        Call::Write(DataKey::Worker(id)),
                        Call::Publish {
                            topics: Topics::Two("RevUpd", Val::Symbol(id)),
                            data: Data::Two(Val::U32(review_count), Val::U32(avg_rating)),
                        },
                    ],
                )
            },
    {
        roles::require_role(env, &self.roles, ROLE_ADMIN_ID, &admin)?;
        roles::require_not_paused(self.paused)?;
        if avg_rating > MAX_SCORE {
            return Err(ContractError::RatingOutOfRange);
        }
        match self.workers.get_mut(&id) {
            None => Err(ContractError::WorkerNotFound),
            Some(worker) => {
                worker.review_count = review_count;
                worker.avg_rating = avg_rating;
                env.write(DataKey::Worker(id.clone()));
                env.publish(
                    Topics::Two("RevUpd", Val::Symbol(id)),
                    Data::Two(Val::U32(review_count), Val::U32(avg_rating)),
                );
                Ok(())
            },
        }
    }
}

} // verus!

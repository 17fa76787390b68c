//! What the numbers mean: rewards, averages and scores, each held against what it is counted from;
//! and who gets staked tokens.

use vstd::prelude::*;

use super::scoring::volume_score;
use super::staking::{stake_calls, unstake_calls};
use super::{
    DataKey, PerformanceMetrics, RegistryState, ReputationEvent, ReputationInputs, StakeInfo,
    WorkerView,
};
use crate::host::{Call, Data, Topics, Val};
use crate::ledger::{announces, asked_by, flow, lemma_pays, pays, writes};
use crate::values::{Address, Symbol};

verus! {

/// The quotient of a division is the greatest number whose product with the divisor does not
/// exceed the dividend.
proof fn lemma_quotient(a: int, d: int)
    requires
        d > 0,
    ensures
        a / d * d <= a,
        a < (a / d + 1) * d,
{
    let q = a / d;
    assert(a == q * d + a % d) by {
        vstd::arithmetic::div_mod::lemma_fundamental_div_mod(a, d);
        assert(d * q == q * d) by (nonlinear_arith);
    }
    assert(0 <= a % d < d) by {
        vstd::arithmetic::div_mod::lemma_mod_bound(a, d);
    }
    assert((q + 1) * d == q * d + d) by (nonlinear_arith);
}

/// A stake earns one basis point in a thousand seconds, for all seconds that have passed since
/// rewards were last counted, in whole units; nothing before that time. All that it has earned is
/// that and what was counted before, and can be computed where it fits.
pub proof fn rewards_are_earned_every_second(info: StakeInfo, now: u64)
    requires
        info.amount >= 0,
    ensures
        ({
            let e = info.earned(now);
            let seconds = now - info.last_reward_ledger;
            &&& seconds >= 0 ==> e * 10_000_000 <= info.amount * seconds < (e + 1) * 10_000_000
            &&& seconds <= 0 ==> e == 0
            &&& info.rewards(now) == info.rewards_accumulated + e
            &&& info.countable(now) <==> (seconds > 0 ==> info.amount * seconds <= i128::MAX)
                && info.rewards_accumulated + e <= i128::MAX
        }),
{
    let amount = info.amount as int;
    let p = super::staking::elapsed(info.last_reward_ledger, now);
    assert(amount * 1 * p == amount * p) by (nonlinear_arith);
    if p == 0 {
        assert(amount * p == 0) by (nonlinear_arith)
            requires
                p == 0,
        ;
    }
    lemma_quotient(amount * p, 10_000_000);
}

/// Rewards add up: what is earned over two stretches of time is what each of them earns alone, or
/// one unit more, which neither makes whole on its own.
pub proof fn rewards_add_up_over_time(info: StakeInfo, middle: u64, now: u64)
    requires
        info.amount >= 0,
        info.last_reward_ledger <= middle <= now,
    ensures
        ({
            let later = StakeInfo { last_reward_ledger: middle, ..info };
            let parts = info.earned(middle) + later.earned(now);
            parts <= info.earned(now) <= parts + 1
        }),
{
    let later = StakeInfo { last_reward_ledger: middle, ..info };
    let a = info.amount as int;
    let x = middle - info.last_reward_ledger;
    let y = now - middle;
    rewards_are_earned_every_second(info, middle);
    rewards_are_earned_every_second(later, now);
    rewards_are_earned_every_second(info, now);
    assert(a * (x + y) == a * x + a * y) by (nonlinear_arith);
}

/// Getting a stake back moves it, with all that it has earned, from the contract to the caller.
pub proof fn unstaking_pays_stake_and_rewards(
    contract: Address,
    caller: Address,
    id: Symbol,
    info: StakeInfo,
    now: u64,
)
    requires
        info.amount >= 0,
        info.rewards_accumulated >= 0,
        info.amount + info.rewards(now) <= i128::MAX,
    ensures
        ({
            let calls = unstake_calls(contract, caller, id, info, info.rewards(now));
            let paid = info.amount + info.rewards(now);
            let earned = paid - info.amount - info.rewards_accumulated;
            &&& pays(calls, info.token@, contract@, caller@, paid)
            &&& caller@ != contract@ ==> flow(calls, info.token@, caller@) == paid && flow(
                calls,
                info.token@,
                contract@,
            ) == -paid
            &&& now >= info.last_reward_ledger ==> earned * 10_000_000 <= info.amount * (now
                - info.last_reward_ledger) < (earned + 1) * 10_000_000
            &&& now < info.last_reward_ledger ==> earned == 0
            &&& asked_by(calls, caller)
            &&& forall|k: DataKey| #[trigger]
                writes(calls, k) <==> k == DataKey::StakeInfo(id) || k == DataKey::Worker(id)
            &&& announces(
                calls,
                Call::Publish {
                    topics: Topics::Three("Unstaked", Val::Symbol(id), Val::Address(caller)),
                    data: Data::Two(
                        Val::I128(info.amount),
                        Val::I128((paid - info.amount) as i128),
                    ),
                },
            )
        }),
{
    rewards_are_earned_every_second(info, now);
    let calls = unstake_calls(contract, caller, id, info, info.rewards(now));
    let paid = (info.amount + info.rewards(now)) as i128;
    assert(info.rewards(now) >= 0) by {
        let e = info.earned(now);
        let a = info.amount as int;
        let d = now - info.last_reward_ledger;
        if d >= 0 {
            assert(a * d >= 0) by (nonlinear_arith)
                requires
                    a >= 0,
                    d >= 0,
            ;
        }
        assert(e >= 0);
    }
    assert(paid == info.amount + info.rewards(now));
    lemma_pays(calls, 1, info.token, contract, caller, paid);
    assert(calls[2] == Call::Write(DataKey::StakeInfo(id)));
    assert(calls[3] == Call::Write(DataKey::Worker(id)));
    assert(calls[4] is Publish);
}

/// Staking moves the amount from the caller to the contract, and announces it with what is then at
/// stake.
pub proof fn staking_takes_the_amount_from_the_caller(
    contract: Address,
    caller: Address,
    id: Symbol,
    token: Address,
    amount: i128,
    info: StakeInfo,
)
    ensures
        ({
            let calls = stake_calls(contract, caller, id, token, amount, info);
            &&& pays(calls, token@, caller@, contract@, amount as int)
            &&& asked_by(calls, caller)
            &&& forall|k: DataKey| #[trigger]
                writes(calls, k) <==> k == DataKey::StakeInfo(id) || k == DataKey::Worker(id)
            &&& announces(
                calls,
                Call::Publish {
                    topics: Topics::Three("Staked", Val::Symbol(id), Val::Address(caller)),
                    data: Data::Two(Val::I128(amount), Val::I128(info.amount)),
                },
            )
        }),
{
    let calls = stake_calls(contract, caller, id, token, amount, info);
    lemma_pays(calls, 1, token, caller, contract, amount);
    assert(calls[2] == Call::Write(DataKey::StakeInfo(id)));
    assert(calls[3] == Call::Write(DataKey::Worker(id)));
    assert(calls[4] is Publish);
}

/// Adding to a stake adds the amount, counts what was earned up to now and starts counting anew,
/// and withdraws a request to get it back; its token stays. Where there is no stake, one in the
/// token given is added to, that has earned nothing. A stake that was paid back is empty. What is
/// at stake is what the worker's profile says, and no other worker or stake changes.
pub proof fn stakes_are_kept(
    s: RegistryState,
    id: Seq<char>,
    token: Address,
    amount: i128,
    now: u64,
    info: StakeInfo,
    other: Seq<char>,
)
    requires
        s.wf(),
        amount > 0,
        s.stake_of(id, token, now).amount + amount <= i128::MAX,
        s.stake_of(id, token, now).rewards_accumulated + s.stake_of(id, token, now).earned(now)
            <= i128::MAX,
    ensures
        ({
            let b = s.stake_of(id, token, now);
            let r = b.raised(amount, now);
            let p = info.paid_back();
            let t = s.with_stake(id, info);
            let u = s.unstake_requested(id, now);
            &&& s.stakes.contains_key(id) ==> b == s.stakes[id]
            &&& !s.stakes.contains_key(id) ==> b.token == token && b.amount == 0
                && b.rewards_accumulated == 0 && b.unstake_requested_at == 0 && b.earned(now) == 0
            &&& r.token == b.token
            &&& r.amount == b.amount + amount
            &&& r.rewards_accumulated == b.rewards_accumulated + b.earned(now)
            &&& r.last_reward_ledger == now
            &&& r.unstake_requested_at == 0
            &&& p.amount == 0 && p.rewards_accumulated == 0 && p.unstake_requested_at == 0
            &&& p.token == info.token && p.last_reward_ledger == info.last_reward_ledger
            &&& t.stakes.contains_key(id) && t.stakes[id] == info
            &&& t.workers.contains_key(id) && t.workers[id].staked_amount == info.amount
            &&& t.workers[id] == (WorkerView {
                staked_amount: t.workers[id].staked_amount,
                ..s.workers[id]
            })
            &&& t == (RegistryState { stakes: t.stakes, workers: t.workers, ..s })
            &&& u.stakes.contains_key(id) && u.stakes[id].unstake_requested_at == now
            &&& u.stakes[id] == (StakeInfo {
                unstake_requested_at: u.stakes[id].unstake_requested_at,
                ..s.stakes[id]
            })
            &&& u == (RegistryState { stakes: u.stakes, ..s })
            &&& other != id ==> {
                &&& t.stakes.contains_key(other) == s.stakes.contains_key(other)
                &&& t.stakes[other] == s.stakes[other]
                &&& t.workers.contains_key(other) == s.workers.contains_key(other)
                &&& t.workers[other] == s.workers[other]
                &&& u.stakes.contains_key(other) == s.stakes.contains_key(other)
                &&& u.stakes[other] == s.stakes[other]
            }
        }),
{
    let b = s.stake_of(id, token, now);
    rewards_are_earned_every_second(b, now);
    if now >= b.last_reward_ledger {
        let a = b.amount as int;
        let d = now - b.last_reward_ledger;
        assert(a * d >= 0) by (nonlinear_arith)
            requires
                a >= 0,
                d >= 0,
        ;
        assert(b.earned(now) >= 0);
    }
}

/// A rating above zero makes the average that of all ratings counted so far, each weighing the
/// same, in whole units, and counts once; a rating of zero changes neither. The jobs are those
/// given, the time is now, and the score is not touched.
pub proof fn metrics_average_all_ratings_alike(
    m: PerformanceMetrics,
    jobs: u32,
    rating: u32,
    now: u64,
)
    requires
        m.avg_rating <= 10_000,
        rating <= 10_000,
        m.total_ratings < u32::MAX,
    ensures
        ({
            let u = m.updated(jobs, rating, now);
            let n = m.total_ratings as int;
            let sum = m.avg_rating * n + rating;
            &&& rating > 0 ==> u.total_ratings == n + 1
            &&& rating > 0 ==> u.avg_rating * (n + 1) <= sum < (u.avg_rating + 1) * (n + 1)
            &&& rating == 0 ==> u.total_ratings == n && u.avg_rating == m.avg_rating
            &&& u.jobs_completed == jobs
            &&& u.last_updated == now
            &&& u.performance_score == m.performance_score
        }),
{
    super::metrics::lemma_mean(m.avg_rating as int, m.total_ratings as int, rating as int);
    lemma_quotient(
        m.avg_rating * m.total_ratings + rating,
        m.total_ratings + 1,
    );
}

/// The metrics of a worker are what was last kept for that worker, at first all zero; keeping them
/// changes nothing else.
pub proof fn metrics_are_kept(
    s: RegistryState,
    id: Seq<char>,
    m: PerformanceMetrics,
    other: Seq<char>,
)
    ensures
        ({
            let t = s.with_metrics(id, m);
            let z = s.metrics_of(id);
            &&& t.metrics_of(id) == m
            &&& other != id ==> t.metrics_of(other) == s.metrics_of(other)
            &&& other != id ==> t.metrics.contains_key(other) == s.metrics.contains_key(other)
            &&& t.metrics.contains_key(id) && t.metrics[id] == m
            &&& t == (RegistryState { metrics: t.metrics, ..s })
            &&& s.metrics.contains_key(id) ==> z == s.metrics[id]
            &&& !s.metrics.contains_key(id) ==> z.jobs_completed == 0 && z.avg_rating == 0
                && z.total_ratings == 0 && z.last_updated == 0 && z.performance_score == 0
        }),
{
}

/// A review adds its rating to the sum and counts once; the average is that of all ratings, in
/// whole units. A completed job counts once and touches no rating.
pub proof fn reviews_and_jobs_are_counted(inputs: ReputationInputs, rating: u32, now: u64)
    requires
        inputs.rating_sum <= 10_000 * inputs.rating_count,
        rating <= 10_000,
        inputs.rating_count < u32::MAX,
        inputs.tip_count < u32::MAX,
    ensures
        ({
            let r = inputs.rated(rating, now);
            let w = inputs.worked();
            &&& r.rating_sum == inputs.rating_sum + rating
            &&& r.rating_count == inputs.rating_count + 1
            &&& r.last_review_at == now
            &&& r.tip_count == inputs.tip_count
            &&& r.average() * r.rating_count <= r.rating_sum < (r.average() + 1) * r.rating_count
            &&& w.tip_count == inputs.tip_count + 1
            &&& w.rating_sum == inputs.rating_sum
            &&& w.rating_count == inputs.rating_count
            &&& w.last_review_at == inputs.last_review_at
        }),
{
    let r = inputs.rated(rating, now);
    super::reputation::lemma_average(r.rating_sum as int, r.rating_count as int);
    lemma_quotient(r.rating_sum as int, r.rating_count as int);
}

/// A review makes the average of all ratings the worker's, counts once, and gives the score; from
/// the third review on, an average below 3 000 leaves half of it, rounded down. What happens is on
/// record: the loss, where there is one, and then the review. Nothing else changes.
pub proof fn a_review_changes_the_reputation(
    s: RegistryState,
    id: Seq<char>,
    rating: u32,
    now: u64,
    score: u32,
    other: Seq<char>,
)
    requires
        s.workers.contains_key(id),
        s.workers[id].review_count < u32::MAX,
    ensures
        ({
            let t = s.reviewed(id, rating, now, score);
            let inputs = s.inputs_of(id).rated(rating, now);
            let w = s.workers[id];
            let v = t.workers[id];
            let low = inputs.average() < 3_000 && w.review_count + 1 >= 3;
            let h = s.history_of(id);
            let review = ReputationEvent {
                previous_score: w.reputation,
                new_score: score,
                reason: "review",
            };
            &&& t.workers.contains_key(id)
            &&& t.inputs_of(id) == inputs
            &&& v.avg_rating == inputs.average()
            &&& v.review_count == w.review_count + 1
            &&& !low ==> v.reputation == score
            &&& low ==> v.reputation * 2 == score || v.reputation * 2 + 1 == score
            &&& v == (WorkerView {
                avg_rating: v.avg_rating,
                review_count: v.review_count,
                reputation: v.reputation,
                ..w
            })
            &&& !low ==> t.history_of(id) == h.push(review)
            &&& low ==> t.history_of(id) == h.push(
                ReputationEvent {
                    previous_score: score,
                    new_score: v.reputation,
                    reason: "slash",
                },
            ).push(review)
            &&& t == (RegistryState {
                workers: t.workers,
                reputation_inputs: t.reputation_inputs,
                reputation_history: t.reputation_history,
                ..s
            })
            &&& other != id ==> {
                &&& t.workers.contains_key(other) == s.workers.contains_key(other)
                &&& t.workers[other] == s.workers[other]
                &&& t.inputs_of(other) == s.inputs_of(other)
                &&& t.history_of(other) == s.history_of(other)
            }
        }),
{
}

/// A review is the caller's own, writes what it changes, and is announced with the rating and the
/// reputation that it leaves; a loss is announced with the average.
pub proof fn a_review_is_announced(
    s: RegistryState,
    reviewer: Address,
    id: Symbol,
    rating: u32,
    now: u64,
    score: u32,
)
    requires
        s.workers.contains_key(id@),
        s.workers[id@].review_count < u32::MAX,
    ensures
        ({
            let calls = s.review_calls(reviewer, id, rating, now, score);
            let v = s.reviewed(id@, rating, now, score).workers[id@];
            &&& forall|k: DataKey| #[trigger]
                writes(calls, k) <==> k == DataKey::ReputationInputs(id) || k == DataKey::Worker(id)
                    || k == DataKey::ReputationHistory(id)
            &&& forall|i: int|
                0 <= i < calls.len() ==> #[trigger] calls[i] is Write || calls[i] is Publish
            &&& calls.contains(
                Call::Publish {
                    topics: Topics::Two("RevSub", Val::Symbol(id)),
                    data: Data::Three(
                        Val::Address(reviewer),
                        Val::U32(rating),
                        Val::U32(v.reputation),
                    ),
                },
            )
            &&& v.avg_rating < 3_000 && v.review_count >= 3 <==> calls.contains(
                Call::Publish {
                    topics: Topics::Two("RepSlashed", Val::Symbol(id)),
                    data: Data::Two(Val::U32(v.avg_rating), Val::U32(v.reputation)),
                },
            )
        }),
{
    let calls = s.review_calls(reviewer, id, rating, now, score);
    let n = calls.len() as int;
    let v = s.reviewed(id@, rating, now, score).workers[id@];
    assert(calls[0] == Call::Write(DataKey::ReputationInputs(id)));
    assert(calls[n - 3] == Call::Write(DataKey::Worker(id)));
    assert(calls[n - 2] == Call::Write(DataKey::ReputationHistory(id)));
    assert(calls[n - 1] is Publish);
    if v.avg_rating < 3_000 && v.review_count >= 3 {
        assert(calls[2] is Publish);
    }
}

/// Setting, slashing and counting jobs put the new score and the reason on record, with the score
/// from before, and change nothing else of the worker, nor of another. A slash takes its size off
/// the score, down to zero.
pub proof fn a_reputation_is_set_and_recorded(
    s: RegistryState,
    id: Seq<char>,
    score: u32,
    reason: &'static str,
    slash: u32,
    inputs: ReputationInputs,
    other: Seq<char>,
)
    ensures
        ({
            let t = s.with_reputation(id, score, reason);
            let w = s.workers[id];
            let left = w.slashed(slash);
            let u = s.with_inputs(id, inputs);
            let z = s.inputs_of(id);
            &&& t.workers.contains_key(id)
            &&& t.workers[id].reputation == score
            &&& t.workers[id] == (WorkerView { reputation: t.workers[id].reputation, ..w })
            &&& t.history_of(id) == s.history_of(id).push(
                ReputationEvent { previous_score: w.reputation, new_score: score, reason },
            )
            &&& t == (RegistryState {
                workers: t.workers,
                reputation_history: t.reputation_history,
                ..s
            })
            &&& slash <= w.reputation ==> left + slash == w.reputation
            &&& slash > w.reputation ==> left == 0
            &&& u.inputs_of(id) == inputs
            &&& u == (RegistryState { reputation_inputs: u.reputation_inputs, ..s })
            &&& s.reputation_inputs.contains_key(id) ==> z == s.reputation_inputs[id]
            &&& !s.reputation_inputs.contains_key(id) ==> z.tip_count == 0 && z.rating_sum == 0
                && z.rating_count == 0 && z.last_review_at == 0
            &&& s.reputation_history.contains_key(id) ==> s.history_of(id)
                == s.reputation_history[id]
            &&& !s.reputation_history.contains_key(id) ==> s.history_of(id).len() == 0
            &&& other != id ==> {
                &&& t.workers.contains_key(other) == s.workers.contains_key(other)
                &&& t.workers[other] == s.workers[other]
                &&& t.history_of(other) == s.history_of(other)
                &&& u.inputs_of(other) == s.inputs_of(other)
                &&& u.reputation_inputs.contains_key(other) == s.reputation_inputs.contains_key(
                    other,
                )
            }
        }),
{
}

/// Six tenths of a reputation are the average rating, three tenths the jobs, where fifty count in
/// full and each fewer for its share, and one tenth goes to whoever was reviewed within ninety
/// days; in whole units.
pub proof fn a_reputation_weighs_ratings_jobs_and_recency(
    inputs: ReputationInputs,
    now: u64,
    average: int,
)
    requires
        inputs.rating_sum <= 10_000 * inputs.rating_count,
        inputs.rating_count == 0 ==> average == 0,
        inputs.rating_count > 0 ==> average * inputs.rating_count <= inputs.rating_sum < (average
            + 1) * inputs.rating_count,
    ensures
        ({
            let r = inputs.weighted(now);
            let v = volume_score(inputs.tip_count);
            let recent = inputs.rating_count > 0 && now < inputs.last_review_at + 90 * 86_400;
            let parts = 6 * average + 3 * v + (if recent {
                10_000int
            } else {
                0
            });
            &&& 10 * r <= parts < 10 * (r + 1)
            &&& inputs.tip_count >= 50 ==> v == 10_000
            &&& inputs.tip_count < 50 ==> 50 * v == 10_000 * inputs.tip_count
            &&& inputs.recent(now) == recent
        }),
{
    if inputs.rating_count > 0 {
        let sum = inputs.rating_sum as int;
        let n = inputs.rating_count as int;
        lemma_quotient(sum, n);
        let q = sum / n;
        assert(q == average) by (nonlinear_arith)
            requires
                n > 0,
                q * n <= sum < (q + 1) * n,
                average * n <= sum < (average + 1) * n,
        ;
        super::reputation::lemma_average(sum, n);
    }
}

/// Seven tenths of a performance score are the average rating, and three tenths the jobs, where
/// fifty count in full and each fewer for its share; in whole units.
pub proof fn a_performance_weighs_ratings_and_jobs(m: PerformanceMetrics)
    requires
        m.avg_rating <= 10_000,
    ensures
        ({
            let r = m.rated();
            let v = volume_score(m.jobs_completed);
            &&& 10 * r <= 7 * m.avg_rating + 3 * v < 10 * (r + 1)
            &&& m.jobs_completed >= 50 ==> v == 10_000
            &&& m.jobs_completed < 50 ==> 50 * v == 10_000 * m.jobs_completed
        }),
{
}

/// Ratings beyond 10 000 count as 10 000.
pub proof fn ratings_out_of_range_count_as_the_highest(
    inputs: ReputationInputs,
    highest: ReputationInputs,
    m: PerformanceMetrics,
    now: u64,
)
    requires
        inputs.rating_count > 0,
        inputs.rating_sum >= 10_000 * inputs.rating_count,
        highest == (ReputationInputs {
            rating_sum: (10_000 * inputs.rating_count) as u64,
            ..inputs
        }),
        m.avg_rating >= 10_000,
    ensures
        inputs.weighted(now) == highest.weighted(now),
        m.rated() == (PerformanceMetrics { avg_rating: 10_000, ..m }).rated(),
{
    let n = inputs.rating_count as int;
    let sum = inputs.rating_sum as int;
    assert(sum / n >= 10_000) by (nonlinear_arith)
        requires
            n > 0,
            sum >= 10_000 * n,
    ;
    assert((10_000 * n) / n == 10_000) by (nonlinear_arith)
        requires
            n > 0,
    ;
}

} // verus!

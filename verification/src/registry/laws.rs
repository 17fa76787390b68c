//! What holds of the registry contract whatever is asked of it.
//!
//! [`Op`] lists the entry points that can change the state. [`RegistryState::after`] puts
//! together what their contracts say.

use vstd::prelude::*;

use super::delegates::{lemma_dismissed, with_delegate, without_delegate};
use super::metrics::lemma_mean;
use super::reputation::lemma_average;
use super::staking::{stake_calls, unstake_calls};
use super::subscription::tier_of;
use super::verification::{has_skill, with_skill, without_skill};
use super::workers::{
    lemma_batch_wf, lemma_deregistered_wf, lemma_registered_wf, lemma_toggled_wf, new_worker,
    Batch,
};
use super::{
    role_id, AvailabilityStatus, Badge, CategoryVerification, CertifiedSkill, DataKey, Delegate,
    LocationVerification, PendingUpgrade, PerformanceMetrics, RegistryContract, RegistryState,
    ReputationInputs,
    StakeInfo, VerificationLevel, WorkerView, MAX_SCORE, ROLE_ADMIN, ROLE_ADMIN_ID,
    ROLE_CURATOR_MGR, ROLE_CURATOR_MGR_ID, ROLE_PAUSER, ROLE_PAUSER_ID, ROLE_REP_MGR,
    ROLE_REP_MGR_ID, ROLE_UPGRADER,
};
use crate::error::ContractError;
use crate::host::Call;
use crate::ledger::{flow, lemma_flow_one, lemma_total_insert, total};
use crate::list::{
    holds, lemma_with_holds, lemma_without_first_keeps, lemma_without_keeps,
    lemma_without_removes, without,
};
use crate::roles::{is_member, members, role_verdict};
use crate::values::{Address, Hash32, Symbol};

verus! {

/// A call of an entry point that can change the state. Where the score is the caller's to say,
/// it is the one that was said.
pub ghost enum Op {
    Initialize { admin: Address },
    GrantRole { caller: Address, role: Symbol, account: Address },
    RevokeRole { caller: Address, role: Symbol, account: Address },
    AddDelegate { id: Symbol, owner: Address, delegate: Address, expires_at: u64 },
    RemoveDelegate { id: Symbol, owner: Address, delegate: Address },
    Pause { caller: Address },
    Unpause { caller: Address },
    AddCurator { caller: Address, curator: Address },
    RemoveCurator { caller: Address, curator: Address },
    Register {
        curator: Address,
        id: Symbol,
        owner: Address,
        name: String,
        category: Symbol,
        location_hash: Hash32,
        contact_hash: Hash32,
    },
    Toggle { id: Symbol, caller: Address },
    Update {
        id: Symbol,
        caller: Address,
        name: String,
        category: Symbol,
        location_hash: Hash32,
        contact_hash: Hash32,
    },
    UpdateWorker {
        id: Symbol,
        caller: Address,
        name: String,
        category: Symbol,
        wallet: Address,
    },
    Deregister { id: Symbol, caller: Address },
    SetAdmin { new_admin: Address },
    UpdateReputation { caller: Address, id: Symbol, score: u32 },
    SubmitReview { reviewer: Address, id: Symbol, rating: u32, score: u32 },
    RecordJob { caller: Address, id: Symbol, score: u32 },
    SlashReputation { caller: Address, id: Symbol, slash_bps: u32 },
    UpdateReviews { caller: Address, id: Symbol, review_count: u32, avg_rating: u32 },
    UpdateSubscription { caller: Address, id: Symbol, tier: u32, expires_at: u64 },
    RenewSubscription { caller: Address, id: Symbol, expires_at: u64 },
    VerifyCategory { curator: Address, id: Symbol, category: Symbol, expires_at: u64 },
    VerifyLocation { verifier: Address, id: Symbol, expires_at: u64 },
    UpdateAvailability { id: Symbol, caller: Address, is_available: bool, expires_at: u64 },
    BatchToggle { caller: Address, ids: Seq<Symbol> },
    BatchRegister { curator: Address, batch: Batch },
    Stake { caller: Address, id: Symbol, token: Address, amount: i128 },
    RequestUnstake { caller: Address, id: Symbol },
    Unstake { caller: Address, id: Symbol },
    UpdateMetrics { caller: Address, id: Symbol, jobs_completed: u32, rating: u32, score: u32 },
    AwardBadge {
        issuer: Address,
        id: Symbol,
        badge_id: Symbol,
        name: String,
        expires_at: u64,
    },
    RevokeBadge { caller: Address, id: Symbol, badge_id: Symbol },
    AddCategory { caller: Address, category: Symbol },
    RemoveCategory { caller: Address, category: Symbol },
    ProposeUpgrade { caller: Address, hash: Hash32 },
    ExecuteUpgrade {  },
    CancelUpgrade { caller: Address },
    SetLevel { caller: Address, id: Symbol, level: VerificationLevel },
    AddSkill { caller: Address, id: Symbol, skill: Symbol, expires_at: u64 },
    RevokeSkill { caller: Address, id: Symbol, skill: Symbol },
}

impl RegistryState {
    /// What the call `op` is answered at the time `now`, in the ledger `sequence`.
    pub open spec fn verdict(self, op: Op, now: u64, sequence: u32) -> Result<(), ContractError> {
        match op {
            Op::Initialize { .. } => self.initialize_verdict(),
            Op::GrantRole { caller, .. } => self.managed(ROLE_ADMIN_ID, caller@),
            Op::RevokeRole { caller, role, account } => self.revoke_verdict(
                caller@,
                role@,
                account@,
            ),
            Op::AddDelegate { id, owner, .. } => self.owner_unpaused(id@, owner@),
            Op::RemoveDelegate { id, owner, delegate } => self.remove_delegate_verdict(
                id@,
                owner@,
                delegate@,
            ),
            Op::Pause { caller } => role_verdict(self.roles, ROLE_PAUSER_ID, caller@),
            Op::Unpause { caller } => role_verdict(self.roles, ROLE_PAUSER_ID, caller@),
            Op::AddCurator { caller, .. } => self.managed(ROLE_CURATOR_MGR_ID, caller@),
            Op::RemoveCurator { caller, .. } => self.managed(ROLE_CURATOR_MGR_ID, caller@),
            Op::Register { curator, category, .. } => self.register_verdict(curator@, category@),
            Op::Toggle { id, caller } => self.owner_unpaused(id@, caller@),
            Op::Update { id, caller, .. } => self.owner_unpaused(id@, caller@),
            Op::UpdateWorker { id, caller, .. } => self.owner_unpaused(id@, caller@),
            Op::Deregister { id, caller } => self.owner_unpaused(id@, caller@),
            Op::SetAdmin { .. } => self.admin_verdict(),
            Op::UpdateReputation { caller, id, score } => self.score_verdict(caller@, id@, score),
            Op::SubmitReview { id, rating, .. } => self.review_verdict(id@, rating),
            Op::RecordJob { caller, id, .. } => self.job_verdict(caller@, id@),
            Op::SlashReputation { caller, id, slash_bps } => self.score_verdict(
                caller@,
                id@,
                slash_bps,
            ),
            Op::UpdateReviews { caller, id, avg_rating, .. } => self.update_reviews_verdict(
                caller@,
                id@,
                avg_rating,
            ),
            Op::UpdateSubscription { caller, id, tier, .. } => self.subscribe_verdict(
                caller@,
                id@,
                tier,
            ),
            Op::RenewSubscription { caller, id, .. } => self.renew_verdict(caller@, id@, now),
            Op::VerifyCategory { curator, id, .. } => self.verify_category_verdict(curator@, id@),
            Op::VerifyLocation { id, .. } => self.verify_location_verdict(id@),
            Op::UpdateAvailability { id, caller, .. } => self.owner_unpaused(id@, caller@),
            Op::BatchToggle { caller, ids } => self.batch_toggle_verdict(caller@, ids.len()),
            Op::BatchRegister { curator, batch } => self.batch_register_verdict(curator@, batch),
            Op::Stake { caller, id, amount, .. } => self.stake_verdict(caller@, id@, amount),
            Op::RequestUnstake { caller, id } => self.request_unstake_verdict(caller@, id@),
            Op::Unstake { caller, id } => self.unstake_verdict(caller@, id@, now),
            Op::UpdateMetrics { caller, rating, .. } => self.metrics_verdict(caller@, rating),
            Op::AwardBadge { issuer, id, .. } => self.award_verdict(issuer@, id@),
            Op::RevokeBadge { caller, id, badge_id } => self.revoke_badge_verdict(
                caller@,
                (id@, badge_id@),
            ),
            Op::AddCategory { caller, .. } => self.managed(ROLE_ADMIN_ID, caller@),
            Op::RemoveCategory { caller, .. } => self.managed(ROLE_ADMIN_ID, caller@),
            Op::ProposeUpgrade { caller, .. } => self.propose_verdict(caller@),
            Op::ExecuteUpgrade {  } => self.execute_verdict(sequence),
            Op::CancelUpgrade { caller } => self.cancel_upgrade_verdict(caller@),
            Op::SetLevel { caller, id, .. } => self.vouch_verdict(caller@, id@),
            Op::AddSkill { caller, id, .. } => self.vouch_verdict(caller@, id@),
            Op::RevokeSkill { caller, id, skill } => self.revoke_skill_verdict(
                caller@,
                id@,
                skill@,
            ),
        }
    }

    /// The state after the call `op` at the time `now`, in the ledger `sequence`.
    pub open spec fn after(self, op: Op, now: u64, sequence: u32) -> RegistryState {
        if self.verdict(op, now, sequence) is Err {
            self
        } else {
            match op {
                Op::Initialize { admin } => self.initialized(admin),
                Op::GrantRole { role, account, .. } => self.granted(role@, account),
                Op::RevokeRole { role, account, .. } => self.revoked(role@, account@),
                Op::AddDelegate { id, delegate, expires_at, .. } => self.with_delegates(
                    id@,
                    with_delegate(self.delegates_of(id@), delegate, expires_at),
                ),
                Op::RemoveDelegate { id, delegate, .. } => self.with_delegates(
                    id@,
                    without_delegate(self.delegates_of(id@), delegate@),
                ),
                Op::Pause { .. } => self.with_paused(true),
                Op::Unpause { .. } => self.with_paused(false),
                Op::AddCurator { curator, .. } => self.with_curator(curator),
                Op::RemoveCurator { curator, .. } => self.without_curator(curator@),
                Op::Register { id, owner, name, category, location_hash, contact_hash, .. } =>
                    self.registered(
                        new_worker(id, owner, name, category, location_hash, contact_hash, now),
                    ),
                Op::Toggle { id, .. } => self.with_worker(id@, self.workers[id@].toggled()),
                Op::Update { id, name, category, location_hash, contact_hash, .. } =>
                    self.with_worker(
                        id@,
                        WorkerView {
                            name,
                            category,
                            location_hash,
                            contact_hash,
                            ..self.workers[id@]
                        },
                    ),
                Op::UpdateWorker { id, name, category, wallet, .. } => self.with_worker(
                    id@,
                    WorkerView { name, category, wallet, ..self.workers[id@] },
                ),
                Op::Deregister { id, .. } => self.deregistered(id@),
                Op::SetAdmin { new_admin } => self.with_admin(new_admin),
                Op::UpdateReputation { id, score, .. } => self.with_reputation(
                    id@,
                    score,
                    "manual",
                ),
                Op::SubmitReview { id, rating, score, .. } => self.reviewed(
                    id@,
                    rating,
                    now,
                    score,
                ),
                Op::RecordJob { id, score, .. } => self.with_inputs(
                    id@,
                    self.inputs_of(id@).worked(),
                ).with_reputation(id@, score, "job_comp"),
                Op::SlashReputation { id, slash_bps, .. } => self.with_reputation(
                    id@,
                    self.workers[id@].slashed(slash_bps),
                    "slash",
                ),
                Op::UpdateReviews { id, review_count, avg_rating, .. } => self.with_worker(
                    id@,
                    WorkerView { review_count, avg_rating, ..self.workers[id@] },
                ),
                Op::UpdateSubscription { id, tier, expires_at, .. } => self.with_worker(
                    id@,
                    self.workers[id@].subscribed(tier_of(tier)->0, expires_at, now),
                ),
                Op::RenewSubscription { id, expires_at, .. } => self.with_worker(
                    id@,
                    self.workers[id@].subscribed(
                        self.workers[id@].subscription.tier,
                        expires_at,
                        now,
                    ),
                ),
                Op::VerifyCategory { curator, id, category, expires_at } =>
                    self.category_verified(
                        id@,
                        CategoryVerification { category, curator, expires_at },
                    ),
                Op::VerifyLocation { verifier, id, expires_at } => self.location_verified(
                    id@,
                    LocationVerification { verifier, verified_at: now, expires_at },
                ),
                Op::UpdateAvailability { id, is_available, expires_at, .. } =>
                    self.with_availability(
                        id@,
                        AvailabilityStatus { is_available, updated_at: now, expires_at },
                    ),
                Op::BatchToggle { ids, .. } => self.batch_toggled(ids),
                Op::BatchRegister { batch, .. } => self.with_batch(batch, now),
                Op::Stake { id, token, amount, .. } => self.with_stake(
                    id@,
                    self.stake_of(id@, token, now).raised(amount, now),
                ),
                Op::RequestUnstake { id, .. } => self.unstake_requested(id@, now),
                Op::Unstake { id, .. } => self.with_stake(id@, self.stakes[id@].paid_back()),
                Op::UpdateMetrics { id, jobs_completed, rating, score, .. } => self.with_metrics(
                    id@,
                    PerformanceMetrics {
                        performance_score: score,
                        ..self.metrics_of(id@).updated(jobs_completed, rating, now)
                    },
                ),
                Op::AwardBadge { issuer, id, badge_id, name, expires_at } => self.awarded(
                    id@,
                    Badge { id: badge_id, name, issuer, awarded_at: now, expires_at, active: true },
                ),
                Op::RevokeBadge { id, badge_id, .. } => self.badge_revoked((id@, badge_id@)),
                Op::AddCategory { category, .. } => self.with_category(category),
                Op::RemoveCategory { category, .. } => self.without_category(category@),
                Op::ProposeUpgrade { hash, .. } => self.with_pending(
                    Some(
                        PendingUpgrade {
                            wasm_hash: hash,
                            execute_after_ledger: (sequence
                                + RegistryContract::TIMELOCK_LEDGERS) as u32,
                        },
                    ),
                ),
                Op::ExecuteUpgrade {  } => self.with_pending(None),
                Op::CancelUpgrade { .. } => self.with_pending(None),
                Op::SetLevel { id, level, .. } => self.with_level(id@, level),
                Op::AddSkill { caller, id, skill, expires_at } => self.with_skills(
                    id@,
                    with_skill(
                        self.skills_of(id@),
                        CertifiedSkill {
                            skill,
                            certified_by: caller,
                            certified_at: now,
                            expires_at,
                        },
                    ),
                ),
                Op::RevokeSkill { id, skill, .. } => self.with_skills(
                    id@,
                    without_skill(self.skills_of(id@), skill@),
                ),
            }
        }
    }
}

/// Whether `op` registers the worker `id`.
pub open spec fn registers(op: Op, id: Seq<char>) -> bool {
    match op {
        Op::Register { id: registered, .. } => registered@ == id,
        _ => false,
    }
}

/// Whether `op` deregisters the worker `id`.
pub open spec fn deregisters(op: Op, id: Seq<char>) -> bool {
    match op {
        Op::Deregister { id: deregistered, .. } => deregistered@ == id,
        _ => false,
    }
}

/// Whether what `op` counts and adds up stays within the range of its types, and a score that it
/// is given within the range of scores.
pub open spec fn in_range(s: RegistryState, op: Op, now: u64) -> bool {
    match op {
        Op::Register { id, .. } => s.workers.contains_key(id@) || s.worker_list.len() < u32::MAX,
        Op::BatchRegister { batch, .. } => s.worker_list.len() + batch.ids.len() <= u32::MAX,
        Op::SubmitReview { id, score, .. } => s.inputs_of(id@).rating_count < u32::MAX && score
            <= MAX_SCORE,
        Op::RecordJob { score, .. } => score <= MAX_SCORE,
        Op::Stake { id, token, amount, .. } => {
            let info = s.stake_of(id@, token, now);
            info.countable(now) && info.amount + amount <= i128::MAX
        },
        Op::Unstake { id, .. } => {
            let info = s.stakes[id@];
            s.stakes.contains_key(id@) ==> info.amount + info.rewards(now) <= i128::MAX
        },
        Op::UpdateMetrics { id, rating, score, .. } => score <= MAX_SCORE && (rating > 0
            ==> s.metrics_of(id@).total_ratings < u32::MAX),
        _ => true,
    }
}

/// No call takes the state out of its bounds: every worker is kept under its own id and listed,
/// no more workers are counted than listed, ratings and scores stay in range, and stakes and
/// rewards are not negative.
pub proof fn every_call_keeps_the_bounds(s: RegistryState, op: Op, now: u64, sequence: u32)
    requires
        s.wf(),
        in_range(s, op, now),
    ensures
        s.after(op, now, sequence).wf(),
{
    if s.verdict(op, now, sequence) is Ok {
        let t = s.after(op, now, sequence);
        match op {
            Op::Register { id, owner, name, category, location_hash, contact_hash, .. } =>
                lemma_registered_wf(
                    s,
                    new_worker(id, owner, name, category, location_hash, contact_hash, now),
                ),
            Op::Deregister { id, .. } => lemma_deregistered_wf(s, id@),
            Op::BatchToggle { ids, .. } => lemma_toggled_wf(s, ids),
            Op::BatchRegister { batch, .. } => lemma_batch_wf(s, batch, batch.ids.len(), now),
            Op::SubmitReview { id, rating, .. } => {
                let inputs = s.inputs_of(id@).rated(rating, now);
                lemma_average(inputs.rating_sum as int, inputs.rating_count as int);
                lemma_inputs_wf(s, id@, inputs);
                lemma_worker_wf(s.with_inputs(id@, inputs), t, id@);
            },
            Op::RecordJob { id, .. } => {
                let inputs = s.inputs_of(id@).worked();
                lemma_inputs_wf(s, id@, inputs);
                lemma_worker_wf(s.with_inputs(id@, inputs), t, id@);
            },
            Op::UpdateMetrics { id, rating, .. } => {
                let before = s.metrics_of(id@);
                if rating > 0 {
                    lemma_mean(
                        before.avg_rating as int,
                        before.total_ratings as int,
                        rating as int,
                    );
                }
            },
            Op::Stake { id, token, .. } => {
                lemma_earned(s.stake_of(id@, token, now), now);
                lemma_stake_wf(s, id@, t.stakes[id@]);
            },
            Op::RequestUnstake { .. } => {},
            Op::Unstake { id, .. } => lemma_stake_wf(s, id@, t.stakes[id@]),
            Op::Toggle { id, .. } => lemma_worker_wf(s, t, id@),
            Op::Update { id, .. } => lemma_worker_wf(s, t, id@),
            Op::UpdateWorker { id, .. } => lemma_worker_wf(s, t, id@),
            Op::UpdateReputation { id, .. } => lemma_worker_wf(s, t, id@),
            Op::SlashReputation { id, .. } => lemma_worker_wf(s, t, id@),
            Op::UpdateReviews { id, .. } => lemma_worker_wf(s, t, id@),
            Op::UpdateSubscription { id, .. } => lemma_worker_wf(s, t, id@),
            Op::RenewSubscription { id, .. } => lemma_worker_wf(s, t, id@),
            Op::VerifyCategory { id, .. } => lemma_worker_wf(s, t, id@),
            _ => lemma_same_wf(s, t),
        }
    }
}

/// Whether `t` is bounded as `s` is but for the workers.
spec fn differs_in_workers(s: RegistryState, t: RegistryState) -> bool {
    &&& t.worker_list == s.worker_list
    &&& t.worker_count == s.worker_count
    &&& t.reputation_inputs == s.reputation_inputs
    &&& t.stakes == s.stakes
    &&& t.metrics == s.metrics
}

/// A state stays well-formed while nothing changes that has bounds.
proof fn lemma_same_wf(s: RegistryState, t: RegistryState)
    requires
        s.wf(),
        differs_in_workers(s, t),
        t.workers == s.workers,
    ensures
        t.wf(),
{
}

/// A state stays well-formed where one worker changes within bounds.
proof fn lemma_worker_wf(s: RegistryState, t: RegistryState, id: Seq<char>)
    requires
        s.wf(),
        differs_in_workers(s, t),
        s.workers.contains_key(id),
        t.workers == s.workers.insert(id, t.workers[id]),
        t.workers[id].id == s.workers[id].id,
        t.workers[id].avg_rating <= MAX_SCORE,
        t.workers[id].reputation <= MAX_SCORE,
    ensures
        t.wf(),
{
    assert forall|k: Seq<char>| #[trigger] t.workers.contains_key(k) implies {
        &&& t.workers[k].id@ == k
        &&& holds(t.worker_list, k)
        &&& t.workers[k].avg_rating <= MAX_SCORE
        &&& t.workers[k].reputation <= MAX_SCORE
    } by {
        assert(s.workers.contains_key(k));
    }
}

/// A state stays well-formed where the inputs of one reputation change within bounds.
proof fn lemma_inputs_wf(s: RegistryState, id: Seq<char>, inputs: ReputationInputs)
    requires
        s.wf(),
        inputs.rating_sum <= 10_000 * inputs.rating_count,
    ensures
        s.with_inputs(id, inputs).wf(),
{
}

/// A state stays well-formed where one stake changes within bounds.
proof fn lemma_stake_wf(s: RegistryState, id: Seq<char>, info: StakeInfo)
    requires
        s.wf(),
        s.workers.contains_key(id),
        info.amount >= 0,
        info.rewards_accumulated >= 0,
    ensures
        s.with_stake(id, info).wf(),
{
    let staked = RegistryState { stakes: s.stakes.insert(id, info), ..s };
    assert(staked.wf());
    lemma_worker_wf(staked, s.with_stake(id, info), id);
}

/// Once initialised, the contract stays so: no later call removes the admin, and none is allowed
/// to initialise again.
pub proof fn initialised_once(s: RegistryState, op: Op, now: u64, sequence: u32)
    requires
        s.admin is Some,
    ensures
        s.after(op, now, sequence).admin is Some,
        op is Initialize ==> s.verdict(op, now, sequence) == Err::<(), ContractError>(
            ContractError::AlreadyInitialized,
        ),
{
}

/// Initialising makes the given address the admin, and a member of the admin's role.
pub proof fn initialising_gives_the_admin_role(s: RegistryState, admin: Address)
    ensures
        s.initialized(admin).admin == Some(admin),
        s.initialized(admin).is_admin(admin@),
{
    let m = members(s.initialized(admin).roles, ROLE_ADMIN_ID);
    assert(m[0]@ == admin@);
}

/// The history of a reputation is immutable: whatever is called, what is on record stays, in its
/// order, and can only be added to.
pub proof fn history_only_grows(
    s: RegistryState,
    op: Op,
    now: u64,
    sequence: u32,
    id: Seq<char>,
)
    ensures
        s.history_of(id).is_prefix_of(s.after(op, now, sequence).history_of(id)),
{
}

/// No call but the registering or deregistering of a worker changes who owns the worker.
pub proof fn owner_never_changes(
    s: RegistryState,
    op: Op,
    now: u64,
    sequence: u32,
    id: Seq<char>,
)
    requires
        s.workers.contains_key(id),
        !registers(op, id),
        !deregisters(op, id),
    ensures
        s.after(op, now, sequence).workers.contains_key(id),
        s.after(op, now, sequence).workers[id].owner == s.workers[id].owner,
{
    match op {
        Op::BatchToggle { ids, .. } => lemma_toggling_keeps(s, ids, id),
        Op::BatchRegister { batch, .. } => lemma_batch_keeps(s, batch, batch.ids.len(), now, id),
        _ => {},
    }
}

/// Every change of a worker's reputation is on record.
pub proof fn reputation_changes_are_recorded(
    s: RegistryState,
    op: Op,
    now: u64,
    sequence: u32,
    id: Seq<char>,
)
    requires
        s.workers.contains_key(id),
        !registers(op, id),
        s.after(op, now, sequence).workers.contains_key(id),
        s.after(op, now, sequence).workers[id].reputation != s.workers[id].reputation,
    ensures
        s.after(op, now, sequence).history_of(id).len() > s.history_of(id).len(),
        exists|i: int|
            s.history_of(id).len() <= i < s.after(op, now, sequence).history_of(id).len()
                && #[trigger] s.after(op, now, sequence).history_of(id)[i].new_score == s.after(
                op,
                now,
                sequence,
            ).workers[id].reputation,
{
    let t = s.after(op, now, sequence);
    let h = t.history_of(id);
    let n = s.history_of(id).len() as int;
    match op {
        Op::BatchToggle { ids, .. } => lemma_toggling_keeps(s, ids, id),
        Op::BatchRegister { batch, .. } => lemma_batch_keeps(s, batch, batch.ids.len(), now, id),
        _ => {
            assert(h[n].new_score == t.workers[id].reputation);
        },
    }
}

/// Toggling changes nothing of a worker but the flag.
proof fn lemma_toggling_keeps(s: RegistryState, ids: Seq<Symbol>, id: Seq<char>)
    requires
        s.workers.contains_key(id),
    ensures
        s.toggled_workers(ids).contains_key(id),
        s.toggled_workers(ids)[id] == (WorkerView {
            is_active: s.toggled_workers(ids)[id].is_active,
            ..s.workers[id]
        }),
    decreases ids.len(),
{
    if ids.len() > 0 {
        lemma_toggling_keeps(s, ids.drop_last(), id);
    }
}

/// A batch changes nothing of a worker who is registered.
proof fn lemma_batch_keeps(s: RegistryState, batch: Batch, n: nat, now: u64, id: Seq<char>)
    requires
        s.workers.contains_key(id),
    ensures
        s.batch_workers(batch, n, now).contains_key(id),
        s.batch_workers(batch, n, now)[id] == s.workers[id],
    decreases n,
{
    if n > 0 {
        lemma_batch_keeps(s, batch, (n - 1) as nat, now, id);
    }
}

/// A registered worker can be read back as registered, is listed, anew only where it was not
/// registered before, and no other worker is affected.
pub proof fn registered_reads_back(s: RegistryState, w: WorkerView, other: Seq<char>)
    requires
        s.wf(),
        other != w.id@,
    ensures
        s.registered(w).workers.contains_key(w.id@),
        s.registered(w).workers[w.id@] == w,
        holds(s.registered(w).worker_list, w.id@),
        s.workers.contains_key(w.id@) ==> s.registered(w).worker_list == s.worker_list,
        !s.workers.contains_key(w.id@) ==> s.registered(w).worker_list == s.worker_list.push(w.id),
        s.registered(w).workers.contains_key(other) == s.workers.contains_key(other),
        s.registered(w).workers[other] == s.workers[other],
{
    if !s.workers.contains_key(w.id@) {
        let l = s.registered(w).worker_list;
        assert(l[l.len() - 1]@ == w.id@);
    }
}

/// A deregistered worker is gone, and no other worker is affected: each is still kept as it was,
/// and listed.
pub proof fn deregistered_is_gone(s: RegistryState, id: Seq<char>, other: Seq<char>)
    requires
        s.wf(),
        other != id,
    ensures
        !s.deregistered(id).workers.contains_key(id),
        s.deregistered(id).workers.contains_key(other) == s.workers.contains_key(other),
        s.workers.contains_key(other) ==> {
            &&& s.deregistered(id).workers[other] == s.workers[other]
            &&& holds(s.deregistered(id).worker_list, other)
        },
{
    if s.workers.contains_key(other) {
        lemma_without_first_keeps(s.worker_list, id, other);
    }
}

/// Toggling a worker twice changes nothing.
pub proof fn toggling_twice_changes_nothing(s: RegistryState, id: Seq<char>)
    requires
        s.workers.contains_key(id),
    ensures
        ({
            let t = s.with_worker(id, s.workers[id].toggled());
            t.with_worker(id, t.workers[id].toggled()) == s
        }),
{
    let t = s.with_worker(id, s.workers[id].toggled());
    assert(t.with_worker(id, t.workers[id].toggled()) =~= s);
}

/// Who does not own a worker is refused whatever only the owner may call.
pub proof fn only_the_owner_may(s: RegistryState, op: Op, now: u64, sequence: u32, id: Symbol)
    requires
        s.workers.contains_key(id@),
        match op {
            Op::Toggle { id: x, caller } => x == id && caller@ != s.workers[id@].owner@,
            Op::Update { id: x, caller, .. } => x == id && caller@ != s.workers[id@].owner@,
            Op::UpdateWorker { id: x, caller, .. } => x == id && caller@ != s.workers[id@].owner@,
            Op::Deregister { id: x, caller } => x == id && caller@ != s.workers[id@].owner@,
            Op::AddDelegate { id: x, owner, .. } => x == id && owner@ != s.workers[id@].owner@,
            Op::RemoveDelegate { id: x, owner, .. } => x == id && owner@ != s.workers[id@].owner@,
            Op::UpdateAvailability { id: x, caller, .. } => x == id && caller@
                != s.workers[id@].owner@,
            Op::Stake { id: x, caller, .. } => x == id && caller@ != s.workers[id@].owner@,
            Op::RequestUnstake { id: x, caller } => x == id && caller@ != s.workers[id@].owner@,
            Op::Unstake { id: x, caller } => x == id && caller@ != s.workers[id@].owner@,
            _ => false,
        },
    ensures
        s.verdict(op, now, sequence) is Err,
        s.after(op, now, sequence) == s,
{
}

/// While the contract is paused, every call that changes the state, but initialising, pausing and
/// unpausing, is refused and changes nothing. Whoever needs no role for it is told that the
/// contract is paused.
pub proof fn paused_refuses(s: RegistryState, op: Op, now: u64, sequence: u32)
    requires
        s.paused,
    ensures
        !(op is Initialize || op is Pause || op is Unpause) ==> s.verdict(op, now, sequence) is Err
            && s.after(op, now, sequence) == s,
        op is AddDelegate || op is RemoveDelegate || op is Register || op is Toggle || op is Update
            || op is UpdateWorker || op is Deregister || op is SubmitReview
            || op is RenewSubscription || op is VerifyCategory || op is VerifyLocation
            || op is UpdateAvailability || op is BatchToggle || op is BatchRegister || op is Stake
            || op is RequestUnstake || op is Unstake || op is AwardBadge || op is RevokeBadge
            || op is ExecuteUpgrade ==> s.verdict(op, now, sequence) == Err::<(), ContractError>(
            ContractError::ContractIsPaused,
        ),
{
}

/// A granted role is held, and nobody else's membership of any role changes.
pub proof fn granting_gives_the_role(s: RegistryState, role: Seq<char>, account: Address)
    ensures
        is_member(s.granted(role, account).roles, role_id(role), account@),
        forall|id: u64, who: Seq<char>|
            id != role_id(role) || who != account@ ==> #[trigger] is_member(
                s.granted(role, account).roles,
                id,
                who,
            ) == is_member(s.roles, id, who),
{
    let m = members(s.roles, role_id(role));
    lemma_with_holds(m, account, account@);
    assert forall|id: u64, who: Seq<char>| id != role_id(role) || who != account@ implies #[trigger]
    is_member(s.granted(role, account).roles, id, who) == is_member(s.roles, id, who) by {
        lemma_with_holds(m, account, who);
    }
}

/// A revoked role is not held, and nobody else's membership of any role changes.
pub proof fn revoking_takes_the_role(s: RegistryState, role: Seq<char>, account: Seq<char>)
    ensures
        !is_member(s.revoked(role, account).roles, role_id(role), account),
        forall|id: u64, who: Seq<char>|
            id != role_id(role) || who != account ==> #[trigger] is_member(
                s.revoked(role, account).roles,
                id,
                who,
            ) == is_member(s.roles, id, who),
{
    let m = members(s.roles, role_id(role));
    lemma_without_removes(m, account);
    assert forall|id: u64, who: Seq<char>| id != role_id(role) || who != account implies #[trigger]
    is_member(s.revoked(role, account).roles, id, who) == is_member(s.roles, id, who) by {
        if id == role_id(role) {
            lemma_without_keeps(m, account, who);
        }
    }
}

/// Handing on the admin's place hands on the role: the new admin holds it, the old one, unless
/// the same, does not, and nobody else's membership changes.
pub proof fn admin_role_follows_the_admin(s: RegistryState, new_admin: Address)
    requires
        s.admin is Some,
    ensures
        s.with_admin(new_admin).admin == Some(new_admin),
        is_member(s.with_admin(new_admin).roles, ROLE_ADMIN_ID, new_admin@),
        s.admin->0@ != new_admin@ ==> !is_member(
            s.with_admin(new_admin).roles,
            ROLE_ADMIN_ID,
            s.admin->0@,
        ),
        forall|id: u64, who: Seq<char>|
            id != ROLE_ADMIN_ID || (who != new_admin@ && who != s.admin->0@) ==> #[trigger]
            is_member(s.with_admin(new_admin).roles, id, who) == is_member(s.roles, id, who),
{
    let m = members(s.roles, ROLE_ADMIN_ID);
    let old_admin = s.admin->0@;
    let w = without(m, old_admin);
    lemma_without_removes(m, old_admin);
    lemma_with_holds(w, new_admin, new_admin@);
    lemma_with_holds(w, new_admin, old_admin);
    assert forall|id: u64, who: Seq<char>|
        id != ROLE_ADMIN_ID || (who != new_admin@ && who != old_admin) implies #[trigger] is_member(
        s.with_admin(new_admin).roles,
        id,
        who,
    ) == is_member(s.roles, id, who) by {
        if id == ROLE_ADMIN_ID {
            lemma_with_holds(w, new_admin, who);
            lemma_without_keeps(m, old_admin, who);
        }
    }
}

/// The roles have ids of their own; no other name shares one of these.
pub proof fn role_ids_are_distinct(name: Seq<char>)
    ensures
        role_id(ROLE_ADMIN@) == super::ROLE_ADMIN_ID,
        role_id(ROLE_PAUSER@) == super::ROLE_PAUSER_ID,
        role_id(ROLE_CURATOR_MGR@) == super::ROLE_CURATOR_MGR_ID,
        role_id(ROLE_REP_MGR@) == super::ROLE_REP_MGR_ID,
        role_id(ROLE_UPGRADER@) == super::ROLE_UPGRADER_ID,
        name != ROLE_ADMIN@ && name != ROLE_PAUSER@ && name != ROLE_CURATOR_MGR@ && name
            != ROLE_REP_MGR@ && name != ROLE_UPGRADER@ <==> role_id(name) == u64::MAX,
        ROLE_ADMIN@ == "admin"@,
        ROLE_PAUSER@ == "pauser"@,
        ROLE_CURATOR_MGR@ == "curator_mgr"@,
        ROLE_REP_MGR@ == "rep_mgr"@,
        ROLE_UPGRADER@ == "upgrader"@,
        super::ROLE_ADMIN_ID != super::ROLE_PAUSER_ID,
        super::ROLE_ADMIN_ID != super::ROLE_CURATOR_MGR_ID,
        super::ROLE_ADMIN_ID != super::ROLE_REP_MGR_ID,
        super::ROLE_ADMIN_ID != super::ROLE_UPGRADER_ID,
        super::ROLE_PAUSER_ID != super::ROLE_CURATOR_MGR_ID,
        super::ROLE_PAUSER_ID != super::ROLE_REP_MGR_ID,
        super::ROLE_PAUSER_ID != super::ROLE_UPGRADER_ID,
        super::ROLE_CURATOR_MGR_ID != super::ROLE_REP_MGR_ID,
        super::ROLE_CURATOR_MGR_ID != super::ROLE_UPGRADER_ID,
        super::ROLE_REP_MGR_ID != super::ROLE_UPGRADER_ID,
{
    reveal_strlit("admin");
    reveal_strlit("pauser");
    reveal_strlit("curator_mgr");
    reveal_strlit("rep_mgr");
    reveal_strlit("upgrader");
    assert(ROLE_ADMIN@.len() == 5);
    assert(ROLE_PAUSER@.len() == 6);
    assert(ROLE_CURATOR_MGR@.len() == 11);
    assert(ROLE_REP_MGR@.len() == 7);
    assert(ROLE_UPGRADER@.len() == 8);
}

/// Approving a curator takes effect and is idempotent; dismissing one takes effect; nobody else
/// is affected.
pub proof fn curators_are_approved_and_dismissed(
    s: RegistryState,
    curator: Address,
    who: Seq<char>,
)
    ensures
        s.with_curator(curator).is_curator(curator@),
        s.with_curator(curator).with_curator(curator) == s.with_curator(curator),
        !s.without_curator(curator@).is_curator(curator@),
        who != curator@ ==> s.with_curator(curator).is_curator(who) == s.is_curator(who)
            && s.without_curator(curator@).is_curator(who) == s.is_curator(who),
{
    lemma_with_holds(s.curators, curator, curator@);
    lemma_with_holds(s.curators, curator, who);
    lemma_without_removes(s.curators, curator@);
    if who != curator@ {
        lemma_without_keeps(s.curators, curator@, who);
    }
    assert(s.with_curator(curator).with_curator(curator) =~= s.with_curator(curator));
}

/// Allowing a category takes effect and is idempotent; disallowing one takes effect; no other
/// category is affected.
pub proof fn categories_are_allowed_and_disallowed(s: RegistryState, name: Symbol, other: Seq<char>)
    ensures
        holds(s.with_category(name).categories, name@),
        s.with_category(name).with_category(name) == s.with_category(name),
        !holds(s.without_category(name@).categories, name@),
        other != name@ ==> holds(s.with_category(name).categories, other) == holds(
            s.categories,
            other,
        ) && holds(s.without_category(name@).categories, other) == holds(s.categories, other),
{
    lemma_with_holds(s.categories, name, name@);
    lemma_with_holds(s.categories, name, other);
    lemma_without_removes(s.categories, name@);
    if other != name@ {
        lemma_without_keeps(s.categories, name@, other);
    }
    assert(s.with_category(name).with_category(name) =~= s.with_category(name));
}

/// A curator can register a worker of any category while none is set, and only of an allowed one
/// once any is.
pub proof fn registering_respects_categories(
    s: RegistryState,
    curator: Seq<char>,
    category: Seq<char>,
)
    requires
        !s.paused,
        s.is_curator(curator),
    ensures
        s.register_verdict(curator, category) is Ok <==> s.categories.len() == 0 || holds(
            s.categories,
            category,
        ),
{
}

/// A proposed upgrade can be executed from the end of its timelock on, by anyone, and not
/// before; until it was executed or cancelled, nothing else can be proposed.
pub proof fn upgrades_wait_for_their_timelock(
    s: RegistryState,
    caller: Seq<char>,
    hash: Hash32,
    proposed: u32,
    later: u32,
)
    requires
        s.propose_verdict(caller) is Ok,
        proposed + RegistryContract::TIMELOCK_LEDGERS <= u32::MAX,
    ensures
        ({
            let t = s.with_pending(
                Some(
                    PendingUpgrade {
                        wasm_hash: hash,
                        execute_after_ledger: (proposed
                            + RegistryContract::TIMELOCK_LEDGERS) as u32,
                    },
                ),
            );
            &&& t.execute_verdict(later) is Ok <==> later >= proposed
                + RegistryContract::TIMELOCK_LEDGERS
            &&& forall|who: Seq<char>| #[trigger] t.propose_verdict(who) is Err
            &&& t.with_pending(None).propose_verdict(caller) is Ok
            &&& t.with_pending(None).execute_verdict(later) == Err::<(), ContractError>(
                ContractError::NoPendingUpgrade,
            )
        }),
{
}

/// A pending upgrade stays as proposed until it is executed, which its timelock allows, or
/// cancelled.
pub proof fn pending_upgrade_is_not_replaced(s: RegistryState, op: Op, now: u64, sequence: u32)
    requires
        s.pending_upgrade is Some,
        s.after(op, now, sequence).pending_upgrade != s.pending_upgrade,
    ensures
        s.after(op, now, sequence).pending_upgrade is None,
        op is CancelUpgrade || (op is ExecuteUpgrade && sequence
            >= s.pending_upgrade->0.execute_after_ledger),
{
}

/// A stake is paid back with its rewards, so never less than was staked, and only once the
/// cooldown is over.
pub proof fn stakes_come_back_after_the_cooldown(
    s: RegistryState,
    caller: Seq<char>,
    id: Seq<char>,
    now: u64,
)
    requires
        s.wf(),
        s.unstake_verdict(caller, id, now) is Ok,
    ensures
        now >= s.stakes[id].unstake_requested_at + RegistryContract::UNSTAKE_COOLDOWN_SECS,
        s.stakes[id].rewards(now) >= s.stakes[id].rewards_accumulated,
        s.stakes[id].amount + s.stakes[id].rewards(now) >= s.stakes[id].amount,
        ({
            let t = s.with_stake(id, s.stakes[id].paid_back());
            &&& t.stakes[id].amount == 0
            &&& t.stakes[id].rewards_accumulated == 0
            &&& t.workers[id].staked_amount == 0
            &&& t.unstake_verdict(caller, id, now) == Err::<(), ContractError>(
                ContractError::NoActiveStake,
            )
        }),
{
    lemma_earned(s.stakes[id], now);
}

/// Rewards are not negative, and grow with time.
pub proof fn rewards_grow_with_time(info: StakeInfo, now: u64, later: u64)
    requires
        info.amount >= 0,
        now <= later,
    ensures
        0 <= info.earned(now) <= info.earned(later),
{
    lemma_earned(info, now);
    lemma_earned(info, later);
    let a = super::staking::elapsed(info.last_reward_ledger, now);
    let b = super::staking::elapsed(info.last_reward_ledger, later);
    let amount = info.amount as int;
    assert(amount * a <= amount * b) by (nonlinear_arith)
        requires
            0 <= amount,
            a <= b,
    ;
    assert(amount * 1 * a == amount * a) by (nonlinear_arith);
    assert(amount * 1 * b == amount * b) by (nonlinear_arith);
}

proof fn lemma_earned(info: StakeInfo, now: u64)
    requires
        info.amount >= 0,
    ensures
        info.earned(now) >= 0,
{
    let a = super::staking::elapsed(info.last_reward_ledger, now);
    let amount = info.amount as int;
    assert(amount * 1 * a >= 0) by (nonlinear_arith)
        requires
            amount >= 0,
            a >= 0,
    ;
}

/// Staking more is added to the stake, keeps what was earned, and withdraws a request to get the
/// stake back.
pub proof fn staking_adds_up(
    s: RegistryState,
    id: Seq<char>,
    token: Address,
    amount: i128,
    now: u64,
)
    requires
        s.wf(),
        amount > 0,
        s.stake_of(id, token, now).countable(now),
        s.stake_of(id, token, now).amount + amount <= i128::MAX,
    ensures
        ({
            let before = s.stake_of(id, token, now);
            let t = s.with_stake(id, before.raised(amount, now));
            &&& t.stakes[id].amount == before.amount + amount
            &&& t.stakes[id].rewards_accumulated >= before.rewards_accumulated
            &&& t.stakes[id].rewards(now) == before.rewards(now)
            &&& t.stakes[id].unstake_requested_at == 0
            &&& t.workers[id].staked_amount == t.stakes[id].amount
        }),
{
    let before = s.stake_of(id, token, now);
    lemma_earned(before, now);
    let after = before.raised(amount, now);
    let a = super::staking::elapsed(after.last_reward_ledger, now);
    assert(a == 0);
    assert(after.amount * 1 * a == 0) by (nonlinear_arith)
        requires
            a == 0,
    ;
}

/// What a stake claims of `token`: its amount, where it is in that token.
pub open spec fn stake_claim(token: Seq<char>) -> spec_fn(StakeInfo) -> int {
    |info: StakeInfo|
        if info.token@ == token {
            info.amount as int
        } else {
            0
        }
}

impl RegistryState {
    /// What is at stake in `token`.
    pub open spec fn staked(self, token: Seq<char>) -> int {
        total(self.stakes, stake_claim(token))
    }

    /// What the call `op` asks of the host, where that moves tokens.
    pub open spec fn moves(self, op: Op, now: u64, contract: Address) -> Seq<Call<DataKey>> {
        match op {
            Op::Stake { caller, id, token, amount } => if self.stake_verdict(
                caller@,
                id@,
                amount,
            ) is Ok {
                stake_calls(
                    contract,
                    caller,
                    id,
                    token,
                    amount,
                    self.stake_of(id@, token, now).raised(amount, now),
                )
            } else {
                seq![]
            },
            Op::Unstake { caller, id } => if self.unstake_verdict(caller@, id@, now) is Ok {
                let info = self.stakes[id@];
                unstake_calls(contract, caller, id, info, info.rewards(now))
            } else {
                seq![]
            },
            _ => seq![],
        }
    }

    /// The rewards in `token` that the call `op` pays out.
    pub open spec fn pays_rewards(self, op: Op, now: u64, token: Seq<char>) -> int {
        match op {
            Op::Unstake { caller, id } => if self.unstake_verdict(caller@, id@, now) is Ok
                && self.stakes[id@].token@ == token {
                self.stakes[id@].rewards(now)
            } else {
                0
            },
            _ => 0,
        }
    }
}

/// Whether the account of `contract` itself stakes or is paid back.
pub open spec fn stakes_for_itself(op: Op, contract: Address) -> bool {
    match op {
        Op::Stake { caller, .. } => caller@ == contract@,
        Op::Unstake { caller, .. } => caller@ == contract@,
        _ => false,
    }
}

/// Whether `op` adds to a stake in another token than it is in.
pub open spec fn mixes_tokens(s: RegistryState, op: Op, now: u64) -> bool {
    match op {
        Op::Stake { id, token, .. } => s.stake_of(id@, token, now).token@ != token@,
        _ => false,
    }
}

/// What is at stake is accounted for: what a call adds to the stakes in a token, the contract
/// receives, and what it takes from them, the contract pays out, with the rewards on top. Left
/// out are stakes of the contract's own account, and additions to a stake in another token.
pub proof fn stakes_are_accounted_for(
    s: RegistryState,
    op: Op,
    now: u64,
    sequence: u32,
    contract: Address,
    token: Seq<char>,
)
    requires
        s.wf(),
        in_range(s, op, now),
        !stakes_for_itself(op, contract),
        !mixes_tokens(s, op, now),
    ensures
        s.after(op, now, sequence).staked(token) - s.staked(token) == flow(
            s.moves(op, now, contract),
            token,
            contract@,
        ) + s.pays_rewards(op, now, token),
{
    let calls = s.moves(op, now, contract);
    if s.verdict(op, now, sequence) is Ok {
        match op {
            Op::Stake { id, token: t, amount, .. } => {
                let info = s.stake_of(id@, t, now).raised(amount, now);
                lemma_total_insert(s.stakes, stake_claim(token), id@, info);
                lemma_flow_one(calls, 1, token, contract@);
            },
            Op::RequestUnstake { id, .. } => {
                let info = StakeInfo { unstake_requested_at: now, ..s.stakes[id@] };
                lemma_total_insert(s.stakes, stake_claim(token), id@, info);
            },
            Op::Unstake { id, .. } => {
                lemma_total_insert(s.stakes, stake_claim(token), id@, s.stakes[id@].paid_back());
                lemma_flow_one(calls, 1, token, contract@);
            },
            _ => {},
        }
    }
}

/// The contract as it is deployed.
pub open spec fn deployed() -> RegistryState {
    RegistryState {
        admin: None,
        paused: false,
        schema_version: None,
        roles: Map::empty(),
        curators: seq![],
        workers: Map::empty(),
        worker_list: seq![],
        worker_count: 0,
        delegates: Map::empty(),
        reputation_inputs: Map::empty(),
        reputation_history: Map::empty(),
        category_verifications: Map::empty(),
        location_verifications: Map::empty(),
        availability: Map::empty(),
        stakes: Map::empty(),
        metrics: Map::empty(),
        badges: Map::empty(),
        worker_badges: Map::empty(),
        categories: seq![],
        pending_upgrade: None,
        verification_levels: Map::empty(),
        certified_skills: Map::empty(),
    }
}

/// One call, with the time and the ledger in which it is made.
pub ghost struct Step {
    pub op: Op,
    pub now: u64,
    pub sequence: u32,
}

/// The state after `steps`, one after the other.
pub open spec fn run(steps: Seq<Step>) -> RegistryState
    decreases steps.len(),
{
    if steps.len() == 0 {
        deployed()
    } else {
        run(steps.drop_last()).after(steps.last().op, steps.last().now, steps.last().sequence)
    }
}

/// Whether what each of `steps` counts, adds up and is given stays in range.
pub open spec fn all_in_range(steps: Seq<Step>) -> bool
    decreases steps.len(),
{
    steps.len() > 0 ==> {
        &&& all_in_range(steps.drop_last())
        &&& in_range(run(steps.drop_last()), steps.last().op, steps.last().now)
    }
}

/// Whether [`stakes_are_accounted_for`] speaks of each of `steps`.
pub open spec fn all_accounted_for(steps: Seq<Step>, contract: Address) -> bool
    decreases steps.len(),
{
    steps.len() > 0 ==> {
        &&& all_accounted_for(steps.drop_last(), contract)
        &&& !stakes_for_itself(steps.last().op, contract)
        &&& !mixes_tokens(run(steps.drop_last()), steps.last().op, steps.last().now)
    }
}

/// What `steps` have brought the contract of `token`, all in all.
pub open spec fn received(steps: Seq<Step>, contract: Address, token: Seq<char>) -> int
    decreases steps.len(),
{
    if steps.len() == 0 {
        0
    } else {
        received(steps.drop_last(), contract, token) + flow(
            run(steps.drop_last()).moves(steps.last().op, steps.last().now, contract),
            token,
            contract@,
        )
    }
}

/// The rewards in `token` that `steps` have paid out, all in all.
pub open spec fn rewards_paid(steps: Seq<Step>, token: Seq<char>) -> int
    decreases steps.len(),
{
    if steps.len() == 0 {
        0
    } else {
        rewards_paid(steps.drop_last(), token) + run(steps.drop_last()).pays_rewards(
            steps.last().op,
            steps.last().now,
            token,
        )
    }
}

/// Whatever has been called since the contract was deployed, the state is in its bounds.
pub proof fn every_history_keeps_the_bounds(steps: Seq<Step>)
    requires
        all_in_range(steps),
    ensures
        run(steps).wf(),
    decreases steps.len(),
{
    if steps.len() > 0 {
        every_history_keeps_the_bounds(steps.drop_last());
        every_call_keeps_the_bounds(
            run(steps.drop_last()),
            steps.last().op,
            steps.last().now,
            steps.last().sequence,
        );
    }
}

/// Whatever has been called since the contract was deployed, what is at stake is what the
/// contract has received, but for the rewards that it has paid, with the exceptions of
/// [`stakes_are_accounted_for`].
pub proof fn every_history_is_accounted_for(
    steps: Seq<Step>,
    contract: Address,
    token: Seq<char>,
)
    requires
        all_in_range(steps),
        all_accounted_for(steps, contract),
    ensures
        run(steps).staked(token) == received(steps, contract, token) + rewards_paid(steps, token),
    decreases steps.len(),
{
    if steps.len() > 0 {
        every_history_is_accounted_for(steps.drop_last(), contract, token);
        every_history_keeps_the_bounds(steps.drop_last());
        stakes_are_accounted_for(
            run(steps.drop_last()),
            steps.last().op,
            steps.last().now,
            steps.last().sequence,
            contract,
            token,
        );
    }
}

/// A slash lowers the reputation by its size, but not below zero, and never raises it.
pub proof fn slashing_floors_at_zero(w: WorkerView, slash_bps: u32)
    ensures
        w.slashed(slash_bps) <= w.reputation,
        w.reputation >= slash_bps ==> w.slashed(slash_bps) == w.reputation - slash_bps,
        w.reputation <= slash_bps ==> w.slashed(slash_bps) == 0,
{
}

/// A review counts once: the count rises by one, the average is that of all ratings and stays in
/// range, and an average below the threshold costs half the score once there are enough reviews.
pub proof fn reviews_count_once(
    s: RegistryState,
    id: Seq<char>,
    rating: u32,
    now: u64,
    score: u32,
)
    requires
        s.wf(),
        s.review_verdict(id, rating) is Ok,
        s.inputs_of(id).rating_count < u32::MAX,
        s.workers[id].review_count < u32::MAX,
    ensures
        ({
            let before = s.inputs_of(id);
            let inputs = before.rated(rating, now);
            let w = s.reviewed(id, rating, now, score).workers[id];
            &&& inputs.rating_sum == before.rating_sum + rating
            &&& inputs.rating_count == before.rating_count + 1
            &&& w.review_count == s.workers[id].review_count + 1
            &&& w.avg_rating == inputs.rating_sum as int / inputs.rating_count as int
            &&& w.avg_rating <= MAX_SCORE
            &&& w.reputation == if w.avg_rating < super::reputation::SLASH_THRESHOLD_RATING
                && w.review_count >= super::reputation::SLASH_MIN_REVIEWS {
                score / 2
            } else {
                score
            }
        }),
{
    let before = s.inputs_of(id);
    let sum = before.rating_sum + rating;
    let count = before.rating_count + 1;
    assert(0 <= sum / count <= 10_000) by (nonlinear_arith)
        requires
            0 <= sum <= 10_000 * count,
            count > 0,
    ;
}

/// Who is named a delegate may act for the owner until the delegation ends.
pub proof fn delegates_may_act(
    s: RegistryState,
    id: Seq<char>,
    delegate: Address,
    expires_at: u64,
    now: u64,
)
    requires
        expires_at == 0 || expires_at > now,
    ensures
        s.with_delegates(
            id,
            with_delegate(s.delegates_of(id), delegate, expires_at),
        ).delegated(id, delegate@, now),
{
    let d = with_delegate(s.delegates_of(id), delegate, expires_at);
    lemma_delegate_in(s.delegates_of(id), delegate, expires_at);
    let i = choose|i: int|
        0 <= i < d.len() && (#[trigger] d[i]).address@ == delegate@ && d[i].expires_at
            == expires_at;
    let t = s.with_delegates(id, d);
    assert(t.delegates_of(id)[i].in_force(now));
}

proof fn lemma_delegate_in(s: Seq<Delegate>, who: Address, expires_at: u64)
    ensures
        exists|i: int|
            0 <= i < with_delegate(s, who, expires_at).len() && (#[trigger] with_delegate(
                s,
                who,
                expires_at,
            )[i]).address@ == who@ && with_delegate(s, who, expires_at)[i].expires_at
                == expires_at,
    decreases s.len(),
{
    let d = with_delegate(s, who, expires_at);
    if s.len() == 0 || s[0].address@ == who@ {
        assert(d[0].address@ == who@ && d[0].expires_at == expires_at);
    } else {
        let rest = s.drop_first();
        lemma_delegate_in(rest, who, expires_at);
        let e = with_delegate(rest, who, expires_at);
        let j = choose|j: int|
            0 <= j < e.len() && (#[trigger] e[j]).address@ == who@ && e[j].expires_at
                == expires_at;
        assert(d[j + 1] == e[j]);
    }
}

/// Who was dismissed as a delegate may no longer act.
pub proof fn dismissed_delegates_may_not_act(
    s: RegistryState,
    id: Seq<char>,
    delegate: Seq<char>,
    now: u64,
)
    ensures
        !s.with_delegates(
            id,
            without_delegate(s.delegates_of(id), delegate),
        ).delegated(id, delegate, now),
{
    let kept = without_delegate(s.delegates_of(id), delegate);
    lemma_dismissed(s.delegates_of(id), delegate);
    let t = s.with_delegates(id, kept);
    assert forall|i: int| 0 <= i < t.delegates_of(id).len() implies (#[trigger] t.delegates_of(
        id,
    )[i]).address@ != delegate by {
        assert(kept[i].address@ != delegate);
    }
}

/// A badge counts from its award until it ends or is revoked; no other badge is affected.
pub proof fn badges_count_until_revoked(
    s: RegistryState,
    id: Seq<char>,
    badge: Badge,
    now: u64,
    other: (Seq<char>, Seq<char>),
)
    requires
        badge.active,
        other != (id, badge.id@),
    ensures
        ({
            let key = (id, badge.id@);
            let t = s.awarded(id, badge);
            let u = t.badge_revoked(key);
            &&& t.badges.contains_key(key)
            &&& t.badges[key] == badge
            &&& holds(t.badge_ids(id), badge.id@)
            &&& t.badges[key].valid(now) <==> badge.expires_at == 0 || badge.expires_at > now
            &&& u.badges.contains_key(key)
            &&& !u.badges[key].valid(now)
            &&& t.badges.contains_key(other) == s.badges.contains_key(other)
            &&& t.badges[other] == s.badges[other]
            &&& u.badges[other] == s.badges[other]
        }),
{
    lemma_with_holds(s.badge_ids(id), badge.id, badge.id@);
}

/// A certified skill is on the list once certified, and off it once revoked; certifying it anew
/// makes the list no longer.
pub proof fn skills_are_certified_and_revoked(
    skills: Seq<CertifiedSkill>,
    entry: CertifiedSkill,
    again: CertifiedSkill,
)
    requires
        again.skill@ == entry.skill@,
    ensures
        has_skill(with_skill(skills, entry), entry.skill@),
        with_skill(with_skill(skills, entry), again).len() == with_skill(skills, entry).len(),
        !has_skill(without_skill(skills, entry.skill@), entry.skill@),
        forall|i: int|
            0 <= i < with_skill(skills, entry).len() && (#[trigger] with_skill(
                skills,
                entry,
            )[i]).skill@ == entry.skill@ ==> with_skill(skills, entry)[i] == entry,
{
    let t = with_skill(skills, entry);
    if has_skill(skills, entry.skill@) {
        let i = choose|i: int|
            0 <= i < skills.len() && #[trigger] skills[i].skill@ == entry.skill@;
        assert(t[i].skill@ == entry.skill@);
    } else {
        assert(t[skills.len() as int].skill@ == entry.skill@);
        assert forall|i: int| 0 <= i < t.len() && (#[trigger] t[i]).skill@ == entry.skill@ implies t[i]
            == entry by {
            if i < skills.len() {
                assert(skills[i].skill@ == entry.skill@);
            }
        }
    }
    let w = without_skill(skills, entry.skill@);
    let keep = |x: CertifiedSkill| x.skill@ != entry.skill@;
    assert forall|i: int| 0 <= i < w.len() implies (#[trigger] w[i]).skill@ != entry.skill@ by {
        skills.lemma_filter_pred(keep, i);
    }
}

/// Verifying a category a second time leaves the worker's verified categories as they are.
pub proof fn verifying_twice_lists_once(
    s: RegistryState,
    id: Seq<char>,
    v: CategoryVerification,
    again: CategoryVerification,
)
    requires
        v.category@ == again.category@,
    ensures
        ({
            let t = s.category_verified(id, v);
            let u = t.category_verified(id, again);
            &&& t.category_verifications[(id, v.category@)] == v
            &&& u.category_verifications[(id, v.category@)] == again
            &&& holds(t.workers[id].verified_categories, v.category@)
            &&& u.workers[id].verified_categories == t.workers[id].verified_categories
        }),
{
    lemma_with_holds(s.workers[id].verified_categories, v.category, v.category@);
}

/// A batch of ids that are not in use and differ from each other registers every worker, as
/// given, and lists each.
pub proof fn fresh_batches_register_everyone(s: RegistryState, batch: Batch, now: u64)
    requires
        batch.even(),
        forall|i: int| 0 <= i < batch.ids.len() ==> !s.workers.contains_key(
            #[trigger] batch.ids[i]@,
        ),
        forall|i: int, j: int|
            0 <= i < j < batch.ids.len() ==> #[trigger] batch.ids[i]@ != #[trigger] batch.ids[j]@,
    ensures
        s.with_batch(batch, now).worker_list == s.worker_list + batch.ids,
        forall|i: int|
            0 <= i < batch.ids.len() ==> s.with_batch(batch, now).workers[#[trigger] batch.ids[i]@]
                == batch.worker(i, now),
        forall|i: int|
            0 <= i < batch.ids.len() ==> (#[trigger] s.batch_results(
                batch.ids,
                batch.ids.len(),
            )[i]).success,
{
    lemma_fresh_batch(s, batch, batch.ids.len(), now);
    assert(batch.ids.take(batch.ids.len() as int) =~= batch.ids);
    assert forall|i: int| 0 <= i < batch.ids.len() implies (#[trigger] s.batch_results(
        batch.ids,
        batch.ids.len(),
    )[i]).success by {
        assert(s.fresh(batch.ids, i));
    }
}

proof fn lemma_fresh_batch(s: RegistryState, batch: Batch, n: nat, now: u64)
    requires
        n <= batch.ids.len(),
        forall|i: int| 0 <= i < batch.ids.len() ==> !s.workers.contains_key(
            #[trigger] batch.ids[i]@,
        ),
        forall|i: int, j: int|
            0 <= i < j < batch.ids.len() ==> #[trigger] batch.ids[i]@ != #[trigger] batch.ids[j]@,
    ensures
        s.batch_listed(batch.ids, n) == batch.ids.take(n as int),
        forall|i: int| 0 <= i < n ==> #[trigger] s.fresh(batch.ids, i),
        forall|i: int|
            0 <= i < n ==> s.batch_workers(batch, n, now)[#[trigger] batch.ids[i]@]
                == batch.worker(i, now),
    decreases n,
{
    if n == 0 {
        assert(s.batch_listed(batch.ids, n) =~= batch.ids.take(0));
    } else {
        let k = n - 1;
        lemma_fresh_batch(s, batch, k as nat, now);
        let before = batch.ids.take(k);
        assert(!holds(before, batch.ids[k]@)) by {
            assert forall|j: int| 0 <= j < before.len() implies #[trigger] before[j]@
                != batch.ids[k]@ by {
                assert(before[j] == batch.ids[j]);
            }
        }
        assert(s.fresh(batch.ids, k));
        assert(s.batch_listed(batch.ids, n) =~= batch.ids.take(n as int));
    }
}

} // verus!

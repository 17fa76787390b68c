//! Who is let in: for every call of the registry contract, just when it is allowed, and with which
//! error it is refused otherwise.

use vstd::prelude::*;

use super::delegates::has_delegate;
use super::laws::Op;
use super::verification::has_skill;
use super::workers::Batch;
use super::{
    role_id, DataKey, RegistryState, ROLE_ADMIN_ID, ROLE_CURATOR_MGR_ID, ROLE_PAUSER_ID,
    ROLE_REP_MGR_ID, ROLE_UPGRADER_ID,
};
use crate::error::ContractError;
use crate::host::Call;
use crate::list::holds;
use crate::roles::is_member;

verus! {

/// Whether `who` is on the list of curators.
pub open spec fn curates(s: RegistryState, who: Seq<char>) -> bool {
    exists|i: int| 0 <= i < s.curators.len() && #[trigger] s.curators[i]@ == who
}

/// Whether `who` owns the worker `id`, who is registered.
pub open spec fn owns(s: RegistryState, who: Seq<char>, id: Seq<char>) -> bool {
    s.workers.contains_key(id) && s.workers[id].owner@ == who
}

/// What a caller is told who needs the role `role`: that it is missing, or else that the contract
/// is paused.
pub open spec fn refusal(s: RegistryState, role: u64, caller: Seq<char>) -> ContractError {
    if is_member(s.roles, role, caller) {
        ContractError::ContractIsPaused
    } else {
        ContractError::MissingRole
    }
}

/// Initialising is allowed once. What the admin alone may do needs an admin, and a contract that is
/// not paused; replacing the code needs an admin who holds the upgrader's role, and is allowed also
/// while it is paused.
pub proof fn the_admin_is_needed(s: RegistryState)
    ensures
        match s.initialize_verdict() {
            Ok(_) => s.admin is None,
            Err(ContractError::AlreadyInitialized) => s.admin is Some,
            Err(_) => false,
        },
        match s.has_admin() {
            Ok(_) => s.admin is Some,
            Err(ContractError::NotInitialized) => s.admin is None,
            Err(_) => false,
        },
        match s.admin_verdict() {
            Ok(_) => s.admin is Some && !s.paused,
            Err(ContractError::NotInitialized) => s.admin is None,
            Err(ContractError::ContractIsPaused) => s.admin is Some && s.paused,
            Err(_) => false,
        },
        match s.upgrade_verdict() {
            Ok(_) => s.admin is Some && is_member(s.roles, ROLE_UPGRADER_ID, s.admin->0@),
            Err(ContractError::NotInitialized) => s.admin is None,
            Err(ContractError::MissingRole) => s.admin is Some && !is_member(
                s.roles,
                ROLE_UPGRADER_ID,
                s.admin->0@,
            ),
            Err(_) => false,
        },
        s.admin is None ==> s.admin_auth().len() == 0,
        s.admin is Some ==> s.admin_auth().len() == 1 && s.admin_auth()[0]
            == Call::<DataKey>::RequireAuth(s.admin->0),
        s.version() == if s.schema_version is Some {
            s.schema_version->0
        } else {
            1
        },
{
}

/// What needs a role is allowed to who holds it, while the contract is not paused; who does not is
/// told so first. A role can be revoked only from who holds it.
pub proof fn roles_are_needed(
    s: RegistryState,
    role: u64,
    caller: Seq<char>,
    name: Seq<char>,
    account: Seq<char>,
)
    ensures
        match s.managed(role, caller) {
            Ok(_) => is_member(s.roles, role, caller) && !s.paused,
            Err(ContractError::MissingRole) => !is_member(s.roles, role, caller),
            Err(ContractError::ContractIsPaused) => is_member(s.roles, role, caller) && s.paused,
            Err(_) => false,
        },
        ({
            let admin = is_member(s.roles, ROLE_ADMIN_ID, caller) && !s.paused;
            match s.revoke_verdict(caller, name, account) {
                Ok(_) => admin && is_member(s.roles, role_id(name), account),
                Err(e) => if admin {
                    !is_member(s.roles, role_id(name), account) && e
                        == ContractError::AccountDoesNotHoldRole
                } else {
                    e == refusal(s, ROLE_ADMIN_ID, caller)
                },
            }
        }),
{
}

/// Who holds the upgrader's role may propose new code, where none is pending, and withdraw what is;
/// anyone may install it from the end of its timelock on, and not before. All of that is refused
/// while the contract is paused.
pub proof fn upgrades_are_proposed_and_waited_for(
    s: RegistryState,
    caller: Seq<char>,
    sequence: u32,
)
    ensures
        ({
            let allowed = is_member(s.roles, ROLE_UPGRADER_ID, caller) && !s.paused;
            &&& match s.propose_verdict(caller) {
                Ok(_) => allowed && s.pending_upgrade is None,
                Err(e) => if allowed {
                    s.pending_upgrade is Some && e == ContractError::UpgradeAlreadyPending
                } else {
                    e == refusal(s, ROLE_UPGRADER_ID, caller)
                },
            }
            &&& match s.cancel_upgrade_verdict(caller) {
                Ok(_) => allowed && s.pending_upgrade is Some,
                Err(e) => if allowed {
                    s.pending_upgrade is None && e == ContractError::NoPendingUpgrade
                } else {
                    e == refusal(s, ROLE_UPGRADER_ID, caller)
                },
            }
            &&& match s.execute_verdict(sequence) {
                Ok(_) => !s.paused && s.pending_upgrade is Some && sequence
                    >= s.pending_upgrade->0.execute_after_ledger,
                Err(ContractError::ContractIsPaused) => s.paused,
                Err(ContractError::NoPendingUpgrade) => !s.paused && s.pending_upgrade is None,
                Err(ContractError::TimelockNotExpired) => !s.paused && s.pending_upgrade is Some
                    && sequence < s.pending_upgrade->0.execute_after_ledger,
                Err(_) => false,
            }
        }),
{
}

/// What belongs to the owner of a worker is allowed to the owner alone, where the worker is
/// registered. A delegate can be dismissed only who was named.
pub proof fn the_owner_is_let_in(
    s: RegistryState,
    id: Seq<char>,
    caller: Seq<char>,
    delegate: Seq<char>,
)
    ensures
        ({
            let owner = s.workers.contains_key(id) && s.workers[id].owner@ == caller;
            let named = s.delegates.contains_key(id) && exists|i: int|
                0 <= i < s.delegates[id].len() && #[trigger] s.delegates[id][i].address@
                    == delegate;
            &&& match s.worker_verdict(id) {
                Ok(_) => s.workers.contains_key(id),
                Err(ContractError::WorkerNotFound) => !s.workers.contains_key(id),
                Err(_) => false,
            }
            &&& match s.owner_verdict(id, caller) {
                Ok(_) => owner,
                Err(ContractError::WorkerNotFound) => !s.workers.contains_key(id),
                Err(ContractError::NotAuthorized) => s.workers.contains_key(id) && !owner,
                Err(_) => false,
            }
            &&& match s.owner_unpaused(id, caller) {
                Ok(_) => !s.paused && owner,
                Err(ContractError::ContractIsPaused) => s.paused,
                Err(ContractError::WorkerNotFound) => !s.paused && !s.workers.contains_key(id),
                Err(ContractError::NotAuthorized) => !s.paused && s.workers.contains_key(id)
                    && !owner,
                Err(_) => false,
            }
            &&& match s.remove_delegate_verdict(id, caller, delegate) {
                Ok(_) => !s.paused && owner && named,
                Err(ContractError::ContractIsPaused) => s.paused,
                Err(ContractError::WorkerNotFound) => !s.paused && !s.workers.contains_key(id),
                Err(ContractError::NotAuthorized) => !s.paused && s.workers.contains_key(id)
                    && !owner,
                Err(ContractError::DelegateNotFound) => !s.paused && owner && !named,
                Err(_) => false,
            }
        }),
{
    if s.delegates.contains_key(id) {
        assert(s.delegates_of(id) == s.delegates[id]);
    }
}

/// Who manages reputation may set and slash it, by at most 10 000, and record jobs, of workers who
/// are registered.
pub proof fn reputation_is_managed(s: RegistryState, caller: Seq<char>, id: Seq<char>, score: u32)
    ensures
        ({
            let allowed = is_member(s.roles, ROLE_REP_MGR_ID, caller) && !s.paused;
            let known = s.workers.contains_key(id);
            &&& match s.score_verdict(caller, id, score) {
                Ok(_) => allowed && score <= 10_000 && known,
                Err(ContractError::ScoreOutOfRange) => allowed && score > 10_000,
                Err(ContractError::WorkerNotFound) => allowed && score <= 10_000 && !known,
                Err(e) => !allowed && e == refusal(s, ROLE_REP_MGR_ID, caller),
            }
            &&& match s.job_verdict(caller, id) {
                Ok(_) => allowed && known,
                Err(ContractError::WorkerNotFound) => allowed && !known,
                Err(e) => !allowed && e == refusal(s, ROLE_REP_MGR_ID, caller),
            }
            &&& match s.metrics_verdict(caller, score) {
                Ok(_) => allowed && score <= 10_000,
                Err(ContractError::RatingOutOfRange) => allowed && score > 10_000,
                Err(e) => !allowed && e == refusal(s, ROLE_REP_MGR_ID, caller),
            }
        }),
{
}

/// Anyone may review a worker who is registered, with a rating of at most 10 000, while the
/// contract is not paused. Who holds the admin's role may set what is known of the reviews.
pub proof fn anyone_may_review(s: RegistryState, caller: Seq<char>, id: Seq<char>, rating: u32)
    ensures
        ({
            let known = s.workers.contains_key(id);
            let admin = is_member(s.roles, ROLE_ADMIN_ID, caller) && !s.paused;
            &&& match s.review_verdict(id, rating) {
                Ok(_) => !s.paused && rating <= 10_000 && known,
                Err(ContractError::ContractIsPaused) => s.paused,
                Err(ContractError::RatingOutOfRange) => !s.paused && rating > 10_000,
                Err(ContractError::WorkerNotFound) => !s.paused && rating <= 10_000 && !known,
                Err(_) => false,
            }
            &&& match s.update_reviews_verdict(caller, id, rating) {
                Ok(_) => admin && rating <= 10_000 && known,
                Err(ContractError::RatingOutOfRange) => admin && rating > 10_000,
                Err(ContractError::WorkerNotFound) => admin && rating <= 10_000 && !known,
                Err(e) => !admin && e == refusal(s, ROLE_ADMIN_ID, caller),
            }
        }),
{
}

/// Who holds the admin's role may set the subscription of a worker, to one of three tiers. The
/// owner may renew it, and whoever was named a delegate without an end or with one to come.
pub proof fn subscriptions_are_set_and_renewed(
    s: RegistryState,
    caller: Seq<char>,
    id: Seq<char>,
    tier: u32,
    now: u64,
)
    ensures
        ({
            let known = s.workers.contains_key(id);
            let admin = is_member(s.roles, ROLE_ADMIN_ID, caller) && !s.paused;
            let acts = s.workers[id].owner@ == caller || (s.delegates.contains_key(id) && exists|
                i: int,
            |
                0 <= i < s.delegates[id].len() && (#[trigger] s.delegates[id][i]).address@ == caller
                    && (s.delegates[id][i].expires_at == 0 || s.delegates[id][i].expires_at > now));
            &&& match s.subscribe_verdict(caller, id, tier) {
                Ok(_) => admin && tier < 3 && known,
                Err(ContractError::InvalidSubscriptionTier) => admin && tier >= 3,
                Err(ContractError::WorkerNotFound) => admin && tier < 3 && !known,
                Err(e) => !admin && e == refusal(s, ROLE_ADMIN_ID, caller),
            }
            &&& match s.renew_verdict(caller, id, now) {
                Ok(_) => !s.paused && known && acts,
                Err(ContractError::ContractIsPaused) => s.paused,
                Err(ContractError::WorkerNotFound) => !s.paused && !known,
                Err(ContractError::NotAuthorized) => !s.paused && known && !acts,
                Err(_) => false,
            }
        }),
{
    if s.delegates.contains_key(id) {
        assert(s.delegates_of(id) == s.delegates[id]);
        if exists|i: int|
            0 <= i < s.delegates[id].len() && (#[trigger] s.delegates[id][i]).address@ == caller && (
            s.delegates[id][i].expires_at == 0 || s.delegates[id][i].expires_at > now) {
            let i = choose|i: int|
                0 <= i < s.delegates[id].len() && (#[trigger] s.delegates[id][i]).address@ == caller
                    && (s.delegates[id][i].expires_at == 0 || s.delegates[id][i].expires_at > now);
            assert(s.delegates_of(id)[i].in_force(now));
        }
    }
}

/// Curators verify categories, anyone a location, and who manages curators vouches for levels and
/// skills, of workers who are registered. Only a skill that is certified can be revoked.
pub proof fn vouching_is_allowed(
    s: RegistryState,
    caller: Seq<char>,
    id: Seq<char>,
    skill: Seq<char>,
)
    ensures
        ({
            let known = s.workers.contains_key(id);
            let manages = is_member(s.roles, ROLE_CURATOR_MGR_ID, caller) && !s.paused;
            let certified = s.certified_skills.contains_key(id) && exists|i: int|
                0 <= i < s.certified_skills[id].len() && #[trigger] s.certified_skills[id][i].skill@
                    == skill;
            &&& match s.verify_category_verdict(caller, id) {
                Ok(_) => !s.paused && curates(s, caller) && known,
                Err(ContractError::ContractIsPaused) => s.paused,
                Err(ContractError::CallerIsNotCurator) => !s.paused && !curates(s, caller),
                Err(ContractError::WorkerNotFound) => !s.paused && curates(s, caller) && !known,
                Err(_) => false,
            }
            &&& match s.verify_location_verdict(id) {
                Ok(_) => !s.paused && known,
                Err(ContractError::ContractIsPaused) => s.paused,
                Err(ContractError::WorkerNotFound) => !s.paused && !known,
                Err(_) => false,
            }
            &&& match s.vouch_verdict(caller, id) {
                Ok(_) => manages && known,
                Err(ContractError::WorkerNotFound) => manages && !known,
                Err(e) => !manages && e == refusal(s, ROLE_CURATOR_MGR_ID, caller),
            }
            &&& match s.revoke_skill_verdict(caller, id, skill) {
                Ok(_) => manages && certified,
                Err(ContractError::SkillNotFound) => manages && !certified,
                Err(e) => !manages && e == refusal(s, ROLE_CURATOR_MGR_ID, caller),
            }
        }),
{
    if s.certified_skills.contains_key(id) {
        assert(s.skills_of(id) == s.certified_skills[id]);
    }
}

/// Curators register workers, of a category that is allowed, where any is set, and toggle and
/// register at most twenty in a batch, whose lists must be equally long.
pub proof fn curators_register(
    s: RegistryState,
    caller: Seq<char>,
    category: Seq<char>,
    count: nat,
    batch: Batch,
)
    ensures
        ({
            let curator = !s.paused && curates(s, caller);
            let allowed = s.categories.len() == 0 || exists|i: int|
                0 <= i < s.categories.len() && #[trigger] s.categories[i]@ == category;
            let n = batch.ids.len();
            let even = batch.owners.len() == n && batch.names.len() == n && batch.categories.len()
                == n && batch.location_hashes.len() == n && batch.contact_hashes.len() == n;
            &&& s.is_curator(caller) == curates(s, caller)
            &&& match s.register_verdict(caller, category) {
                Ok(_) => curator && allowed,
                Err(ContractError::ContractIsPaused) => s.paused,
                Err(ContractError::CallerIsNotCurator) => !s.paused && !curator,
                Err(ContractError::UnknownCategory) => curator && !allowed,
                Err(_) => false,
            }
            &&& match s.batch_toggle_verdict(caller, count) {
                Ok(_) => curator && count <= 20,
                Err(ContractError::ContractIsPaused) => s.paused,
                Err(ContractError::CallerIsNotCurator) => !s.paused && !curator,
                Err(ContractError::BatchTooLarge) => curator && count > 20,
                Err(_) => false,
            }
            &&& match s.batch_register_verdict(caller, batch) {
                Ok(_) => curator && n <= 20 && even,
                Err(ContractError::ContractIsPaused) => s.paused,
                Err(ContractError::CallerIsNotCurator) => !s.paused && !curator,
                Err(ContractError::BatchTooLarge) => curator && n > 20,
                Err(ContractError::MismatchedInputLengths) => curator && n <= 20 && !even,
                Err(_) => false,
            }
        }),
{
}

/// The owner of a worker may stake a positive amount, ask an active stake back, once, and get it
/// 604 800 seconds later, and not before, while the contract is not paused.
pub proof fn the_owner_may_stake_and_unstake(
    s: RegistryState,
    caller: Seq<char>,
    id: Seq<char>,
    amount: i128,
    now: u64,
)
    ensures
        ({
            let known = s.workers.contains_key(id);
            let owner = !s.paused && known && s.workers[id].owner@ == caller;
            let active = s.stakes.contains_key(id) && s.stakes[id].amount > 0;
            let asked = s.stakes[id].unstake_requested_at;
            &&& match s.stake_verdict(caller, id, amount) {
                Ok(_) => owner && amount > 0,
                Err(ContractError::ContractIsPaused) => s.paused,
                Err(ContractError::AmountMustBePositive) => !s.paused && amount <= 0,
                Err(ContractError::WorkerNotFound) => !s.paused && amount > 0 && !known,
                Err(ContractError::NotAuthorized) => !s.paused && amount > 0 && known && !owner,
                Err(_) => false,
            }
            &&& match s.request_unstake_verdict(caller, id) {
                Ok(_) => owner && active && asked == 0,
                Err(ContractError::ContractIsPaused) => s.paused,
                Err(ContractError::WorkerNotFound) => !s.paused && !known,
                Err(ContractError::NotAuthorized) => !s.paused && known && !owner,
                Err(ContractError::NoActiveStake) => owner && !active,
                Err(ContractError::UnstakeAlreadyRequested) => owner && active && asked != 0,
                Err(_) => false,
            }
            &&& match s.requested_verdict(caller, id) {
                Ok(_) => owner && active && asked != 0,
                Err(ContractError::ContractIsPaused) => s.paused,
                Err(ContractError::WorkerNotFound) => !s.paused && !known,
                Err(ContractError::NotAuthorized) => !s.paused && known && !owner,
                Err(ContractError::NoActiveStake) => owner && !active,
                Err(ContractError::UnstakeNotRequested) => owner && active && asked == 0,
                Err(_) => false,
            }
            &&& match s.unstake_verdict(caller, id, now) {
                Ok(_) => owner && active && asked != 0 && now >= asked + 604_800,
                Err(ContractError::ContractIsPaused) => s.paused,
                Err(ContractError::WorkerNotFound) => !s.paused && !known,
                Err(ContractError::NotAuthorized) => !s.paused && known && !owner,
                Err(ContractError::NoActiveStake) => owner && !active,
                Err(ContractError::UnstakeNotRequested) => owner && active && asked == 0,
                Err(ContractError::CooldownNotElapsed) => owner && active && asked != 0 && now
                    < asked + 604_800,
                Err(_) => false,
            }
        }),
{
}

/// Who holds the admin's role, or is a curator, may award badges to workers who are registered; the
/// former, and who awarded a badge, may revoke it. Both are refused while the contract is paused.
pub proof fn badges_are_awarded_and_revoked(
    s: RegistryState,
    caller: Seq<char>,
    id: Seq<char>,
    badge: Seq<char>,
)
    ensures
        ({
            let admin = is_member(s.roles, ROLE_ADMIN_ID, caller);
            let issuer = admin || curates(s, caller);
            let there = s.badges.contains_key((id, badge));
            let may = admin || s.badges[(id, badge)].issuer@ == caller;
            &&& s.is_admin(caller) == admin
            &&& match s.award_verdict(caller, id) {
                Ok(_) => !s.paused && issuer && s.workers.contains_key(id),
                Err(ContractError::ContractIsPaused) => s.paused,
                Err(ContractError::NotAuthorized) => !s.paused && !issuer,
                Err(ContractError::WorkerNotFound) => !s.paused && issuer
                    && !s.workers.contains_key(id),
                Err(_) => false,
            }
            &&& match s.revoke_badge_verdict(caller, (id, badge)) {
                Ok(_) => !s.paused && there && may,
                Err(ContractError::ContractIsPaused) => s.paused,
                Err(ContractError::BadgeNotFound) => !s.paused && !there,
                Err(ContractError::NotAuthorized) => !s.paused && there && !may,
                Err(_) => false,
            }
        }),
{
}

/// Who may call what: every call is let in just where the caller has the part or the role that it
/// takes, what it names is there, its numbers are in range, and the contract is not paused, as far
/// as that matters.
pub proof fn every_call_is_let_in_just_where_it_may(
    s: RegistryState,
    op: Op,
    now: u64,
    sequence: u32,
)
    ensures
        ({
            let open = !s.paused;
            s.verdict(op, now, sequence) is Ok <==> match op {
                Op::Initialize { .. } => s.admin is None,
                Op::GrantRole { caller, .. } => open && is_member(s.roles, ROLE_ADMIN_ID, caller@),
                Op::RevokeRole { caller, role, account } => open && is_member(
                    s.roles,
                    ROLE_ADMIN_ID,
                    caller@,
                ) && is_member(s.roles, role_id(role@), account@),
                Op::AddDelegate { id, owner, .. } => open && owns(s, owner@, id@),
                Op::RemoveDelegate { id, owner, delegate } => open && owns(s, owner@, id@)
                    && has_delegate(s.delegates_of(id@), delegate@),
                Op::Pause { caller } => is_member(s.roles, ROLE_PAUSER_ID, caller@),
                Op::Unpause { caller } => is_member(s.roles, ROLE_PAUSER_ID, caller@),
                Op::AddCurator { caller, .. } => open && is_member(
                    s.roles,
                    ROLE_CURATOR_MGR_ID,
                    caller@,
                ),
                Op::RemoveCurator { caller, .. } => open && is_member(
                    s.roles,
                    ROLE_CURATOR_MGR_ID,
                    caller@,
                ),
                Op::Register { curator, category, .. } => open && curates(s, curator@) && (
                s.categories.len() == 0 || holds(s.categories, category@)),
                Op::Toggle { id, caller } => open && owns(s, caller@, id@),
                Op::Update { id, caller, .. } => open && owns(s, caller@, id@),
                Op::UpdateWorker { id, caller, .. } => open && owns(s, caller@, id@),
                Op::Deregister { id, caller } => open && owns(s, caller@, id@),
                Op::SetAdmin { .. } => open && s.admin is Some,
                Op::UpdateReputation { caller, id, score } => open && is_member(
                    s.roles,
                    ROLE_REP_MGR_ID,
                    caller@,
                ) && score <= 10_000 && s.workers.contains_key(id@),
                Op::SubmitReview { id, rating, .. } => open && rating <= 10_000
                    && s.workers.contains_key(id@),
                Op::RecordJob { caller, id, .. } => open && is_member(
                    s.roles,
                    ROLE_REP_MGR_ID,
                    caller@,
                ) && s.workers.contains_key(id@),
                Op::SlashReputation { caller, id, slash_bps } => open && is_member(
                    s.roles,
                    ROLE_REP_MGR_ID,
                    caller@,
                ) && slash_bps <= 10_000 && s.workers.contains_key(id@),
                Op::UpdateReviews { caller, id, avg_rating, .. } => open && is_member(
                    s.roles,
                    ROLE_ADMIN_ID,
                    caller@,
                ) && avg_rating <= 10_000 && s.workers.contains_key(id@),
                Op::UpdateSubscription { caller, id, tier, .. } => open && is_member(
                    s.roles,
                    ROLE_ADMIN_ID,
                    caller@,
                ) && tier < 3 && s.workers.contains_key(id@),
                Op::RenewSubscription { caller, id, .. } => open && s.workers.contains_key(id@) && (
                s.workers[id@].owner@ == caller@ || s.delegated(id@, caller@, now)),
                Op::VerifyCategory { curator, id, .. } => open && curates(s, curator@)
                    && s.workers.contains_key(id@),
                Op::VerifyLocation { id, .. } => open && s.workers.contains_key(id@),
                Op::UpdateAvailability { id, caller, .. } => open && owns(s, caller@, id@),
                Op::BatchToggle { caller, ids } => open && curates(s, caller@) && ids.len() <= 20,
                Op::BatchRegister { curator, batch } => open && curates(s, curator@)
                    && batch.ids.len() <= 20 && batch.even(),
                Op::Stake { caller, id, amount, .. } => open && owns(s, caller@, id@) && amount > 0,
                Op::RequestUnstake { caller, id } => open && owns(s, caller@, id@)
                    && s.stakes.contains_key(id@) && s.stakes[id@].amount > 0
                    && s.stakes[id@].unstake_requested_at == 0,
                Op::Unstake { caller, id } => open && owns(s, caller@, id@)
                    && s.stakes.contains_key(id@) && s.stakes[id@].amount > 0
                    && s.stakes[id@].unstake_requested_at != 0 && now
                    >= s.stakes[id@].unstake_requested_at + 604_800,
                Op::UpdateMetrics { caller, rating, .. } => open && is_member(
                    s.roles,
                    ROLE_REP_MGR_ID,
                    caller@,
                ) && rating <= 10_000,
                Op::AwardBadge { issuer, id, .. } => open && (is_member(
                    s.roles,
                    ROLE_ADMIN_ID,
                    issuer@,
                ) || curates(s, issuer@)) && s.workers.contains_key(id@),
                Op::RevokeBadge { caller, id, badge_id } => open && s.badges.contains_key(
                    (id@, badge_id@),
                ) && (is_member(s.roles, ROLE_ADMIN_ID, caller@) || s.badges[(
                    id@,
                    badge_id@,
                )].issuer@ == caller@),
                Op::AddCategory { caller, .. } => open && is_member(s.roles, ROLE_ADMIN_ID, caller@),
                Op::RemoveCategory { caller, .. } => open && is_member(
                    s.roles,
                    ROLE_ADMIN_ID,
                    caller@,
                ),
                Op::ProposeUpgrade { caller, .. } => open && is_member(
                    s.roles,
                    ROLE_UPGRADER_ID,
                    caller@,
                ) && s.pending_upgrade is None,
                Op::ExecuteUpgrade {  } => open && s.pending_upgrade is Some && sequence
                    >= s.pending_upgrade->0.execute_after_ledger,
                Op::CancelUpgrade { caller } => open && is_member(
                    s.roles,
                    ROLE_UPGRADER_ID,
                    caller@,
                ) && s.pending_upgrade is Some,
                Op::SetLevel { caller, id, .. } => open && is_member(
                    s.roles,
                    ROLE_CURATOR_MGR_ID,
                    caller@,
                ) && s.workers.contains_key(id@),
                Op::AddSkill { caller, id, .. } => open && is_member(
                    s.roles,
                    ROLE_CURATOR_MGR_ID,
                    caller@,
                ) && s.workers.contains_key(id@),
                Op::RevokeSkill { caller, id, skill } => open && is_member(
                    s.roles,
                    ROLE_CURATOR_MGR_ID,
                    caller@,
                ) && has_skill(s.skills_of(id@), skill@),
            }
        }),
{
}

} // verus!

//! The registry contract: workers, curators, reputation, stakes and badges.
//!
//! - Admin: set once by [`RegistryContract::initialize`]; grants and revokes roles.
//! - Curators: approved addresses that register workers.
//! - Owners: a worker's owner may change, stake for or deregister the worker, and name delegates
//!   who may renew the subscription.
//!
//! No personal data is kept: a worker's location and contact are digests.

use vstd::prelude::*;

use crate::error::ContractError;
use crate::host::Call;
use crate::list;
use crate::list::holds;
use crate::roles::{both, pause_verdict, refuse_if, role_verdict, Roles};
use crate::table::Table;
use crate::values::{Address, Dup, Hash32, Pair, Symbol};

pub mod admin;
pub mod answers;
pub mod badges;
pub mod changes;
pub mod delegates;
pub mod figures;
pub mod laws;
pub mod listings;
pub mod metrics;
pub mod ratings;
pub mod reputation;
pub mod scoring;
pub mod staking;
pub mod subscription;
pub mod verification;
pub mod workers;

verus! {

/// Version of the event schema.
pub const VERSION: u32 = 1;

/// How long an entry is kept alive: about a year of ledgers.
pub const TTL_EXTEND_TO: u32 = 535_000;

/// An entry is kept alive once less than this is left: about six months of ledgers.
pub const TTL_THRESHOLD: u32 = 267_500;

/// Highest reputation score, rating and slash.
pub const MAX_SCORE: u32 = 10_000;

/// Grants and revokes roles, and manages categories, reviews and subscriptions.
pub const ROLE_ADMIN: &'static str = "admin";

/// Pauses and unpauses.
pub const ROLE_PAUSER: &'static str = "pauser";

/// Manages curators, verification levels and certified skills.
pub const ROLE_CURATOR_MGR: &'static str = "curator_mgr";

/// Manages reputation and metrics.
pub const ROLE_REP_MGR: &'static str = "rep_mgr";

/// Replaces the contract's code.
pub const ROLE_UPGRADER: &'static str = "upgrader";

pub const ROLE_ADMIN_ID: u64 = 0;

pub const ROLE_PAUSER_ID: u64 = 1;

pub const ROLE_CURATOR_MGR_ID: u64 = 2;

pub const ROLE_REP_MGR_ID: u64 = 3;

pub const ROLE_UPGRADER_ID: u64 = 4;

/// The id under which the members of a role are kept. Unknown roles share one id.
pub open spec fn role_id(role: Seq<char>) -> u64 {
    if role == ROLE_ADMIN@ {
        ROLE_ADMIN_ID
    } else if role == ROLE_PAUSER@ {
        ROLE_PAUSER_ID
    } else if role == ROLE_CURATOR_MGR@ {
        ROLE_CURATOR_MGR_ID
    } else if role == ROLE_REP_MGR@ {
        ROLE_REP_MGR_ID
    } else if role == ROLE_UPGRADER@ {
        ROLE_UPGRADER_ID
    } else {
        u64::MAX
    }
}

/// The id under which the members of `role` are kept.
pub fn role_to_id(role: &Symbol) -> (r: u64)
    ensures
        r == role_id(role@),
{
    if role.is(ROLE_ADMIN) {
        ROLE_ADMIN_ID
    } else if role.is(ROLE_PAUSER) {
        ROLE_PAUSER_ID
    } else if role.is(ROLE_CURATOR_MGR) {
        ROLE_CURATOR_MGR_ID
    } else if role.is(ROLE_REP_MGR) {
        ROLE_REP_MGR_ID
    } else if role.is(ROLE_UPGRADER) {
        ROLE_UPGRADER_ID
    } else {
        u64::MAX
    }
}

/// Tier of a worker's subscription.
#[derive(Debug, Clone, Copy, PartialEq, Eq, Structural)]
pub enum SubscriptionTier {
    Free,
    Basic,
    Premium,
}

/// How far a worker has been verified.
#[derive(Debug, Clone, Copy, PartialEq, Eq, Structural)]
pub enum VerificationLevel {
    Unverified,
    Basic,
    Verified,
    Expert,
}

impl View for VerificationLevel {
    type V = VerificationLevel;

    open spec fn view(&self) -> VerificationLevel {
        *self
    }
}

impl VerificationLevel {
    /// The number that stands for the level in events.
    pub open spec fn number(self) -> u32 {
        match self {
            VerificationLevel::Unverified => 0,
            VerificationLevel::Basic => 1,
            VerificationLevel::Verified => 2,
            VerificationLevel::Expert => 3,
        }
    }

    /// The number that stands for the level in events.
    pub fn to_number(self) -> (r: u32)
        ensures
            r == self.number(),
    {
        match self {
            VerificationLevel::Unverified => 0,
            VerificationLevel::Basic => 1,
            VerificationLevel::Verified => 2,
            VerificationLevel::Expert => 3,
        }
    }
}

/// Someone who may act for a worker's owner.
#[derive(Debug, PartialEq, Eq)]
pub struct Delegate {
    /// Who.
    pub address: Address,
    /// When the delegation ends; never, where zero.
    pub expires_at: u64,
}

impl Clone for Delegate {
    fn clone(&self) -> (r: Self)
        ensures
            r == *self,
    {
        Delegate {
            address: self.address.clone(),
            expires_at: self.expires_at,
        }
    }
}

impl Dup for Delegate {
    fn dup(&self) -> (r: Self) {
        self.clone()
    }
}

/// A worker's subscription.
#[derive(Debug, PartialEq, Eq)]
pub struct WorkerSubscription {
    /// Its tier.
    pub tier: SubscriptionTier,
    /// When it ends.
    pub expires_at: u64,
    /// When it was last set or renewed.
    pub last_renewed_at: u64,
}

impl Clone for WorkerSubscription {
    fn clone(&self) -> (r: Self)
        ensures
            r == *self,
    {
        WorkerSubscription {
            tier: self.tier,
            expires_at: self.expires_at,
            last_renewed_at: self.last_renewed_at,
        }
    }
}

/// What a worker's reputation is computed from.
#[derive(Debug, PartialEq, Eq)]
pub struct ReputationInputs {
    /// Completed jobs.
    pub tip_count: u32,
    /// Sum of all ratings.
    pub rating_sum: u64,
    /// Number of ratings.
    pub rating_count: u32,
    /// Time of the last review.
    pub last_review_at: u64,
}

impl Clone for ReputationInputs {
    fn clone(&self) -> (r: Self)
        ensures
            r == *self,
    {
        ReputationInputs {
            tip_count: self.tip_count,
            rating_sum: self.rating_sum,
            rating_count: self.rating_count,
            last_review_at: self.last_review_at,
        }
    }
}

impl View for ReputationInputs {
    type V = ReputationInputs;

    open spec fn view(&self) -> ReputationInputs {
        *self
    }
}

/// One change of a worker's reputation.
#[derive(Debug, PartialEq, Eq)]
pub struct ReputationEvent {
    /// The score before.
    pub previous_score: u32,
    /// The score after.
    pub new_score: u32,
    /// Why it changed: `manual`, `review`, `slash` or `job_comp`.
    pub reason: &'static str,
}

impl Clone for ReputationEvent {
    fn clone(&self) -> (r: Self)
        ensures
            r == *self,
    {
        ReputationEvent {
            previous_score: self.previous_score,
            new_score: self.new_score,
            reason: self.reason,
        }
    }
}

impl Dup for ReputationEvent {
    fn dup(&self) -> (r: Self) {
        self.clone()
    }
}

/// A curator's word for a worker's category.
#[derive(Debug, PartialEq, Eq)]
pub struct CategoryVerification {
    /// The category.
    pub category: Symbol,
    /// Who verified it.
    pub curator: Address,
    /// When the verification ends.
    pub expires_at: u64,
}

impl Clone for CategoryVerification {
    fn clone(&self) -> (r: Self)
        ensures
            r == *self,
    {
        CategoryVerification {
            category: self.category.clone(),
            curator: self.curator.clone(),
            expires_at: self.expires_at,
        }
    }
}

impl View for CategoryVerification {
    type V = CategoryVerification;

    open spec fn view(&self) -> CategoryVerification {
        *self
    }
}

/// Someone's word for a worker's location.
#[derive(Debug, PartialEq, Eq)]
pub struct LocationVerification {
    /// Who verified it.
    pub verifier: Address,
    /// When.
    pub verified_at: u64,
    /// When the verification ends.
    pub expires_at: u64,
}

impl Clone for LocationVerification {
    fn clone(&self) -> (r: Self)
        ensures
            r == *self,
    {
        LocationVerification {
            verifier: self.verifier.clone(),
            verified_at: self.verified_at,
            expires_at: self.expires_at,
        }
    }
}

impl View for LocationVerification {
    type V = LocationVerification;

    open spec fn view(&self) -> LocationVerification {
        *self
    }
}

/// Whether a worker can be hired.
#[derive(Debug, PartialEq, Eq)]
pub struct AvailabilityStatus {
    /// Whether the worker is available.
    pub is_available: bool,
    /// When that was said.
    pub updated_at: u64,
    /// Until when it holds.
    pub expires_at: u64,
}

impl Clone for AvailabilityStatus {
    fn clone(&self) -> (r: Self)
        ensures
            r == *self,
    {
        AvailabilityStatus {
            is_available: self.is_available,
            updated_at: self.updated_at,
            expires_at: self.expires_at,
        }
    }
}

impl View for AvailabilityStatus {
    type V = AvailabilityStatus;

    open spec fn view(&self) -> AvailabilityStatus {
        *self
    }
}

/// Tokens staked for a worker.
#[derive(Debug, PartialEq, Eq)]
pub struct StakeInfo {
    /// Token contract.
    pub token: Address,
    /// Amount at stake.
    pub amount: i128,
    /// When the stake was asked back; zero, where it was not.
    pub unstake_requested_at: u64,
    /// Rewards earned so far.
    pub rewards_accumulated: i128,
    /// Time up to which rewards are counted.
    pub last_reward_ledger: u64,
}

impl Clone for StakeInfo {
    fn clone(&self) -> (r: Self)
        ensures
            r == *self,
    {
        StakeInfo {
            token: self.token.clone(),
            amount: self.amount,
            unstake_requested_at: self.unstake_requested_at,
            rewards_accumulated: self.rewards_accumulated,
            last_reward_ledger: self.last_reward_ledger,
        }
    }
}

impl View for StakeInfo {
    type V = StakeInfo;

    open spec fn view(&self) -> StakeInfo {
        *self
    }
}

/// A worker's performance.
#[derive(Debug, PartialEq, Eq)]
pub struct PerformanceMetrics {
    /// Completed jobs.
    pub jobs_completed: u32,
    /// Average rating.
    pub avg_rating: u32,
    /// Number of ratings.
    pub total_ratings: u32,
    /// When the metrics were last set.
    pub last_updated: u64,
    /// Score computed from the rest.
    pub performance_score: u32,
}

impl Clone for PerformanceMetrics {
    fn clone(&self) -> (r: Self)
        ensures
            r == *self,
    {
        PerformanceMetrics {
            jobs_completed: self.jobs_completed,
            avg_rating: self.avg_rating,
            total_ratings: self.total_ratings,
            last_updated: self.last_updated,
            performance_score: self.performance_score,
        }
    }
}

impl View for PerformanceMetrics {
    type V = PerformanceMetrics;

    open spec fn view(&self) -> PerformanceMetrics {
        *self
    }
}

/// A badge awarded to a worker.
#[derive(Debug, PartialEq, Eq)]
pub struct Badge {
    /// Identifier.
    pub id: Symbol,
    /// Name.
    pub name: String,
    /// Who awarded it.
    pub issuer: Address,
    /// When.
    pub awarded_at: u64,
    /// When it ends; never, where zero.
    pub expires_at: u64,
    /// Whether it has not been revoked.
    pub active: bool,
}

impl Clone for Badge {
    fn clone(&self) -> (r: Self)
        ensures
            r == *self,
    {
        Badge {
            id: self.id.clone(),
            name: self.name.clone(),
            issuer: self.issuer.clone(),
            awarded_at: self.awarded_at,
            expires_at: self.expires_at,
            active: self.active,
        }
    }
}

impl View for Badge {
    type V = Badge;

    open spec fn view(&self) -> Badge {
        *self
    }
}

/// A skill certified for a worker.
#[derive(Debug, PartialEq, Eq)]
pub struct CertifiedSkill {
    /// The skill.
    pub skill: Symbol,
    /// Who certified it.
    pub certified_by: Address,
    /// When.
    pub certified_at: u64,
    /// When the certificate ends.
    pub expires_at: u64,
}

impl Clone for CertifiedSkill {
    fn clone(&self) -> (r: Self)
        ensures
            r == *self,
    {
        CertifiedSkill {
            skill: self.skill.clone(),
            certified_by: self.certified_by.clone(),
            certified_at: self.certified_at,
            expires_at: self.expires_at,
        }
    }
}

impl Dup for CertifiedSkill {
    fn dup(&self) -> (r: Self) {
        self.clone()
    }
}

/// New code that waits for its timelock.
#[derive(Debug, PartialEq, Eq)]
pub struct PendingUpgrade {
    /// Digest of the code.
    pub wasm_hash: Hash32,
    /// First ledger in which it may be installed.
    pub execute_after_ledger: u32,
}

impl Clone for PendingUpgrade {
    fn clone(&self) -> (r: Self)
        ensures
            r == *self,
    {
        PendingUpgrade {
            wasm_hash: self.wasm_hash,
            execute_after_ledger: self.execute_after_ledger,
        }
    }
}

/// What became of one worker of a batch.
#[derive(Debug, PartialEq, Eq)]
pub struct BatchRegisterResult {
    /// The worker.
    pub id: Symbol,
    /// Whether the worker was registered.
    pub success: bool,
}

impl Clone for BatchRegisterResult {
    fn clone(&self) -> (r: Self)
        ensures
            r == *self,
    {
        BatchRegisterResult {
            id: self.id.clone(),
            success: self.success,
        }
    }
}

/// A registered worker.
#[derive(Debug, PartialEq, Eq)]
pub struct Worker {
    /// Identifier.
    pub id: Symbol,
    /// Who owns the profile.
    pub owner: Address,
    /// Display name.
    pub name: String,
    /// Trade.
    pub category: Symbol,
    /// Whether the profile is active.
    pub is_active: bool,
    /// Where payments go.
    pub wallet: Address,
    /// Digest of the location.
    pub location_hash: Hash32,
    /// Digest of the contact details.
    pub contact_hash: Hash32,
    /// Reputation score.
    pub reputation: u32,
    /// Categories that a curator has verified.
    pub verified_categories: Vec<Symbol>,
    /// Tokens at stake.
    pub staked_amount: i128,
    /// Number of reviews.
    pub review_count: u32,
    /// Average rating.
    pub avg_rating: u32,
    /// Subscription.
    pub subscription: WorkerSubscription,
}

/// What a [`Worker`] stands for.
#[verifier::ext_equal]
pub struct WorkerView {
    pub id: Symbol,
    pub owner: Address,
    pub name: String,
    pub category: Symbol,
    pub is_active: bool,
    pub wallet: Address,
    pub location_hash: Hash32,
    pub contact_hash: Hash32,
    pub reputation: u32,
    pub verified_categories: Seq<Symbol>,
    pub staked_amount: i128,
    pub review_count: u32,
    pub avg_rating: u32,
    pub subscription: WorkerSubscription,
}

impl View for Worker {
    type V = WorkerView;

    open spec fn view(&self) -> WorkerView {
        WorkerView {
            id: self.id,
            owner: self.owner,
            name: self.name,
            category: self.category,
            is_active: self.is_active,
            wallet: self.wallet,
            location_hash: self.location_hash,
            contact_hash: self.contact_hash,
            reputation: self.reputation,
            verified_categories: self.verified_categories@,
            staked_amount: self.staked_amount,
            review_count: self.review_count,
            avg_rating: self.avg_rating,
            subscription: self.subscription,
        }
    }
}

impl Clone for Worker {
    fn clone(&self) -> (r: Self)
        ensures
            r@ == self@,
    {
        Worker {
            id: self.id.clone(),
            owner: self.owner.clone(),
            name: self.name.clone(),
            category: self.category.clone(),
            is_active: self.is_active,
            wallet: self.wallet.clone(),
            location_hash: self.location_hash,
            contact_hash: self.contact_hash,
            reputation: self.reputation,
            verified_categories: list::copy(&self.verified_categories),
            staked_amount: self.staked_amount,
            review_count: self.review_count,
            avg_rating: self.avg_rating,
            subscription: self.subscription.clone(),
        }
    }
}

/// One page of the list of workers.
#[derive(Debug, PartialEq, Eq)]
pub struct WorkerPage {
    /// The ids on the page.
    pub ids: Vec<Symbol>,
    /// Number of workers counted.
    pub total: u32,
}

/// Entries of the contract's storage.
#[derive(Debug, PartialEq, Eq)]
pub enum DataKey {
    /// Admin address.
    Admin,
    /// Paused flag.
    Paused,
    /// Version of the storage schema.
    SchemaVersion,
    /// Members of a role.
    RoleMembers(u64),
    /// Approved curators.
    Curators,
    /// A worker.
    Worker(Symbol),
    /// Ids of all workers.
    WorkerList,
    /// Number of workers counted.
    WorkerCount,
    /// Delegates of a worker's owner.
    Delegates(Symbol),
    /// What a worker's reputation is computed from.
    ReputationInputs(Symbol),
    /// Changes of a worker's reputation.
    ReputationHistory(Symbol),
    /// Verification of a worker's category.
    CategoryVerification(Symbol, Symbol),
    /// Verification of a worker's location.
    LocationVerification(Symbol),
    /// Whether a worker can be hired.
    AvailabilityStatus(Symbol),
    /// Stake of a worker.
    StakeInfo(Symbol),
    /// Performance of a worker.
    PerformanceMetrics(Symbol),
    /// A badge of a worker.
    Badge(Symbol, Symbol),
    /// Ids of a worker's badges.
    WorkerBadges(Symbol),
    /// Categories that workers may have.
    Categories,
    /// New code that waits for its timelock.
    PendingUpgrade,
    /// How far a worker has been verified.
    VerificationLevel(Symbol),
    /// Certified skills of a worker.
    CertifiedSkills(Symbol),
}

/// The registry contract, with what it keeps in storage.
#[derive(Debug)]
pub struct RegistryContract {
    pub admin: Option<Address>,
    pub paused: bool,
    pub schema_version: Option<u32>,
    pub roles: Roles,
    pub curators: Vec<Address>,
    pub workers: Table<Symbol, Worker>,
    pub worker_list: Vec<Symbol>,
    pub worker_count: u32,
    pub delegates: Table<Symbol, Vec<Delegate>>,
    pub reputation_inputs: Table<Symbol, ReputationInputs>,
    pub reputation_history: Table<Symbol, Vec<ReputationEvent>>,
    pub category_verifications: Table<Pair, CategoryVerification>,
    pub location_verifications: Table<Symbol, LocationVerification>,
    pub availability: Table<Symbol, AvailabilityStatus>,
    pub stakes: Table<Symbol, StakeInfo>,
    pub metrics: Table<Symbol, PerformanceMetrics>,
    pub badges: Table<Pair, Badge>,
    pub worker_badges: Table<Symbol, Vec<Symbol>>,
    pub categories: Vec<Symbol>,
    pub pending_upgrade: Option<PendingUpgrade>,
    pub verification_levels: Table<Symbol, VerificationLevel>,
    pub certified_skills: Table<Symbol, Vec<CertifiedSkill>>,
}

/// What a [`RegistryContract`] stands for.
#[verifier::ext_equal]
pub struct RegistryState {
    pub admin: Option<Address>,
    pub paused: bool,
    pub schema_version: Option<u32>,
    pub roles: Map<u64, Seq<Address>>,
    pub curators: Seq<Address>,
    pub workers: Map<Seq<char>, WorkerView>,
    pub worker_list: Seq<Symbol>,
    pub worker_count: u32,
    pub delegates: Map<Seq<char>, Seq<Delegate>>,
    pub reputation_inputs: Map<Seq<char>, ReputationInputs>,
    pub reputation_history: Map<Seq<char>, Seq<ReputationEvent>>,
    pub category_verifications: Map<(Seq<char>, Seq<char>), CategoryVerification>,
    pub location_verifications: Map<Seq<char>, LocationVerification>,
    pub availability: Map<Seq<char>, AvailabilityStatus>,
    pub stakes: Map<Seq<char>, StakeInfo>,
    pub metrics: Map<Seq<char>, PerformanceMetrics>,
    pub badges: Map<(Seq<char>, Seq<char>), Badge>,
    pub worker_badges: Map<Seq<char>, Seq<Symbol>>,
    pub categories: Seq<Symbol>,
    pub pending_upgrade: Option<PendingUpgrade>,
    pub verification_levels: Map<Seq<char>, VerificationLevel>,
    pub certified_skills: Map<Seq<char>, Seq<CertifiedSkill>>,
}

impl View for RegistryContract {
    type V = RegistryState;

    open spec fn view(&self) -> RegistryState {
        RegistryState {
            admin: self.admin,
            paused: self.paused,
            schema_version: self.schema_version,
            roles: self.roles@,
            curators: self.curators@,
            workers: self.workers@,
            worker_list: self.worker_list@,
            worker_count: self.worker_count,
            delegates: self.delegates@,
            reputation_inputs: self.reputation_inputs@,
            reputation_history: self.reputation_history@,
            category_verifications: self.category_verifications@,
            location_verifications: self.location_verifications@,
            availability: self.availability@,
            stakes: self.stakes@,
            metrics: self.metrics@,
            badges: self.badges@,
            worker_badges: self.worker_badges@,
            categories: self.categories@,
            pending_upgrade: self.pending_upgrade,
            verification_levels: self.verification_levels@,
            certified_skills: self.certified_skills@,
        }
    }
}

/// What is kept under `k`, where anything is.
pub open spec fn at<K, V>(m: Map<K, V>, k: K) -> Option<V> {
    if m.contains_key(k) {
        Some(m[k])
    } else {
        None
    }
}

/// The list kept under `k`; empty, where there is none.
pub open spec fn list_at<K, T>(m: Map<K, Seq<T>>, k: K) -> Seq<T> {
    if m.contains_key(k) {
        m[k]
    } else {
        Seq::empty()
    }
}

impl RegistryState {
    /// Every worker is kept under its own id and is listed, no more workers are counted than
    /// listed, ratings and scores stay in range, and stakes and rewards are not negative.
    pub open spec fn wf(self) -> bool {
        &&& self.worker_count <= self.worker_list.len() <= u32::MAX
        &&& forall|id: Seq<char>| #[trigger]
            self.workers.contains_key(id) ==> self.workers[id].id@ == id && holds(
                self.worker_list,
                id,
            ) && self.workers[id].avg_rating <= MAX_SCORE && self.workers[id].reputation
                <= MAX_SCORE
        &&& forall|id: Seq<char>| #[trigger]
            self.reputation_inputs.contains_key(id) ==> self.reputation_inputs[id].rating_sum
                <= 10_000 * self.reputation_inputs[id].rating_count
        &&& self.stakes.dom().finite()
        &&& forall|id: Seq<char>| #[trigger]
            self.stakes.contains_key(id) ==> self.stakes[id].amount >= 0
                && self.stakes[id].rewards_accumulated >= 0
        &&& forall|id: Seq<char>| #[trigger]
            self.metrics.contains_key(id) ==> self.metrics[id].avg_rating <= MAX_SCORE
                && self.metrics[id].performance_score <= MAX_SCORE
    }

    /// What an entry point answers that needs nothing but an admin.
    pub open spec fn has_admin(self) -> Result<(), ContractError> {
        refuse_if(self.admin is None, ContractError::NotInitialized)
    }

    /// What an entry point answers that needs nothing but an admin, and is refused while paused.
    pub open spec fn admin_verdict(self) -> Result<(), ContractError> {
        both(self.has_admin(), pause_verdict(self.paused))
    }

    /// The authorisation that is demanded of the admin, where there is one.
    pub open spec fn admin_auth(self) -> Seq<Call<DataKey>> {
        match self.admin {
            Some(admin) => seq![Call::RequireAuth(admin)],
            None => seq![],
        }
    }

    /// The version of the storage schema; the first, where none was written.
    pub open spec fn version(self) -> u32 {
        match self.schema_version {
            Some(v) => v,
            None => 1,
        }
    }

    /// What an entry point answers that needs a role, and is refused while paused.
    pub open spec fn managed(self, role: u64, caller: Seq<char>) -> Result<(), ContractError> {
        both(role_verdict(self.roles, role, caller), pause_verdict(self.paused))
    }

    /// Whether `who` is a curator.
    pub open spec fn is_curator(self, who: Seq<char>) -> bool {
        holds(self.curators, who)
    }

    /// What an entry point answers that needs nothing but the worker `id`.
    pub open spec fn worker_verdict(self, id: Seq<char>) -> Result<(), ContractError> {
        refuse_if(!self.workers.contains_key(id), ContractError::WorkerNotFound)
    }

    /// What an entry point answers that only the owner of the worker `id` may call.
    pub open spec fn owner_verdict(self, id: Seq<char>, caller: Seq<char>) -> Result<
        (),
        ContractError,
    > {
        both(
            self.worker_verdict(id),
            refuse_if(self.workers[id].owner@ != caller, ContractError::NotAuthorized),
        )
    }

    /// What an entry point answers that only the owner of the worker `id` may call, while the
    /// contract is not paused.
    pub open spec fn owner_unpaused(self, id: Seq<char>, caller: Seq<char>) -> Result<
        (),
        ContractError,
    > {
        both(pause_verdict(self.paused), self.owner_verdict(id, caller))
    }

    /// The state in which the worker `id` is `w`.
    pub open spec fn with_worker(self, id: Seq<char>, w: WorkerView) -> RegistryState {
        RegistryState { workers: self.workers.insert(id, w), ..self }
    }
}

impl RegistryContract {
    /// The contract as it is deployed.
    pub fn new() -> (r: Self)
        ensures
            r@.wf(),
            r@ == (RegistryState {
                admin: None,
                paused: false,
                schema_version: None,
                roles: Map::empty(),
                curators: seq![],
                workers: Map::empty(),
                worker_list: seq![],
                worker_count: 0,
                delegates: Map::empty(),
                reputation_inputs: Map::empty(),
                reputation_history: Map::empty(),
                category_verifications: Map::empty(),
                location_verifications: Map::empty(),
                availability: Map::empty(),
                stakes: Map::empty(),
                metrics: Map::empty(),
                badges: Map::empty(),
                worker_badges: Map::empty(),
                categories: seq![],
                pending_upgrade: None,
                verification_levels: Map::empty(),
                certified_skills: Map::empty(),
            }),
    {
        RegistryContract {
            admin: None,
            paused: false,
            schema_version: None,
            roles: Table::new(),
            curators: Vec::new(),
            workers: Table::new(),
            worker_list: Vec::new(),
            worker_count: 0,
            delegates: Table::new(),
            reputation_inputs: Table::new(),
            reputation_history: Table::new(),
            category_verifications: Table::new(),
            location_verifications: Table::new(),
            availability: Table::new(),
            stakes: Table::new(),
            metrics: Table::new(),
            badges: Table::new(),
            worker_badges: Table::new(),
            categories: Vec::new(),
            pending_upgrade: None,
            verification_levels: Table::new(),
            certified_skills: Table::new(),
        }
    }
}

} // verus!

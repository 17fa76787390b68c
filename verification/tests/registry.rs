//! The registry contract, run against a small ledger that performs what it asks for.

use std::collections::HashMap;

use bluecollar::error::ContractError;
use bluecollar::host::{Call, Data, Env, Topics, Val};
use bluecollar::registry::{
    role_to_id, DataKey, Delegate, PerformanceMetrics, RegistryContract, ReputationEvent,
    ReputationInputs, StakeInfo, SubscriptionTier, VerificationLevel, Worker, ROLE_ADMIN,
    ROLE_CURATOR_MGR, ROLE_PAUSER, ROLE_REP_MGR, ROLE_UPGRADER, TTL_EXTEND_TO, TTL_THRESHOLD,
    VERSION,
};
use bluecollar::registry::scoring::{
    calculate_performance_score, compute_weighted_reputation, RECENT_SECS,
};
use bluecollar::values::{Address, Hash32, Symbol};

fn addr(text: &str) -> Address {
    Address::new(text)
}

fn sym(text: &str) -> Symbol {
    Symbol::new(text)
}

fn syms(texts: &[&str]) -> Vec<Symbol> {
    texts.iter().map(|t| sym(t)).collect()
}

fn hash(byte: u8) -> Hash32 {
    Hash32 { bytes: [byte; 32] }
}

struct Ledger {
    contract: RegistryContract,
    now: u64,
    sequence: u32,
    balances: HashMap<String, i128>,
    asked: Vec<Call<DataKey>>,
}

impl Ledger {
    fn bare() -> Self {
        let mut balances = HashMap::new();
        balances.insert("owner".to_string(), 1_000_000);
        balances.insert("contract".to_string(), 1_000_000);
        Ledger {
            contract: RegistryContract::new(),
            now: 0,
            sequence: 0,
            balances,
            asked: Vec::new(),
        }
    }

    /// A contract whose admin holds every role.
    fn new() -> Self {
        let mut l = Ledger::bare();
        l.call(|c, e| c.initialize(e, addr("admin"))).unwrap();
        for role in [ROLE_PAUSER, ROLE_CURATOR_MGR, ROLE_REP_MGR, ROLE_UPGRADER] {
            l.call(|c, e| c.grant_role(e, addr("admin"), sym(role), addr("admin"))).unwrap();
        }
        l
    }

    /// The same, with a curator.
    fn curated() -> Self {
        let mut l = Ledger::new();
        l.add_curator();
        l
    }

    /// The same, with the worker `worker1`.
    fn staffed() -> Self {
        let mut l = Ledger::curated();
        l.register("worker1").unwrap();
        l
    }

    /// Run one invocation; where it succeeds, move the tokens that it asks for.
    fn call<R>(
        &mut self,
        f: impl FnOnce(&mut RegistryContract, &mut Env<DataKey>) -> Result<R, ContractError>,
    ) -> Result<R, ContractError> {
        let mut env = Env::new(self.now, self.sequence, addr("contract"));
        let r = f(&mut self.contract, &mut env);
        for call in &env.calls {
            if let Call::Transfer { from, to, amount, .. } = call {
                assert!(r.is_ok());
                *self.balances.entry(from.text.clone()).or_insert(0) -= amount;
                *self.balances.entry(to.text.clone()).or_insert(0) += amount;
                assert!(self.balances[&from.text] >= 0);
            }
        }
        self.asked = env.calls;
        r
    }

    fn balance(&self, who: &str) -> i128 {
        *self.balances.get(who).unwrap_or(&0)
    }

    fn add_curator(&mut self) {
        self.call(|c, e| c.add_curator(e, addr("admin"), addr("curator"))).unwrap();
    }

    fn register_as(&mut self, id: &str, category: &str, curator: &str) -> Result<(), ContractError> {
        self.call(|c, e| {
            c.register(
                e,
                sym(id),
                addr("owner"),
                "Alice".to_string(),
                sym(category),
                hash(0),
                hash(0),
                addr(curator),
            )
        })
    }

    fn register(&mut self, id: &str) -> Result<(), ContractError> {
        self.register_as(id, "plumber", "curator")
    }

    fn worker(&self, id: &str) -> Worker {
        self.contract.get_worker(sym(id)).unwrap().unwrap()
    }

    fn toggle(&mut self, id: &str, caller: &str) -> Result<(), ContractError> {
        self.call(|c, e| c.toggle(e, sym(id), addr(caller)))
    }

    fn set_score(&mut self, caller: &str, score: u32) -> Result<(), ContractError> {
        self.call(|c, e| c.update_reputation(e, addr(caller), sym("worker1"), score))
    }

    fn slash(&mut self, caller: &str, bps: u32) -> Result<(), ContractError> {
        self.call(|c, e| c.slash_reputation(e, addr(caller), sym("worker1"), bps))
    }

    fn review(&mut self, client: &str, rating: u32) -> Result<(), ContractError> {
        self.call(|c, e| c.submit_review(e, addr(client), sym("worker1"), rating, compute_weighted_reputation))
    }

    fn job(&mut self, caller: &str) -> Result<(), ContractError> {
        self.call(|c, e| c.record_job_completion(e, addr(caller), sym("worker1"), compute_weighted_reputation))
    }

    fn history(&self) -> Vec<ReputationEvent> {
        self.contract.get_reputation_history(sym("worker1")).unwrap()
    }

    fn stake(&mut self, caller: &str, amount: i128) -> Result<(), ContractError> {
        self.call(|c, e| c.stake(e, addr(caller), sym("worker1"), addr("token"), amount))
    }

    fn request_unstake(&mut self) -> Result<(), ContractError> {
        self.call(|c, e| c.request_unstake(e, addr("owner"), sym("worker1")))
    }

    fn unstake(&mut self) -> Result<(), ContractError> {
        self.call(|c, e| c.unstake(e, addr("owner"), sym("worker1")))
    }

    fn verify_category(&mut self, curator: &str, expires_at: u64) -> Result<(), ContractError> {
        self.call(|c, e| {
            c.verify_category(e, addr(curator), sym("worker1"), sym("plumber"), expires_at)
        })
    }

    fn availability(&mut self, id: &str, caller: &str, yes: bool, until: u64) -> Result<(), ContractError> {
        self.call(|c, e| c.update_availability(e, sym(id), addr(caller), yes, until))
    }

    fn propose(&mut self, caller: &str) -> Result<(), ContractError> {
        self.call(|c, e| c.propose_upgrade(e, addr(caller), hash(9)))
    }

    fn add_category(&mut self, name: &str) {
        self.call(|c, e| c.add_category(e, addr("admin"), sym(name))).unwrap();
    }

    fn batch(&mut self, curator: &str, ids: &[&str]) -> Result<Vec<bool>, ContractError> {
        let n = ids.len();
        let ids = syms(ids);
        let r = self.call(|c, e| {
            c.batch_register(
                e,
                addr(curator),
                ids,
                vec![addr("owner"); n],
                vec!["W".to_string(); n],
                vec![sym("plumber"); n],
                vec![hash(1); n],
                vec![hash(2); n],
            )
        })?;
        Ok(r.iter().map(|x| x.success).collect())
    }

    fn set_level(&mut self, caller: &str, id: &str, level: VerificationLevel) -> Result<(), ContractError> {
        self.call(|c, e| c.set_verification_level(e, addr(caller), sym(id), level))
    }

    fn level(&self, id: &str) -> VerificationLevel {
        self.contract.get_verification_level(sym(id)).unwrap()
    }

    fn add_skill(&mut self, caller: &str, skill: &str, until: u64) -> Result<(), ContractError> {
        self.call(|c, e| c.add_certified_skill(e, addr(caller), sym("worker1"), sym(skill), until))
    }

    fn revoke_skill(&mut self, skill: &str) -> Result<(), ContractError> {
        self.call(|c, e| c.revoke_certified_skill(e, addr("admin"), sym("worker1"), sym(skill)))
    }
}

#[test]
fn test_initialize_sets_admin() {
    let t = Ledger::new();
    assert_eq!(t.contract.get_admin(), Ok(addr("admin")));
}

#[test]
fn test_initialize_twice_panics() {
    let mut t = Ledger::new();
    assert_eq!(
        t.call(|c, e| c.initialize(e, addr("admin"))),
        Err(ContractError::AlreadyInitialized)
    );
}

#[test]
fn test_add_curator() {
    let t = Ledger::curated();
    assert_eq!(t.contract.is_curator(addr("curator")), Ok(true));
}

#[test]
fn test_add_curator_idempotent() {
    let mut t = Ledger::curated();
    t.add_curator();
    t.call(|c, e| c.remove_curator(e, addr("admin"), addr("curator"))).unwrap();
    assert_eq!(t.contract.is_curator(addr("curator")), Ok(false));
}

#[test]
fn test_add_curator_non_admin_panics() {
    let mut t = Ledger::new();
    assert_eq!(
        t.call(|c, e| c.add_curator(e, addr("stranger"), addr("curator"))),
        Err(ContractError::MissingRole)
    );
}

#[test]
fn test_remove_curator() {
    let mut t = Ledger::curated();
    t.call(|c, e| c.remove_curator(e, addr("admin"), addr("curator"))).unwrap();
    assert_eq!(t.contract.is_curator(addr("curator")), Ok(false));
}

#[test]
fn test_register_by_curator_succeeds() {
    let t = Ledger::staffed();
    let worker = t.worker("worker1");
    assert_eq!(worker.owner, addr("owner"));
    assert!(worker.is_active);
}

#[test]
fn test_register_stores_hashes() {
    let mut t = Ledger::curated();
    t.call(|c, e| {
        c.register(
            e,
            sym("worker1"),
            addr("owner"),
            "Alice".to_string(),
            sym("plumber"),
            hash(1),
            hash(2),
            addr("curator"),
        )
    })
    .unwrap();
    let worker = t.worker("worker1");
    assert_eq!(worker.location_hash, hash(1));
    assert_eq!(worker.contact_hash, hash(2));
}

#[test]
fn test_update_stores_new_hashes() {
    let mut t = Ledger::staffed();
    t.call(|c, e| {
        c.update(
            e,
            sym("worker1"),
            addr("owner"),
            "Alice B".to_string(),
            sym("electrician"),
            hash(3),
            hash(4),
        )
    })
    .unwrap();
    let worker = t.worker("worker1");
    assert_eq!(worker.location_hash, hash(3));
    assert_eq!(worker.contact_hash, hash(4));
}

#[test]
fn test_register_by_non_curator_panics() {
    let mut t = Ledger::new();
    assert_eq!(t.register("worker1"), Err(ContractError::CallerIsNotCurator));
}

#[test]
fn test_toggle_by_owner() {
    let mut t = Ledger::staffed();
    t.toggle("worker1", "owner").unwrap();
    assert!(!t.worker("worker1").is_active);
    t.toggle("worker1", "owner").unwrap();
    assert!(t.worker("worker1").is_active);
}

#[test]
fn test_deregister_by_owner() {
    let mut t = Ledger::staffed();
    t.call(|c, e| c.deregister(e, sym("worker1"), addr("owner"))).unwrap();
    assert!(t.contract.get_worker(sym("worker1")).unwrap().is_none());
    assert_eq!(t.contract.list_workers().unwrap().len(), 0);
}

#[test]
fn test_worker_count() {
    let mut t = Ledger::curated();
    assert_eq!(t.contract.worker_count(), Ok(0));
    t.register("worker1").unwrap();
    assert_eq!(t.contract.worker_count(), Ok(1));
}

#[test]
fn test_reputation_defaults_to_zero() {
    let t = Ledger::staffed();
    assert_eq!(t.worker("worker1").reputation, 0);
}

#[test]
fn test_update_reputation() {
    let mut t = Ledger::staffed();
    t.set_score("admin", 8500).unwrap();
    assert_eq!(t.worker("worker1").reputation, 8500);
}

#[test]
fn test_update_reputation_out_of_range() {
    let mut t = Ledger::staffed();
    assert_eq!(t.set_score("admin", 10_001), Err(ContractError::ScoreOutOfRange));
}

#[test]
fn test_update_reputation_non_admin_panics() {
    let mut t = Ledger::staffed();
    assert_eq!(t.set_score("stranger", 5000), Err(ContractError::MissingRole));
}

#[test]
fn test_list_workers_paginated() {
    let mut t = Ledger::curated();
    for i in 0..5u8 {
        t.register(&format!("w{i}")).unwrap();
    }
    assert_eq!(t.contract.list_workers_paginated(0, 3).unwrap().len(), 3);
    assert_eq!(t.contract.list_workers_paginated(3, 3).unwrap().len(), 2);
}

#[test]
fn test_verify_category_stores_record() {
    let mut t = Ledger::staffed();
    t.verify_category("curator", 9999).unwrap();
    let v = t
        .contract
        .get_category_verification(sym("worker1"), sym("plumber"))
        .unwrap()
        .unwrap();
    assert_eq!(v.curator, addr("curator"));
    assert_eq!(v.expires_at, 9999);
    assert_eq!(t.worker("worker1").verified_categories.len(), 1);
}

#[test]
fn test_verify_category_idempotent() {
    let mut t = Ledger::staffed();
    t.verify_category("curator", 9999).unwrap();
    t.verify_category("curator", 9999).unwrap();
    assert_eq!(t.worker("worker1").verified_categories.len(), 1);
}

#[test]
fn test_verify_category_non_curator_panics() {
    let mut t = Ledger::staffed();
    assert_eq!(t.verify_category("stranger", 9999), Err(ContractError::CallerIsNotCurator));
}

#[test]
fn test_batch_register_all_succeed() {
    let mut t = Ledger::curated();
    let results = t
        .call(|c, e| {
            c.batch_register(
                e,
                addr("curator"),
                syms(&["b1", "b2"]),
                vec![addr("owner"), addr("owner")],
                vec!["Alice".to_string(), "Bob".to_string()],
                syms(&["plumber", "welder"]),
                vec![hash(0), hash(0)],
                vec![hash(0), hash(0)],
            )
        })
        .unwrap();
    assert_eq!(results.len(), 2);
    assert!(results[0].success);
    assert!(results[1].success);
    assert_eq!(t.contract.worker_count(), Ok(2));
}

#[test]
fn test_batch_register_partial_success_on_duplicate() {
    let mut t = Ledger::staffed();
    let results = t
        .call(|c, e| {
            c.batch_register(
                e,
                addr("curator"),
                syms(&["worker1", "b2"]),
                vec![addr("owner"), addr("owner")],
                vec!["Alice".to_string(), "Bob".to_string()],
                syms(&["plumber", "welder"]),
                vec![hash(0), hash(0)],
                vec![hash(0), hash(0)],
            )
        })
        .unwrap();
    assert!(!results[0].success);
    assert!(results[1].success);
    assert_eq!(t.contract.worker_count(), Ok(2));
}

#[test]
fn test_batch_register_too_large_panics() {
    let mut t = Ledger::curated();
    let names: Vec<String> = (0..21).map(|i| format!("w{i}")).collect();
    let ids: Vec<&str> = names.iter().map(|s| s.as_str()).collect();
    assert_eq!(t.batch("curator", &ids), Err(ContractError::BatchTooLarge));
}

#[test]
fn test_stake_increases_staked_amount() {
    let mut s = Ledger::staffed();
    s.now = 1000;
    s.stake("owner", 500_000).unwrap();
    assert_eq!(s.contract.get_stake_info(sym("worker1")).unwrap().unwrap().amount, 500_000);
    assert_eq!(s.worker("worker1").staked_amount, 500_000);
}

#[test]
fn test_unstake_after_cooldown_returns_tokens() {
    let mut s = Ledger::staffed();
    s.now = 1000;
    s.stake("owner", 500_000).unwrap();
    s.now = 2000;
    s.request_unstake().unwrap();
    s.now = 2000 + 604_800 + 1;
    s.unstake().unwrap();
    assert!(s.balance("owner") >= 500_000);
    assert_eq!(s.contract.get_stake_info(sym("worker1")).unwrap().unwrap().amount, 0);
}

#[test]
fn test_unstake_before_cooldown_panics() {
    let mut s = Ledger::staffed();
    s.now = 1000;
    s.stake("owner", 100_000).unwrap();
    s.request_unstake().unwrap();
    assert_eq!(s.unstake(), Err(ContractError::CooldownNotElapsed));
}

#[test]
fn test_double_request_unstake_panics() {
    let mut s = Ledger::staffed();
    s.now = 1000;
    s.stake("owner", 100_000).unwrap();
    s.request_unstake().unwrap();
    assert_eq!(s.request_unstake(), Err(ContractError::UnstakeAlreadyRequested));
}

#[test]
fn test_verify_location_stores_record() {
    let mut t = Ledger::staffed();
    t.call(|c, e| c.verify_location(e, addr("verifier"), sym("worker1"), 9999)).unwrap();
    let v = t.contract.get_location_verification(sym("worker1")).unwrap().unwrap();
    assert_eq!(v.verifier, addr("verifier"));
    assert_eq!(v.expires_at, 9999);
}

#[test]
fn test_verify_location_nonexistent_worker_panics() {
    let mut t = Ledger::new();
    assert_eq!(
        t.call(|c, e| c.verify_location(e, addr("verifier"), sym("nonexistent"), 9999)),
        Err(ContractError::WorkerNotFound)
    );
}

#[test]
fn test_update_availability_stores_status() {
    let mut t = Ledger::staffed();
    t.availability("worker1", "owner", true, 9999).unwrap();
    let status = t.contract.get_availability(sym("worker1")).unwrap().unwrap();
    assert!(status.is_available);
    assert_eq!(status.expires_at, 9999);
}

#[test]
fn test_update_availability_toggle() {
    let mut t = Ledger::staffed();
    t.availability("worker1", "owner", true, 0).unwrap();
    assert!(t.contract.get_availability(sym("worker1")).unwrap().unwrap().is_available);
    t.availability("worker1", "owner", false, 0).unwrap();
    assert!(!t.contract.get_availability(sym("worker1")).unwrap().unwrap().is_available);
}

#[test]
fn test_update_availability_non_owner_panics() {
    let mut t = Ledger::staffed();
    assert_eq!(
        t.availability("worker1", "stranger", true, 0),
        Err(ContractError::NotAuthorized)
    );
}

#[test]
fn test_update_availability_nonexistent_worker_panics() {
    let mut t = Ledger::new();
    assert_eq!(
        t.availability("nonexistent", "owner", true, 0),
        Err(ContractError::WorkerNotFound)
    );
}

#[test]
fn test_upgrade_requires_upgrader_role() {
    let mut t = Ledger::bare();
    t.call(|c, e| c.initialize(e, addr("admin"))).unwrap();
    assert_eq!(t.call(|c, e| c.upgrade(e, hash(1))), Err(ContractError::MissingRole));
}

#[test]
fn test_initial_schema_version_is_1() {
    let t = Ledger::new();
    assert_eq!(t.contract.get_schema_version(), Ok(1u32));
}

#[test]
fn test_list_workers_page_basic() {
    let mut t = Ledger::curated();
    for i in 0..5u8 {
        t.register(&format!("p{i}")).unwrap();
    }
    let page = t.contract.list_workers_page(0, 3).unwrap();
    assert_eq!(page.ids.len(), 3);
    assert_eq!(page.total, 5);
}

#[test]
fn test_list_workers_page_last_page() {
    let mut t = Ledger::curated();
    for i in 0..5u8 {
        t.register(&format!("q{i}")).unwrap();
    }
    let page = t.contract.list_workers_page(3, 10).unwrap();
    assert_eq!(page.ids.len(), 2);
    assert_eq!(page.total, 5);
}

#[test]
fn test_list_workers_page_out_of_range() {
    let t = Ledger::staffed();
    let page = t.contract.list_workers_page(100, 10).unwrap();
    assert_eq!(page.ids.len(), 0);
    assert_eq!(page.total, 1);
}

#[test]
fn test_list_workers_page_empty() {
    let t = Ledger::new();
    let page = t.contract.list_workers_page(0, 10).unwrap();
    assert_eq!(page.ids.len(), 0);
    assert_eq!(page.total, 0);
}

#[test]
fn test_add_and_list_categories() {
    let mut t = Ledger::new();
    t.add_category("plumber");
    t.add_category("welder");
    assert_eq!(t.contract.list_categories().unwrap().len(), 2);
}

#[test]
fn test_add_category_idempotent() {
    let mut t = Ledger::new();
    t.add_category("plumber");
    t.add_category("plumber");
    assert_eq!(t.contract.list_categories().unwrap().len(), 1);
}

#[test]
fn test_remove_category() {
    let mut t = Ledger::new();
    t.add_category("plumber");
    t.call(|c, e| c.remove_category(e, addr("admin"), sym("plumber"))).unwrap();
    assert_eq!(t.contract.list_categories().unwrap().len(), 0);
}

#[test]
fn test_register_valid_category_succeeds() {
    let mut t = Ledger::curated();
    t.add_category("plumber");
    t.register("worker1").unwrap();
}

#[test]
fn test_register_invalid_category_panics() {
    let mut t = Ledger::curated();
    t.add_category("welder");
    assert_eq!(t.register("worker1"), Err(ContractError::UnknownCategory));
}

#[test]
fn test_register_no_categories_set_allows_any() {
    let mut t = Ledger::curated();
    t.register("worker1").unwrap();
}

#[test]
fn test_propose_upgrade_stores_pending() {
    let mut t = Ledger::new();
    t.propose("admin").unwrap();
    assert_eq!(t.contract.get_pending_upgrade().unwrap().unwrap().wasm_hash, hash(9));
}

#[test]
fn test_propose_upgrade_twice_panics() {
    let mut t = Ledger::new();
    t.propose("admin").unwrap();
    assert_eq!(t.propose("admin"), Err(ContractError::UpgradeAlreadyPending));
}

#[test]
fn test_cancel_upgrade_removes_pending() {
    let mut t = Ledger::new();
    t.propose("admin").unwrap();
    t.call(|c, e| c.cancel_upgrade(e, addr("admin"))).unwrap();
    assert!(t.contract.get_pending_upgrade().unwrap().is_none());
}

#[test]
fn test_cancel_upgrade_no_pending_panics() {
    let mut t = Ledger::new();
    assert_eq!(
        t.call(|c, e| c.cancel_upgrade(e, addr("admin"))),
        Err(ContractError::NoPendingUpgrade)
    );
}

#[test]
fn test_execute_upgrade_before_timelock_panics() {
    let mut t = Ledger::new();
    t.propose("admin").unwrap();
    assert_eq!(t.call(|c, e| c.execute_upgrade(e)), Err(ContractError::TimelockNotExpired));
}

#[test]
fn test_execute_upgrade_no_pending_panics() {
    let mut t = Ledger::new();
    assert_eq!(t.call(|c, e| c.execute_upgrade(e)), Err(ContractError::NoPendingUpgrade));
}

#[test]
fn submit_review_updates_reputation_and_avg_rating() {
    let mut f = Ledger::staffed();
    f.review("client", 8_000).unwrap();
    let w = f.worker("worker1");
    assert_eq!(w.avg_rating, 8_000);
    assert_eq!(w.review_count, 1);
    assert!(w.reputation > 0);
}

#[test]
fn submit_multiple_reviews_weighted_average() {
    let mut f = Ledger::staffed();
    f.review("r1", 6_000).unwrap();
    f.review("r2", 8_000).unwrap();
    let w = f.worker("worker1");
    assert_eq!(w.avg_rating, 7_000);
    assert_eq!(w.review_count, 2);
}

#[test]
fn submit_review_out_of_range_panics() {
    let mut f = Ledger::staffed();
    assert_eq!(f.review("client", 10_001), Err(ContractError::RatingOutOfRange));
}

#[test]
fn record_job_completion_increments_tip_count_and_score() {
    let mut f = Ledger::staffed();
    f.job("admin").unwrap();
    let inputs = f.contract.get_reputation_inputs(sym("worker1")).unwrap().unwrap();
    assert_eq!(inputs.tip_count, 1);
    assert!(f.worker("worker1").reputation > 0);
}

#[test]
fn record_multiple_completions_saturate_volume_score() {
    let mut f = Ledger::staffed();
    for _ in 0..50 {
        f.job("admin").unwrap();
    }
    let inputs = f.contract.get_reputation_inputs(sym("worker1")).unwrap().unwrap();
    assert_eq!(inputs.tip_count, 50);
}

#[test]
fn record_job_completion_requires_rep_mgr() {
    let mut f = Ledger::staffed();
    assert_eq!(f.job("stranger"), Err(ContractError::MissingRole));
}

#[test]
fn slash_reputation_reduces_score() {
    let mut f = Ledger::staffed();
    f.set_score("admin", 5_000).unwrap();
    f.slash("admin", 2_000).unwrap();
    assert_eq!(f.worker("worker1").reputation, 3_000);
}

#[test]
fn slash_reputation_floors_at_zero() {
    let mut f = Ledger::staffed();
    f.set_score("admin", 500).unwrap();
    f.slash("admin", 2_000).unwrap();
    assert_eq!(f.worker("worker1").reputation, 0);
}

#[test]
fn slash_reputation_out_of_range_panics() {
    let mut f = Ledger::staffed();
    assert_eq!(f.slash("admin", 10_001), Err(ContractError::ScoreOutOfRange));
}

#[test]
fn slash_requires_rep_mgr() {
    let mut f = Ledger::staffed();
    assert_eq!(f.slash("stranger", 1_000), Err(ContractError::MissingRole));
}

#[test]
fn reputation_history_is_recorded_on_review() {
    let mut f = Ledger::staffed();
    f.review("client", 8_000).unwrap();
    let history = f.history();
    assert!(history.len() >= 1);
    assert_eq!(history[history.len() - 1].previous_score, 0);
}

#[test]
fn reputation_history_recorded_on_slash() {
    let mut f = Ledger::staffed();
    f.set_score("admin", 4_000).unwrap();
    f.slash("admin", 1_000).unwrap();
    assert_eq!(f.history().last().unwrap().new_score, 3_000);
}

#[test]
fn reputation_history_recorded_on_job_completion() {
    let mut f = Ledger::staffed();
    f.job("admin").unwrap();
    assert!(f.history().len() >= 1);
}

#[test]
fn auto_slash_triggered_on_low_avg_rating() {
    let mut f = Ledger::staffed();
    f.review("r1", 1_000).unwrap();
    f.review("r2", 2_000).unwrap();
    f.review("r3", 1_500).unwrap();
    assert!(f.worker("worker1").avg_rating < 3_000);
    assert!(f.history().iter().any(|e| e.reason == "slash"));
}

#[test]
fn get_reputation_inputs_returns_none_for_new_worker() {
    let f = Ledger::staffed();
    assert!(f.contract.get_reputation_inputs(sym("worker1")).unwrap().is_none());
}

#[test]
fn get_reputation_history_empty_for_new_worker() {
    let f = Ledger::staffed();
    assert_eq!(f.history().len(), 0);
}

#[test]
fn fresh_deploy_reports_baseline_version() {
    let f = Ledger::new();
    assert_eq!(f.contract.get_schema_version(), Ok(1));
    assert_eq!(f.contract.version(), Ok(VERSION));
}

#[test]
fn upgrade_requires_upgrader_role() {
    let mut t = Ledger::bare();
    t.call(|c, e| c.initialize(e, addr("admin"))).unwrap();
    assert_eq!(t.call(|c, e| c.upgrade(e, hash(1))), Err(ContractError::MissingRole));
}

#[test]
fn propose_upgrade_requires_upgrader_role() {
    let mut t = Ledger::bare();
    t.call(|c, e| c.initialize(e, addr("admin"))).unwrap();
    assert_eq!(t.propose("stranger"), Err(ContractError::MissingRole));
}

#[test]
fn timelocked_upgrade_cannot_execute_early() {
    let mut t = Ledger::new();
    t.propose("admin").unwrap();
    assert_eq!(t.call(|c, e| c.execute_upgrade(e)), Err(ContractError::TimelockNotExpired));
}

#[test]
fn cannot_double_propose_upgrade() {
    let mut t = Ledger::new();
    t.propose("admin").unwrap();
    assert_eq!(t.propose("admin"), Err(ContractError::UpgradeAlreadyPending));
}

#[test]
fn set_and_get_verification_level() {
    let mut f = Ledger::staffed();
    assert_eq!(f.level("worker1"), VerificationLevel::Unverified);
    f.set_level("admin", "worker1", VerificationLevel::Verified).unwrap();
    assert_eq!(f.level("worker1"), VerificationLevel::Verified);
}

#[test]
fn set_verification_level_can_upgrade_and_downgrade() {
    let mut f = Ledger::staffed();
    f.set_level("admin", "worker1", VerificationLevel::Expert).unwrap();
    assert_eq!(f.level("worker1"), VerificationLevel::Expert);
    f.set_level("admin", "worker1", VerificationLevel::Basic).unwrap();
    assert_eq!(f.level("worker1"), VerificationLevel::Basic);
}

#[test]
fn set_verification_level_requires_curator_mgr() {
    let mut f = Ledger::staffed();
    assert_eq!(
        f.set_level("stranger", "worker1", VerificationLevel::Basic),
        Err(ContractError::MissingRole)
    );
}

#[test]
fn set_verification_level_unknown_worker_panics() {
    let mut f = Ledger::curated();
    assert_eq!(
        f.set_level("admin", "nobody", VerificationLevel::Basic),
        Err(ContractError::WorkerNotFound)
    );
}

#[test]
fn add_certified_skill_stores_and_queryable() {
    let mut f = Ledger::staffed();
    f.add_skill("admin", "arc_welding", 0).unwrap();
    let skills = f.contract.get_certified_skills(sym("worker1")).unwrap();
    assert_eq!(skills.len(), 1);
    assert_eq!(skills[0].skill, sym("arc_welding"));
}

#[test]
fn add_certified_skill_replaces_existing() {
    let mut f = Ledger::staffed();
    f.add_skill("admin", "pipe_fitting", 0).unwrap();
    f.add_skill("admin", "pipe_fitting", 9999).unwrap();
    let skills = f.contract.get_certified_skills(sym("worker1")).unwrap();
    assert_eq!(skills.len(), 1);
    assert_eq!(skills[0].expires_at, 9999);
}

#[test]
fn add_multiple_distinct_skills() {
    let mut f = Ledger::staffed();
    f.add_skill("admin", "skill_a", 0).unwrap();
    f.add_skill("admin", "skill_b", 0).unwrap();
    assert_eq!(f.contract.get_certified_skills(sym("worker1")).unwrap().len(), 2);
}

#[test]
fn add_certified_skill_requires_curator_mgr() {
    let mut f = Ledger::staffed();
    assert_eq!(f.add_skill("stranger", "skill_a", 0), Err(ContractError::MissingRole));
}

#[test]
fn revoke_certified_skill_removes_entry() {
    let mut f = Ledger::staffed();
    f.add_skill("admin", "arc_welding", 0).unwrap();
    f.revoke_skill("arc_welding").unwrap();
    assert_eq!(f.contract.get_certified_skills(sym("worker1")).unwrap().len(), 0);
}

#[test]
fn revoke_nonexistent_skill_panics() {
    let mut f = Ledger::staffed();
    assert_eq!(f.revoke_skill("nonexistent"), Err(ContractError::SkillNotFound));
}

#[test]
fn get_certified_skills_empty_for_new_worker() {
    let f = Ledger::staffed();
    assert_eq!(f.contract.get_certified_skills(sym("worker1")).unwrap().len(), 0);
}

#[test]
fn grant_role_requires_admin() {
    let mut f = Ledger::new();
    assert_eq!(
        f.call(|c, e| c.grant_role(e, addr("owner"), sym(ROLE_PAUSER), addr("x"))),
        Err(ContractError::MissingRole)
    );
}

#[test]
fn revoke_role_requires_admin() {
    let mut f = Ledger::new();
    assert_eq!(
        f.call(|c, e| c.revoke_role(e, addr("owner"), sym(ROLE_PAUSER), addr("admin"))),
        Err(ContractError::MissingRole)
    );
}

#[test]
fn pause_requires_pauser() {
    let mut f = Ledger::new();
    assert_eq!(f.call(|c, e| c.pause(e, addr("curator"))), Err(ContractError::MissingRole));
}

#[test]
fn unpause_requires_pauser() {
    let mut f = Ledger::new();
    f.call(|c, e| c.pause(e, addr("admin"))).unwrap();
    assert_eq!(f.call(|c, e| c.unpause(e, addr("curator"))), Err(ContractError::MissingRole));
}

#[test]
fn add_curator_requires_curator_mgr() {
    let mut f = Ledger::new();
    assert_eq!(
        f.call(|c, e| c.add_curator(e, addr("curator"), addr("x"))),
        Err(ContractError::MissingRole)
    );
}

#[test]
fn remove_curator_requires_curator_mgr() {
    let mut f = Ledger::curated();
    assert_eq!(
        f.call(|c, e| c.remove_curator(e, addr("curator"), addr("curator"))),
        Err(ContractError::MissingRole)
    );
}

#[test]
fn register_requires_curator() {
    let mut f = Ledger::new();
    assert_eq!(
        f.register_as("w1", "plumber", "owner"),
        Err(ContractError::CallerIsNotCurator)
    );
}

#[test]
fn batch_toggle_requires_curator() {
    let mut f = Ledger::new();
    assert_eq!(
        f.call(|c, e| c.batch_toggle(e, addr("owner"), syms(&["w1"]))),
        Err(ContractError::CallerIsNotCurator)
    );
}

#[test]
fn batch_register_requires_curator() {
    let mut f = Ledger::new();
    assert_eq!(f.batch("owner", &[]), Err(ContractError::CallerIsNotCurator));
}

#[test]
fn toggle_requires_owner() {
    let mut f = Ledger::curated();
    f.register("toggle_auth").unwrap();
    assert_eq!(f.toggle("toggle_auth", "curator"), Err(ContractError::NotAuthorized));
}

#[test]
fn deregister_requires_owner() {
    let mut f = Ledger::curated();
    f.register("dereg_auth").unwrap();
    assert_eq!(
        f.call(|c, e| c.deregister(e, sym("dereg_auth"), addr("curator"))),
        Err(ContractError::NotAuthorized)
    );
}

#[test]
fn stake_requires_owner() {
    let mut f = Ledger::staffed();
    assert_eq!(f.stake("curator", 1_000), Err(ContractError::NotAuthorized));
}

#[test]
fn update_reputation_requires_rep_mgr() {
    let mut f = Ledger::staffed();
    assert_eq!(f.set_score("curator", 5_000), Err(ContractError::MissingRole));
}

#[test]
fn update_reviews_requires_admin() {
    let mut f = Ledger::staffed();
    assert_eq!(
        f.call(|c, e| c.update_reviews(e, addr("curator"), sym("worker1"), 10, 8_000)),
        Err(ContractError::MissingRole)
    );
}

#[test]
fn update_subscription_requires_admin() {
    let mut f = Ledger::staffed();
    assert_eq!(
        f.call(|c, e| c.update_subscription(e, addr("curator"), sym("worker1"), 1, 0)),
        Err(ContractError::MissingRole)
    );
}

#[test]
fn update_metrics_requires_rep_mgr() {
    let mut f = Ledger::staffed();
    assert_eq!(
        f.call(|c, e| c.update_metrics(e, addr("curator"), sym("worker1"), 5, 8_000, calculate_performance_score)),
        Err(ContractError::MissingRole)
    );
}

#[test]
fn add_category_requires_admin() {
    let mut f = Ledger::new();
    assert_eq!(
        f.call(|c, e| c.add_category(e, addr("curator"), sym("electrician"))),
        Err(ContractError::MissingRole)
    );
}

#[test]
fn remove_category_requires_admin() {
    let mut f = Ledger::new();
    assert_eq!(
        f.call(|c, e| c.remove_category(e, addr("curator"), sym("plumber"))),
        Err(ContractError::MissingRole)
    );
}

#[test]
fn cancel_upgrade_requires_upgrader() {
    let mut f = Ledger::new();
    f.propose("admin").unwrap();
    assert_eq!(
        f.call(|c, e| c.cancel_upgrade(e, addr("curator"))),
        Err(ContractError::MissingRole)
    );
}

#[test]
fn registry_initialises_once() {
    let mut t = Ledger::bare();
    assert_eq!(t.contract.is_initialized(), Ok(false));
    assert_eq!(t.contract.get_admin(), Err(ContractError::NotInitialized));
    assert_eq!(t.call(|c, e| c.upgrade(e, hash(1))), Err(ContractError::NotInitialized));
    assert_eq!(
        t.call(|c, e| c.set_admin(e, addr("x"))),
        Err(ContractError::NotInitialized)
    );
    t.call(|c, e| c.initialize(e, addr("admin"))).unwrap();
    assert_eq!(
        t.asked,
        vec![
            Call::Write(DataKey::Admin),
            Call::Write(DataKey::SchemaVersion),
            Call::Write(DataKey::RoleMembers(role_to_id(&sym(ROLE_ADMIN)))),
            Call::Publish {
                topics: Topics::Three("RlGrnt", Val::Name("admin"), Val::Address(addr("admin"))),
                data: Data::Unit,
            },
        ]
    );
    assert_eq!(t.contract.is_initialized(), Ok(true));
    t.call(|c, e| c.set_admin(e, addr("eve"))).unwrap();
    assert_eq!(t.contract.has_role(sym(ROLE_ADMIN), addr("eve")), Ok(true));
    assert_eq!(t.contract.has_role(sym(ROLE_ADMIN), addr("admin")), Ok(false));
    assert_eq!(t.contract.get_role_members_list(sym(ROLE_ADMIN)), Ok(vec![addr("eve")]));
}

#[test]
fn registering_writes_lists_and_counts() {
    let t = Ledger::staffed();
    assert_eq!(
        t.asked,
        vec![
            Call::RequireAuth(addr("curator")),
            Call::Write(DataKey::Worker(sym("worker1"))),
            Call::Write(DataKey::WorkerList),
            Call::Write(DataKey::WorkerCount),
            Call::Publish {
                topics: Topics::Two("WrkReg", Val::Symbol(sym("worker1"))),
                data: Data::Two(Val::Address(addr("owner")), Val::Symbol(sym("plumber"))),
            },
        ]
    );
    let w = t.worker("worker1");
    assert_eq!(w.name, "Alice");
    assert_eq!(w.wallet, addr("owner"));
    assert_eq!(w.subscription.tier, SubscriptionTier::Free);
    assert_eq!(w.verified_categories, vec![]);
}

#[test]
fn the_list_holds_who_is_registered() {
    let mut t = Ledger::curated();
    for id in ["a", "b", "c"] {
        t.register(id).unwrap();
    }
    t.call(|c, e| c.deregister(e, sym("b"), addr("owner"))).unwrap();
    assert_eq!(t.contract.list_workers(), Ok(syms(&["a", "c"])));
    assert_eq!(t.contract.list_workers_page(0, 9).unwrap().total, 2);
    assert_eq!(
        t.call(|c, e| c.deregister(e, sym("b"), addr("owner"))),
        Err(ContractError::WorkerNotFound)
    );
    // Registering an id anew replaces the worker, who stays listed once.
    t.toggle("a", "owner").unwrap();
    t.register_as("a", "welder", "curator").unwrap();
    assert_eq!(
        t.asked,
        vec![
            Call::RequireAuth(addr("curator")),
            Call::Write(DataKey::Worker(sym("a"))),
            Call::Publish {
                topics: Topics::Two("WrkReg", Val::Symbol(sym("a"))),
                data: Data::Two(Val::Address(addr("owner")), Val::Symbol(sym("welder"))),
            },
        ]
    );
    assert!(t.worker("a").is_active);
    assert_eq!(t.worker("a").category, sym("welder"));
    assert_eq!(t.contract.list_workers(), Ok(syms(&["a", "c"])));
    assert_eq!(t.contract.worker_count(), Ok(2));
    assert_eq!(t.contract.list_workers_page(0, 9).unwrap().total, 2);
    t.call(|c, e| c.deregister(e, sym("a"), addr("owner"))).unwrap();
    assert_eq!(t.contract.list_workers(), Ok(syms(&["c"])));
    assert_eq!(t.contract.worker_count(), Ok(1));
}

#[test]
fn pages_cut_the_list() {
    let mut t = Ledger::curated();
    for id in ["a", "b", "c", "d", "e"] {
        t.register(id).unwrap();
    }
    assert_eq!(t.contract.list_workers_paginated(1, 2), Ok(syms(&["b", "c"])));
    assert_eq!(t.contract.list_workers_paginated(3, 9), Ok(syms(&["d", "e"])));
    assert_eq!(t.contract.list_workers_paginated(5, 9), Ok(vec![]));
    assert_eq!(t.contract.list_workers_paginated(0, 0), Ok(vec![]));
    assert_eq!(t.contract.list_workers_paginated(9, u32::MAX), Ok(vec![]));
    assert_eq!(t.contract.list_workers_paginated(3, u32::MAX), Ok(syms(&["d", "e"])));
    assert_eq!(t.contract.list_workers_page(4, u32::MAX).unwrap().ids, syms(&["e"]));
    let mut joined = Vec::new();
    for offset in [0, 2, 4] {
        joined.extend(t.contract.list_workers_paginated(offset, 2).unwrap());
    }
    assert_eq!(Ok(joined), t.contract.list_workers());
    // A batch is listed, but not counted.
    t.batch("curator", &["f"]).unwrap();
    assert_eq!(t.contract.worker_count(), Ok(6));
    let page = t.contract.list_workers_page(4, 9).unwrap();
    assert_eq!((page.ids, page.total), (syms(&["e"]), 5));
}

#[test]
fn a_batch_registers_each_id_once() {
    let mut t = Ledger::staffed();
    assert_eq!(
        t.batch("curator", &["b1", "worker1", "b2", "b1"]),
        Ok(vec![true, false, true, false])
    );
    assert_eq!(t.contract.list_workers(), Ok(syms(&["worker1", "b1", "b2"])));
    assert_eq!(t.asked.len(), 6);
    assert_eq!(t.worker("b1").location_hash, hash(1));
    assert_eq!(t.worker("b1").contact_hash, hash(2));
    assert_eq!(t.worker("worker1").location_hash, hash(0));
    assert_eq!(
        t.call(|c, e| {
            c.batch_register(
                e,
                addr("curator"),
                syms(&["x", "y"]),
                vec![addr("owner")],
                vec!["W".to_string(), "W".to_string()],
                syms(&["p", "p"]),
                vec![hash(0), hash(0)],
                vec![hash(0), hash(0)],
            )
        }),
        Err(ContractError::MismatchedInputLengths)
    );
}

#[test]
fn a_batch_toggles_one_after_the_other() {
    let mut t = Ledger::curated();
    t.register("a").unwrap();
    t.register("b").unwrap();
    let toggled = t
        .call(|c, e| c.batch_toggle(e, addr("curator"), syms(&["a", "x", "b", "a"])))
        .unwrap();
    assert_eq!(toggled, syms(&["a", "b", "a"]));
    assert!(t.worker("a").is_active);
    assert!(!t.worker("b").is_active);
    assert_eq!(
        t.asked[6],
        Call::Publish {
            topics: Topics::Two("WrkTgl", Val::Symbol(sym("a"))),
            data: Data::One(Val::Bool(true)),
        }
    );
    let many: Vec<Symbol> = (0..21).map(|i| sym(&format!("w{i}"))).collect();
    assert_eq!(
        t.call(|c, e| c.batch_toggle(e, addr("curator"), many)),
        Err(ContractError::BatchTooLarge)
    );
}

#[test]
fn owners_change_their_workers() {
    let mut t = Ledger::staffed();
    t.call(|c, e| {
        c.update_worker(
            e,
            sym("worker1"),
            addr("owner"),
            "Bob".to_string(),
            sym("welder"),
            addr("wallet"),
        )
    })
    .unwrap();
    let w = t.worker("worker1");
    assert_eq!((w.name.as_str(), w.category, w.wallet), ("Bob", sym("welder"), addr("wallet")));
    assert_eq!(w.owner, addr("owner"));
    assert_eq!(
        t.call(|c, e| {
            c.update_worker(
                e,
                sym("worker1"),
                addr("curator"),
                "Eve".to_string(),
                sym("welder"),
                addr("wallet"),
            )
        }),
        Err(ContractError::NotAuthorized)
    );
    assert_eq!(
        t.call(|c, e| {
            c.update(
                e,
                sym("nobody"),
                addr("owner"),
                "Eve".to_string(),
                sym("welder"),
                hash(0),
                hash(0),
            )
        }),
        Err(ContractError::WorkerNotFound)
    );
}

#[test]
fn entries_are_kept_alive() {
    let mut t = Ledger::staffed();
    t.call(|c, e| c.extend_worker_ttl(e, sym("worker1"))).unwrap();
    assert_eq!(
        t.asked,
        vec![Call::ExtendTtl {
            key: DataKey::Worker(sym("worker1")),
            threshold: TTL_THRESHOLD,
            extend_to: TTL_EXTEND_TO,
        }]
    );
    assert_eq!(
        t.call(|c, e| c.extend_worker_ttl(e, sym("x"))),
        Err(ContractError::WorkerNotFound)
    );
}

#[test]
fn delegates_renew_until_their_delegation_ends() {
    let mut t = Ledger::staffed();
    let add = |t: &mut Ledger, who: &str, until: u64| {
        t.call(|c, e| c.add_delegate(e, sym("worker1"), addr("owner"), addr(who), until))
    };
    let renew = |t: &mut Ledger, who: &str| {
        t.call(|c, e| c.renew_subscription(e, addr(who), sym("worker1"), 77))
    };
    assert_eq!(renew(&mut t, "dan"), Err(ContractError::NotAuthorized));
    add(&mut t, "dan", 100).unwrap();
    add(&mut t, "eve", 0).unwrap();
    t.now = 99;
    assert_eq!(renew(&mut t, "dan"), Ok(()));
    let s = t.contract.get_subscription(sym("worker1")).unwrap();
    assert_eq!((s.expires_at, s.last_renewed_at), (77, 99));
    t.now = 100;
    assert_eq!(renew(&mut t, "dan"), Err(ContractError::NotAuthorized));
    assert_eq!(renew(&mut t, "eve"), Ok(()));
    assert_eq!(renew(&mut t, "owner"), Ok(()));
    add(&mut t, "dan", 200).unwrap();
    assert_eq!(
        t.contract.get_worker_delegates(sym("worker1")),
        Ok(vec![
            Delegate { address: addr("dan"), expires_at: 200 },
            Delegate { address: addr("eve"), expires_at: 0 },
        ])
    );
    // A delegate renews, but changes nothing else.
    assert_eq!(t.toggle("worker1", "dan"), Err(ContractError::NotAuthorized));
    t.call(|c, e| c.remove_delegate(e, sym("worker1"), addr("owner"), addr("eve"))).unwrap();
    assert_eq!(renew(&mut t, "eve"), Err(ContractError::NotAuthorized));
    assert_eq!(
        t.call(|c, e| c.remove_delegate(e, sym("worker1"), addr("owner"), addr("eve"))),
        Err(ContractError::DelegateNotFound)
    );
    assert_eq!(
        t.call(|c, e| c.add_delegate(e, sym("worker1"), addr("dan"), addr("x"), 0)),
        Err(ContractError::NotAuthorized)
    );
    assert_eq!(
        t.call(|c, e| c.add_delegate(e, sym("nobody"), addr("owner"), addr("x"), 0)),
        Err(ContractError::WorkerNotFound)
    );
}

#[test]
fn subscriptions_have_three_tiers() {
    let mut t = Ledger::staffed();
    t.now = 12;
    let set = |t: &mut Ledger, tier: u32| {
        t.call(|c, e| c.update_subscription(e, addr("admin"), sym("worker1"), tier, 500))
    };
    for (tier, expected) in [
        (0, SubscriptionTier::Free),
        (1, SubscriptionTier::Basic),
        (2, SubscriptionTier::Premium),
    ] {
        set(&mut t, tier).unwrap();
        let s = t.contract.get_subscription(sym("worker1")).unwrap();
        assert_eq!((s.tier, s.expires_at, s.last_renewed_at), (expected, 500, 12));
    }
    assert_eq!(set(&mut t, 3), Err(ContractError::InvalidSubscriptionTier));
    assert_eq!(
        t.contract.get_subscription(sym("nobody")),
        Err(ContractError::WorkerNotFound)
    );
    assert_eq!(
        t.call(|c, e| c.update_subscription(e, addr("admin"), sym("nobody"), 1, 0)),
        Err(ContractError::WorkerNotFound)
    );
}

#[test]
fn low_ratings_halve_the_score() {
    let mut t = Ledger::staffed();
    t.review("r1", 1_000).unwrap();
    t.review("r2", 2_000).unwrap();
    assert_eq!(t.worker("worker1").reputation, 1_900);
    t.review("r3", 1_500).unwrap();
    // The average of 1500 and a recent review weigh 1900, of which half is left.
    let w = t.worker("worker1");
    assert_eq!((w.avg_rating, w.review_count, w.reputation), (1_500, 3, 950));
    assert_eq!(
        t.history()[2..],
        [
            ReputationEvent { previous_score: 1_900, new_score: 950, reason: "slash" },
            ReputationEvent { previous_score: 1_900, new_score: 1_900, reason: "review" },
        ]
    );
    assert_eq!(
        t.asked[3],
        Call::Publish {
            topics: Topics::Two("RepSlashed", Val::Symbol(sym("worker1"))),
            data: Data::Two(Val::U32(1_500), Val::U32(950)),
        }
    );
    assert_eq!(t.asked.len(), 7);
    // An average of exactly the threshold costs nothing.
    let mut t = Ledger::staffed();
    for _ in 0..3 {
        t.review("r", 3_000).unwrap();
    }
    assert_eq!(t.worker("worker1").reputation, 2_800);
}

#[test]
fn the_history_keeps_every_change() {
    let mut t = Ledger::staffed();
    t.set_score("admin", 4_000).unwrap();
    t.job("admin").unwrap();
    t.slash("admin", 20).unwrap();
    t.review("r", 9_000).unwrap();
    assert_eq!(
        t.history(),
        vec![
            ReputationEvent { previous_score: 0, new_score: 4_000, reason: "manual" },
            ReputationEvent { previous_score: 4_000, new_score: 60, reason: "job_comp" },
            ReputationEvent { previous_score: 60, new_score: 40, reason: "slash" },
            ReputationEvent { previous_score: 40, new_score: 6_460, reason: "review" },
        ]
    );
    assert_eq!(
        t.call(|c, e| c.update_reputation(e, addr("admin"), sym("x"), 1)),
        Err(ContractError::WorkerNotFound)
    );
    assert_eq!(
        t.call(|c, e| c.submit_review(e, addr("r"), sym("x"), 1, compute_weighted_reputation)),
        Err(ContractError::WorkerNotFound)
    );
    assert_eq!(
        t.call(|c, e| c.record_job_completion(e, addr("admin"), sym("x"), compute_weighted_reputation)),
        Err(ContractError::WorkerNotFound)
    );
    assert_eq!(
        t.call(|c, e| c.slash_reputation(e, addr("admin"), sym("x"), 1)),
        Err(ContractError::WorkerNotFound)
    );
}

#[test]
fn reviews_are_set_in_range() {
    let mut t = Ledger::staffed();
    let set = |t: &mut Ledger, id: &str, rating: u32| {
        t.call(|c, e| c.update_reviews(e, addr("admin"), sym(id), 12, rating))
    };
    set(&mut t, "worker1", 10_000).unwrap();
    let w = t.worker("worker1");
    assert_eq!((w.review_count, w.avg_rating), (12, 10_000));
    assert_eq!(set(&mut t, "worker1", 10_001), Err(ContractError::RatingOutOfRange));
    assert_eq!(set(&mut t, "nobody", 1), Err(ContractError::WorkerNotFound));
}

#[test]
fn metrics_average_the_ratings() {
    let mut t = Ledger::new();
    t.now = 5;
    let update = |t: &mut Ledger, jobs: u32, rating: u32| {
        t.call(|c, e| c.update_metrics(e, addr("admin"), sym("w"), jobs, rating, calculate_performance_score))
    };
    assert!(t.contract.get_metrics(sym("w")).unwrap().is_none());
    update(&mut t, 3, 8_000).unwrap();
    update(&mut t, 4, 5_001).unwrap();
    update(&mut t, 9, 0).unwrap();
    assert_eq!(
        t.contract.get_metrics(sym("w")).unwrap().unwrap(),
        PerformanceMetrics {
            jobs_completed: 9,
            avg_rating: 6_500,
            total_ratings: 2,
            last_updated: 5,
            performance_score: 5_090,
        }
    );
    assert_eq!(
        t.asked[2],
        Call::Publish {
            topics: Topics::Two("MetUpd", Val::Symbol(sym("w"))),
            data: Data::Three(Val::U32(9), Val::U32(6_500), Val::U32(5_090)),
        }
    );
    assert_eq!(update(&mut t, 1, 10_001), Err(ContractError::RatingOutOfRange));
}

#[test]
fn stakes_earn_rewards() {
    let mut s = Ledger::staffed();
    assert_eq!(s.stake("owner", 0), Err(ContractError::AmountMustBePositive));
    assert_eq!(s.request_unstake(), Err(ContractError::NoActiveStake));
    assert_eq!(s.unstake(), Err(ContractError::NoActiveStake));
    s.now = 1_000;
    s.stake("owner", 400_000).unwrap();
    assert_eq!(s.unstake(), Err(ContractError::UnstakeNotRequested));
    s.now = 101_000;
    s.request_unstake().unwrap();
    // More stake withdraws the request; the first 100 000 seconds have earned one hundredth.
    s.stake("owner", 100_000).unwrap();
    let info = s.contract.get_stake_info(sym("worker1")).unwrap().unwrap();
    assert_eq!((info.amount, info.rewards_accumulated), (500_000, 4_000));
    assert_eq!(info.unstake_requested_at, 0);
    assert_eq!(s.balance("contract"), 1_000_000 + 500_000);
    s.request_unstake().unwrap();
    s.now = 101_000 + 604_799;
    assert_eq!(s.unstake(), Err(ContractError::CooldownNotElapsed));
    s.now = 101_000 + 604_800;
    s.unstake().unwrap();
    // 500 000 for 604 800 seconds earn 30 240.
    assert_eq!(s.balance("owner"), 1_000_000 + 4_000 + 30_240);
    assert_eq!(s.balance("contract"), 1_000_000 - 34_240);
    assert_eq!(
        s.asked[4],
        Call::Publish {
            topics: Topics::Three(
                "Unstaked",
                Val::Symbol(sym("worker1")),
                Val::Address(addr("owner")),
            ),
            data: Data::Two(Val::I128(500_000), Val::I128(34_240)),
        }
    );
    assert_eq!(s.worker("worker1").staked_amount, 0);
    assert_eq!(s.unstake(), Err(ContractError::NoActiveStake));
    assert_eq!(
        s.call(|c, e| c.stake(e, addr("owner"), sym("x"), addr("token"), 1)),
        Err(ContractError::WorkerNotFound)
    );
}

#[test]
fn badges_count_until_they_end_or_are_revoked() {
    let mut t = Ledger::staffed();
    let award = |t: &mut Ledger, issuer: &str, id: &str, badge: &str, until: u64| {
        t.call(|c, e| {
            c.award_badge(e, addr(issuer), sym(id), sym(badge), "Gold".to_string(), until)
        })
    };
    let valid = |t: &mut Ledger, badge: &str| {
        t.call(|c, e| c.verify_badge(e, sym("worker1"), sym(badge))).unwrap()
    };
    t.now = 10;
    assert_eq!(award(&mut t, "owner", "worker1", "b", 0), Err(ContractError::NotAuthorized));
    assert_eq!(award(&mut t, "admin", "nobody", "b", 0), Err(ContractError::WorkerNotFound));
    award(&mut t, "curator", "worker1", "b", 0).unwrap();
    assert_eq!(t.asked.len(), 4);
    award(&mut t, "admin", "worker1", "c", 20).unwrap();
    assert!(valid(&mut t, "b"));
    assert!(valid(&mut t, "c"));
    assert!(!valid(&mut t, "d"));
    t.now = 20;
    assert!(!valid(&mut t, "c"));
    award(&mut t, "curator", "worker1", "c", 30).unwrap();
    assert_eq!(t.asked.len(), 3);
    let badges = t.contract.get_worker_badges(sym("worker1")).unwrap();
    assert_eq!(badges.len(), 2);
    assert_eq!((badges[1].awarded_at, badges[1].expires_at), (20, 30));
    let revoke = |t: &mut Ledger, caller: &str, badge: &str| {
        t.call(|c, e| c.revoke_badge(e, addr(caller), sym("worker1"), sym(badge)))
    };
    assert_eq!(revoke(&mut t, "owner", "b"), Err(ContractError::NotAuthorized));
    assert_eq!(revoke(&mut t, "admin", "d"), Err(ContractError::BadgeNotFound));
    revoke(&mut t, "curator", "b").unwrap();
    assert!(!valid(&mut t, "b"));
    revoke(&mut t, "admin", "c").unwrap();
    assert!(!t.contract.get_badge(sym("worker1"), sym("c")).unwrap().unwrap().active);
    assert!(t.contract.get_badge(sym("worker1"), sym("d")).unwrap().is_none());
}

#[test]
fn upgrades_wait_for_their_timelock() {
    let mut t = Ledger::new();
    t.sequence = 100;
    t.propose("admin").unwrap();
    assert_eq!(
        t.contract.get_pending_upgrade().unwrap().unwrap().execute_after_ledger,
        34_660
    );
    t.sequence = 34_659;
    assert_eq!(t.call(|c, e| c.execute_upgrade(e)), Err(ContractError::TimelockNotExpired));
    t.sequence = 34_660;
    t.call(|c, e| c.execute_upgrade(e)).unwrap();
    assert_eq!(
        t.asked,
        vec![
            Call::Remove(DataKey::PendingUpgrade),
            Call::Publish { topics: Topics::One("UpgExecd"), data: Data::Unit },
            Call::UpdateWasm(hash(9)),
        ]
    );
    assert_eq!(t.call(|c, e| c.execute_upgrade(e)), Err(ContractError::NoPendingUpgrade));
    t.call(|c, e| c.upgrade(e, hash(5))).unwrap();
    assert_eq!(t.asked, vec![Call::RequireAuth(addr("admin")), Call::UpdateWasm(hash(5))]);
}

#[test]
fn levels_are_announced_by_number() {
    let mut t = Ledger::staffed();
    for (level, number) in [
        (VerificationLevel::Unverified, 0),
        (VerificationLevel::Basic, 1),
        (VerificationLevel::Verified, 2),
        (VerificationLevel::Expert, 3),
    ] {
        t.set_level("admin", "worker1", level).unwrap();
        assert_eq!(
            t.asked[2],
            Call::Publish {
                topics: Topics::Two("VrfLvlSet", Val::Symbol(sym("worker1"))),
                data: Data::Two(Val::Address(addr("admin")), Val::U32(number)),
            }
        );
    }
}

#[test]
fn a_paused_registry_refuses() {
    let mut t = Ledger::staffed();
    t.call(|c, e| c.pause(e, addr("admin"))).unwrap();
    assert_eq!(t.contract.is_paused(), Ok(true));
    assert_eq!(t.register("x"), Err(ContractError::ContractIsPaused));
    assert_eq!(t.toggle("worker1", "owner"), Err(ContractError::ContractIsPaused));
    assert_eq!(t.set_score("admin", 1), Err(ContractError::ContractIsPaused));
    assert_eq!(t.slash("admin", 1), Err(ContractError::ContractIsPaused));
    assert_eq!(t.review("r", 1), Err(ContractError::ContractIsPaused));
    assert_eq!(t.job("admin"), Err(ContractError::ContractIsPaused));
    assert_eq!(t.propose("admin"), Err(ContractError::ContractIsPaused));
    assert_eq!(t.add_skill("admin", "s", 0), Err(ContractError::ContractIsPaused));
    assert_eq!(t.revoke_skill("s"), Err(ContractError::ContractIsPaused));
    assert_eq!(
        t.set_level("admin", "worker1", VerificationLevel::Basic),
        Err(ContractError::ContractIsPaused)
    );
    assert_eq!(
        t.call(|c, e| c.batch_toggle(e, addr("curator"), syms(&["worker1"]))),
        Err(ContractError::ContractIsPaused)
    );
    assert_eq!(
        t.call(|c, e| c.grant_role(e, addr("admin"), sym(ROLE_PAUSER), addr("x"))),
        Err(ContractError::ContractIsPaused)
    );
    assert_eq!(
        t.call(|c, e| c.deregister(e, sym("worker1"), addr("owner"))),
        Err(ContractError::ContractIsPaused)
    );
    assert_eq!(t.verify_category("curator", 1), Err(ContractError::ContractIsPaused));
    assert_eq!(t.stake("owner", 5), Err(ContractError::ContractIsPaused));
    assert_eq!(t.request_unstake(), Err(ContractError::ContractIsPaused));
    assert_eq!(t.unstake(), Err(ContractError::ContractIsPaused));
    assert_eq!(
        t.availability("worker1", "owner", true, 0),
        Err(ContractError::ContractIsPaused)
    );
    assert_eq!(
        t.call(|c, e| c.verify_location(e, addr("verifier"), sym("worker1"), 9)),
        Err(ContractError::ContractIsPaused)
    );
    assert_eq!(
        t.call(|c, e| {
            c.update_metrics(e, addr("admin"), sym("worker1"), 1, 1, calculate_performance_score)
        }),
        Err(ContractError::ContractIsPaused)
    );
    assert_eq!(
        t.call(|c, e| {
            c.award_badge(e, addr("admin"), sym("worker1"), sym("b"), "Gold".to_string(), 0)
        }),
        Err(ContractError::ContractIsPaused)
    );
    assert_eq!(
        t.call(|c, e| c.revoke_badge(e, addr("admin"), sym("worker1"), sym("b"))),
        Err(ContractError::ContractIsPaused)
    );
    assert_eq!(
        t.call(|c, e| c.set_admin(e, addr("eve"))),
        Err(ContractError::ContractIsPaused)
    );
    assert_eq!(t.asked, vec![Call::RequireAuth(addr("admin"))]);
    // The code can be replaced and entries kept alive all the same.
    assert_eq!(t.call(|c, e| c.upgrade(e, hash(1))), Ok(()));
    assert_eq!(
        t.asked,
        vec![Call::RequireAuth(addr("admin")), Call::UpdateWasm(hash(1))]
    );
    assert_eq!(t.call(|c, e| c.extend_worker_ttl(e, sym("worker1"))), Ok(()));
    assert_eq!(t.call(|c, e| c.execute_upgrade(e)), Err(ContractError::ContractIsPaused));
    assert_eq!(
        t.call(|c, e| c.cancel_upgrade(e, addr("admin"))),
        Err(ContractError::ContractIsPaused)
    );
    assert_eq!(t.batch("curator", &["b1"]), Err(ContractError::ContractIsPaused));
    assert_eq!(t.contract.get_worker(sym("b1")), Ok(None));
    assert_eq!(t.contract.list_workers(), Ok(syms(&["worker1"])));
    t.call(|c, e| c.unpause(e, addr("admin"))).unwrap();
    assert_eq!(t.register("x"), Ok(()));
}

#[test]
fn registry_roles_are_granted_and_revoked() {
    let mut t = Ledger::new();
    assert_eq!(
        t.call(|c, e| c.revoke_role(e, addr("admin"), sym(ROLE_REP_MGR), addr("bob"))),
        Err(ContractError::AccountDoesNotHoldRole)
    );
    t.call(|c, e| c.grant_role(e, addr("admin"), sym(ROLE_REP_MGR), addr("bob"))).unwrap();
    assert_eq!(
        t.contract.get_role_members_list(sym(ROLE_REP_MGR)),
        Ok(vec![addr("admin"), addr("bob")])
    );
    t.call(|c, e| c.revoke_role(e, addr("admin"), sym(ROLE_REP_MGR), addr("admin"))).unwrap();
    assert_eq!(t.contract.has_role(sym(ROLE_REP_MGR), addr("admin")), Ok(false));
    assert_eq!(t.contract.has_role(sym(ROLE_REP_MGR), addr("bob")), Ok(true));
}

#[test]
fn rewards_are_counted_where_they_fit() {
    let info = StakeInfo {
        token: addr("token"),
        amount: 20_000_000,
        unstake_requested_at: 0,
        rewards_accumulated: 7,
        last_reward_ledger: 100,
    };
    assert_eq!(info.rewards_up_to(100), Some(7));
    assert_eq!(info.rewards_up_to(99), Some(7));
    assert_eq!(info.rewards_up_to(110), Some(27));
    let huge = StakeInfo { amount: i128::MAX, ..info };
    assert_eq!(huge.rewards_up_to(101), Some(7 + i128::MAX / 10_000_000));
    assert_eq!(huge.rewards_up_to(102), None);
    let full = StakeInfo { rewards_accumulated: i128::MAX, ..huge };
    assert_eq!(full.rewards_up_to(101), None);
    assert_eq!(full.rewards_up_to(100), Some(i128::MAX));
}

#[test]
fn scores_stay_in_range() {
    let inputs = |tip_count, rating_sum, rating_count| ReputationInputs {
        tip_count,
        rating_sum,
        rating_count,
        last_review_at: 1_000,
    };
    assert_eq!(compute_weighted_reputation(&inputs(0, 0, 0), 1_000), 0);
    assert_eq!(compute_weighted_reputation(&inputs(1, 0, 0), 1_000), 60);
    assert_eq!(compute_weighted_reputation(&inputs(49, 0, 0), 1_000), 2_940);
    assert_eq!(compute_weighted_reputation(&inputs(50, 0, 0), 1_000), 3_000);
    assert_eq!(compute_weighted_reputation(&inputs(u32::MAX, 0, 0), 1_000), 3_000);
    assert_eq!(compute_weighted_reputation(&inputs(0, 8_000, 1), 1_000), 5_800);
    assert_eq!(compute_weighted_reputation(&inputs(0, 8_000, 1), 999), 5_800);
    assert_eq!(compute_weighted_reputation(&inputs(0, 8_000, 1), 999 + RECENT_SECS), 5_800);
    assert_eq!(compute_weighted_reputation(&inputs(0, 8_000, 1), 1_000 + RECENT_SECS), 4_800);
    assert_eq!(compute_weighted_reputation(&inputs(99, 20_000, 2), 1_000), 10_000);
    let metrics = |jobs_completed, avg_rating| PerformanceMetrics {
        jobs_completed,
        avg_rating,
        total_ratings: 1,
        last_updated: 0,
        performance_score: 0,
    };
    assert_eq!(calculate_performance_score(&metrics(0, 0)), 0);
    assert_eq!(calculate_performance_score(&metrics(10, 5_000)), 4_100);
    assert_eq!(calculate_performance_score(&metrics(50, 10_000)), 10_000);
}

#[test]
fn the_average_ignores_the_order() {
    for ratings in [[9_000, 4_000, 5_001], [5_001, 9_000, 4_000]] {
        let mut t = Ledger::staffed();
        for rating in ratings {
            t.review("client", rating).unwrap();
        }
        assert_eq!(t.worker("worker1").avg_rating, 6_000);
        let inputs = t.contract.get_reputation_inputs(sym("worker1")).unwrap().unwrap();
        assert_eq!((inputs.rating_sum, inputs.rating_count), (18_001, 3));
    }
}

#[test]
fn refused_calls_are_told_before_they_are_made() {
    let mut t = Ledger::staffed();
    let id = sym("worker1");
    assert_eq!(t.contract.check_register(&addr("curator"), &sym("plumber")), Ok(()));
    assert_eq!(
        t.contract.check_register(&addr("owner"), &sym("plumber")),
        Err(ContractError::CallerIsNotCurator)
    );
    assert_eq!(t.contract.check_review(&id, 10_000), Ok(()));
    assert_eq!(t.contract.check_review(&id, 10_001), Err(ContractError::RatingOutOfRange));
    assert_eq!(t.contract.check_job(&addr("admin"), &id), Ok(()));
    assert_eq!(t.contract.check_job(&addr("owner"), &id), Err(ContractError::MissingRole));
    assert_eq!(t.contract.check_metrics(&addr("admin"), 1), Ok(()));
    assert_eq!(t.contract.check_metrics(&addr("owner"), 1), Err(ContractError::MissingRole));
    assert_eq!(t.contract.check_propose(&addr("admin")), Ok(()));
    assert_eq!(t.contract.check_propose(&addr("owner")), Err(ContractError::MissingRole));
    assert_eq!(t.contract.check_stake(&addr("owner"), &id, 1), Ok(()));
    assert_eq!(
        t.contract.check_stake(&addr("stranger"), &id, i128::MAX),
        Err(ContractError::NotAuthorized)
    );
    assert_eq!(
        t.contract.check_requested(&addr("owner"), &id),
        Err(ContractError::NoActiveStake)
    );
    t.now = 5;
    t.stake("owner", 100).unwrap();
    assert_eq!(
        t.contract.check_requested(&addr("owner"), &id),
        Err(ContractError::UnstakeNotRequested)
    );
    t.request_unstake().unwrap();
    assert_eq!(t.contract.check_requested(&addr("owner"), &id), Ok(()));
    assert_eq!(
        t.contract.check_unstake(&addr("owner"), &id, 604_804),
        Err(ContractError::CooldownNotElapsed)
    );
    assert_eq!(t.contract.check_unstake(&addr("owner"), &id, 604_805), Ok(()));
    assert_eq!(
        t.contract.check_batch_register(
            &addr("curator"),
            &syms(&["x"]),
            &vec![],
            &vec![],
            &vec![],
            &vec![],
            &vec![],
        ),
        Err(ContractError::MismatchedInputLengths)
    );
}

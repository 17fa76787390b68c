//! The market contract, run against a small ledger that performs what it asks for.

use std::collections::HashMap;

use bluecollar::error::ContractError;
use bluecollar::host::{Call, Data, Env, Topics, Val};
use bluecollar::market::{
    role_to_id, DataKey, MarketContract, MAX_FEE_BPS, ROLE_ADMIN, ROLE_DISPUTE_MGR,
    ROLE_FEE_MANAGER, ROLE_PAUSER, ROLE_UPGRADER, VERSION,
};
use bluecollar::values::{Address, Hash32, Symbol};

fn addr(text: &str) -> Address {
    Address::new(text)
}

fn sym(text: &str) -> Symbol {
    Symbol::new(text)
}

fn addrs(texts: &[&str]) -> Vec<Address> {
    texts.iter().map(|t| addr(t)).collect()
}

fn syms(texts: &[&str]) -> Vec<Symbol> {
    texts.iter().map(|t| sym(t)).collect()
}

struct Ledger {
    contract: MarketContract,
    now: u64,
    balances: HashMap<String, i128>,
    asked: Vec<Call<DataKey>>,
    authorised: bool,
}

impl Ledger {
    fn bare() -> Self {
        let mut balances = HashMap::new();
        balances.insert("payer".to_string(), 1_000_000);
        Ledger {
            contract: MarketContract::new(),
            now: 0,
            balances,
            asked: Vec::new(),
            authorised: true,
        }
    }

    fn with_fee(fee_bps: u32) -> Self {
        let mut l = Ledger::bare();
        l.call(|c, e| c.initialize(e, addr("admin"), fee_bps, addr("treasury"))).unwrap();
        l
    }

    /// A contract without a fee, whose admin holds every role.
    fn new() -> Self {
        let mut l = Ledger::bare();
        l.call(|c, e| c.initialize(e, addr("admin"), 0, addr("admin"))).unwrap();
        for role in [ROLE_PAUSER, ROLE_FEE_MANAGER, ROLE_DISPUTE_MGR, ROLE_UPGRADER] {
            l.call(|c, e| c.grant_role(e, addr("admin"), sym(role), addr("admin"))).unwrap();
        }
        l
    }

    /// Run one invocation; where it succeeds, move the tokens that it asks for.
    fn call<R>(
        &mut self,
        f: impl FnOnce(&mut MarketContract, &mut Env<DataKey>) -> Result<R, ContractError>,
    ) -> Result<R, ContractError> {
        let mut env = Env::new(self.now, 7, addr("contract"));
        let r = f(&mut self.contract, &mut env);
        for call in &env.calls {
            if let Call::RequireAuth(who) = call {
                if !self.authorised {
                    panic!("{} has not authorised the call", who.text);
                }
            }
            if let Call::Transfer { from, to, amount, .. } = call {
                assert!(r.is_ok());
                assert!(*amount >= 0);
                *self.balances.entry(from.text.clone()).or_insert(0) -= amount;
                *self.balances.entry(to.text.clone()).or_insert(0) += amount;
                assert!(self.balances[&from.text] >= 0);
            }
        }
        self.asked = env.calls;
        r
    }

    fn balance(&self, who: &str) -> i128 {
        *self.balances.get(who).unwrap_or(&0)
    }

    fn tip(&mut self, amount: i128) -> Result<(), ContractError> {
        self.call(|c, e| c.tip(e, addr("payer"), addr("worker"), addr("token"), amount))
    }

    fn create(&mut self, id: &str, amount: i128, expiry: u64) -> Result<(), ContractError> {
        self.call(|c, e| {
            c.create_escrow(
                e,
                sym(id),
                addr("payer"),
                addr("worker"),
                addr("token"),
                amount,
                expiry,
            )
        })
    }

    fn release(&mut self, id: &str, caller: &str) -> Result<(), ContractError> {
        self.call(|c, e| c.release_escrow(e, sym(id), addr(caller)))
    }

    fn cancel(&mut self, id: &str, caller: &str) -> Result<(), ContractError> {
        self.call(|c, e| c.cancel_escrow(e, sym(id), addr(caller)))
    }

    fn create_ms(
        &mut self,
        id: &str,
        amount: i128,
        expiry: u64,
        signers: &[&str],
        threshold: u32,
    ) -> Result<(), ContractError> {
        let signers = addrs(signers);
        self.call(|c, e| {
            c.create_multisig_escrow(
                e,
                sym(id),
                addr("payer"),
                addr("worker"),
                addr("token"),
                amount,
                expiry,
                signers,
                threshold,
            )
        })
    }

    fn approve(&mut self, id: &str, caller: &str) -> Result<(), ContractError> {
        self.call(|c, e| c.approve_multisig_release(e, sym(id), addr(caller)))
    }

    fn cancel_ms(&mut self, id: &str, caller: &str) -> Result<(), ContractError> {
        self.call(|c, e| c.cancel_multisig_escrow(e, sym(id), addr(caller)))
    }

    fn add_arbitrator(&mut self, who: &str) {
        self.call(|c, e| c.add_arbitrator(e, addr(who))).unwrap();
    }

    fn request_ms(&mut self, id: &str, caller: &str, arbitrator: &str) -> Result<(), ContractError> {
        self.call(|c, e| {
            c.request_multisig_arbitration(e, sym(id), addr(caller), addr(arbitrator), 0)
        })
    }

    fn resolve_ms(&mut self, id: &str, arbitrator: &str, to_worker: bool) -> Result<(), ContractError> {
        self.call(|c, e| c.resolve_multisig_arbitration(e, sym(id), addr(arbitrator), to_worker))
    }

    fn request(
        &mut self,
        id: &str,
        caller: &str,
        arbitrator: &str,
        fee: i128,
    ) -> Result<(), ContractError> {
        self.call(|c, e| c.request_arbitration(e, sym(id), addr(caller), addr(arbitrator), fee))
    }

    fn resolve(&mut self, id: &str, arbitrator: &str, to_worker: bool) -> Result<(), ContractError> {
        self.call(|c, e| c.resolve_arbitration(e, sym(id), addr(arbitrator), to_worker))
    }

    fn migrate(&mut self, caller: &str, version: u32) -> Result<(), ContractError> {
        self.call(|c, e| c.migrate(e, addr(caller), version))
    }
}

#[test]
fn test_tip_transfers_tokens() {
    let mut t = Ledger::new();
    t.tip(500_000).unwrap();
    assert_eq!(t.balance("worker"), 500_000);
    assert_eq!(t.balance("payer"), 500_000);
}

#[test]
fn test_tip_with_fee_deducts_correctly() {
    let mut t = Ledger::with_fee(100);
    t.tip(100_000).unwrap();
    assert_eq!(t.balance("worker"), 99_000);
    assert_eq!(t.balance("treasury"), 1_000);
    assert_eq!(t.balance("payer"), 900_000);
}

#[test]
fn test_tip_zero_fee_sends_full_amount() {
    let mut t = Ledger::new();
    let treasury_before = t.balance("admin");
    t.tip(200_000).unwrap();
    assert_eq!(t.balance("worker"), 200_000);
    assert_eq!(t.balance("payer"), 800_000);
    assert_eq!(t.balance("admin"), treasury_before);
}

#[test]
fn test_set_treasury_updates_fee_recipient() {
    let mut t = Ledger::new();
    t.call(|c, e| c.set_treasury(e, addr("admin"), addr("vault"))).unwrap();
    assert_eq!(t.contract.get_config().unwrap().fee_recipient, addr("vault"));
}

#[test]
fn test_set_treasury_non_admin_panics() {
    let mut t = Ledger::new();
    assert_eq!(
        t.call(|c, e| c.set_treasury(e, addr("stranger"), addr("vault"))),
        Err(ContractError::MissingRole)
    );
}

#[test]
fn test_tip_fee_goes_to_updated_treasury() {
    let mut t = Ledger::with_fee(200);
    t.call(|c, e| c.set_treasury(e, addr("admin"), addr("vault"))).unwrap();
    t.tip(100_000).unwrap();
    assert_eq!(t.balance("vault"), 2_000);
    assert_eq!(t.balance("treasury"), 0);
    assert_eq!(t.balance("worker"), 98_000);
}

#[test]
fn test_create_escrow_locks_funds() {
    let mut t = Ledger::new();
    t.create("escrow1", 300_000, 9999).unwrap();
    assert_eq!(t.balance("payer"), 700_000);
    assert_eq!(t.balance("contract"), 300_000);
    let escrow = t.contract.get_escrow(sym("escrow1")).unwrap().unwrap();
    assert_eq!(escrow.amount, 300_000);
    assert_eq!(escrow.expiry, 9999);
    assert!(!escrow.released);
    assert!(!escrow.cancelled);
}

#[test]
fn test_create_escrow_duplicate_id_panics() {
    let mut t = Ledger::new();
    t.create("escrow1", 100_000, 9999).unwrap();
    assert_eq!(t.create("escrow1", 100_000, 9999), Err(ContractError::EscrowAlreadyExists));
}

#[test]
fn test_create_escrow_zero_amount_panics() {
    let mut t = Ledger::new();
    assert_eq!(t.create("escrow1", 0, 9999), Err(ContractError::AmountMustBePositive));
}

#[test]
fn test_release_by_payer() {
    let mut t = Ledger::new();
    t.create("escrow1", 300_000, 9999).unwrap();
    t.release("escrow1", "payer").unwrap();
    assert_eq!(t.balance("worker"), 300_000);
    assert_eq!(t.balance("contract"), 0);
    assert!(t.contract.get_escrow(sym("escrow1")).unwrap().unwrap().released);
}

#[test]
fn test_release_by_worker() {
    let mut t = Ledger::new();
    t.create("escrow1", 300_000, 9999).unwrap();
    t.release("escrow1", "worker").unwrap();
    assert_eq!(t.balance("worker"), 300_000);
    assert!(t.contract.get_escrow(sym("escrow1")).unwrap().unwrap().released);
}

#[test]
fn test_release_by_stranger_panics() {
    let mut t = Ledger::new();
    t.create("escrow1", 300_000, 9999).unwrap();
    assert_eq!(t.release("escrow1", "stranger"), Err(ContractError::NotAuthorized));
}

#[test]
fn test_release_twice_panics() {
    let mut t = Ledger::new();
    t.create("escrow1", 300_000, 9999).unwrap();
    t.release("escrow1", "payer").unwrap();
    assert_eq!(t.release("escrow1", "payer"), Err(ContractError::AlreadyReleased));
}

#[test]
fn test_cancel_after_expiry_refunds_payer() {
    let mut t = Ledger::new();
    t.now = 1000;
    t.create("escrow1", 300_000, 2000).unwrap();
    t.now = 3000;
    t.cancel("escrow1", "payer").unwrap();
    assert_eq!(t.balance("payer"), 1_000_000);
    assert_eq!(t.balance("contract"), 0);
    assert!(t.contract.get_escrow(sym("escrow1")).unwrap().unwrap().cancelled);
}

#[test]
fn test_cancel_at_exact_expiry_succeeds() {
    let mut t = Ledger::new();
    t.now = 1000;
    t.create("escrow1", 300_000, 2000).unwrap();
    t.now = 2000;
    t.cancel("escrow1", "payer").unwrap();
    assert!(t.contract.get_escrow(sym("escrow1")).unwrap().unwrap().cancelled);
}

#[test]
fn test_cancel_before_expiry_panics() {
    let mut t = Ledger::new();
    t.now = 500;
    t.create("escrow1", 300_000, 2000).unwrap();
    assert_eq!(t.cancel("escrow1", "payer"), Err(ContractError::EscrowNotYetExpired));
}

#[test]
fn test_cancel_by_worker_panics() {
    let mut t = Ledger::new();
    t.now = 5000;
    t.create("escrow1", 300_000, 2000).unwrap();
    assert_eq!(t.cancel("escrow1", "worker"), Err(ContractError::NotAuthorized));
}

#[test]
fn test_cancel_twice_panics() {
    let mut t = Ledger::new();
    t.now = 5000;
    t.create("escrow1", 300_000, 2000).unwrap();
    t.cancel("escrow1", "payer").unwrap();
    assert_eq!(t.cancel("escrow1", "payer"), Err(ContractError::AlreadyCancelled));
}

#[test]
fn test_release_after_cancel_panics() {
    let mut t = Ledger::new();
    t.now = 5000;
    t.create("escrow1", 300_000, 2000).unwrap();
    t.cancel("escrow1", "payer").unwrap();
    assert_eq!(t.release("escrow1", "payer"), Err(ContractError::EscrowCancelled));
}

#[test]
fn test_get_escrow_nonexistent_returns_none() {
    let t = Ledger::new();
    assert!(t.contract.get_escrow(sym("nope")).unwrap().is_none());
}

#[test]
fn test_multisig_escrow_releases_at_threshold() {
    let mut t = Ledger::new();
    t.create_ms("ms1", 200_000, 9999, &["s1", "s2"], 2).unwrap();
    assert_eq!(t.balance("contract"), 200_000);
    t.approve("ms1", "s1").unwrap();
    assert_eq!(t.balance("worker"), 0);
    t.approve("ms1", "s2").unwrap();
    assert_eq!(t.balance("worker"), 200_000);
    assert!(t.contract.get_multisig_escrow(sym("ms1")).unwrap().unwrap().released);
}

#[test]
fn test_multisig_approve_non_signer_panics() {
    let mut t = Ledger::new();
    t.create_ms("ms2", 100_000, 9999, &["s1"], 1).unwrap();
    assert_eq!(t.approve("ms2", "stranger"), Err(ContractError::NotASigner));
}

#[test]
fn test_multisig_double_approve_panics() {
    let mut t = Ledger::new();
    t.create_ms("ms3", 100_000, 9999, &["s1", "s2"], 2).unwrap();
    t.approve("ms3", "s1").unwrap();
    assert_eq!(t.approve("ms3", "s1"), Err(ContractError::AlreadyApproved));
}

#[test]
fn test_multisig_cancel_after_expiry() {
    let mut t = Ledger::new();
    t.now = 1000;
    t.create_ms("ms4", 100_000, 2000, &["s1"], 1).unwrap();
    t.now = 3000;
    t.cancel_ms("ms4", "payer").unwrap();
    assert_eq!(t.balance("payer"), 1_000_000);
    assert!(t.contract.get_multisig_escrow(sym("ms4")).unwrap().unwrap().cancelled);
}

#[test]
fn test_multisig_threshold_one_releases_immediately() {
    let mut t = Ledger::new();
    t.create_ms("ms5", 50_000, 9999, &["s1"], 1).unwrap();
    t.approve("ms5", "s1").unwrap();
    assert_eq!(t.balance("worker"), 50_000);
    assert!(t.contract.get_multisig_escrow(sym("ms5")).unwrap().unwrap().released);
}

#[test]
fn test_multisig_duplicate_id_panics() {
    let mut t = Ledger::new();
    t.create_ms("ms6", 100_000, 9999, &["s1"], 1).unwrap();
    assert_eq!(
        t.create_ms("ms6", 100_000, 9999, &["s1"], 1),
        Err(ContractError::MultiSigEscrowAlreadyExists)
    );
}

#[test]
fn test_multisig_zero_amount_panics() {
    let mut t = Ledger::new();
    assert_eq!(
        t.create_ms("ms7", 0, 9999, &["s1"], 1),
        Err(ContractError::AmountMustBePositive)
    );
}

#[test]
fn test_multisig_threshold_exceeds_signers_panics() {
    let mut t = Ledger::new();
    assert_eq!(
        t.create_ms("ms8", 100_000, 9999, &["s1"], 2),
        Err(ContractError::InvalidThreshold)
    );
}

#[test]
fn test_multisig_zero_threshold_panics() {
    let mut t = Ledger::new();
    assert_eq!(
        t.create_ms("ms9", 100_000, 9999, &["s1"], 0),
        Err(ContractError::InvalidThreshold)
    );
}

#[test]
fn test_multisig_approve_after_release_panics() {
    let mut t = Ledger::new();
    t.create_ms("ms10", 100_000, 9999, &["s1"], 1).unwrap();
    t.approve("ms10", "s1").unwrap();
    assert_eq!(t.approve("ms10", "s1"), Err(ContractError::AlreadyReleased));
}

#[test]
fn test_multisig_cancel_before_expiry_panics() {
    let mut t = Ledger::new();
    t.now = 500;
    t.create_ms("ms11", 100_000, 2000, &["s1"], 1).unwrap();
    assert_eq!(t.cancel_ms("ms11", "payer"), Err(ContractError::EscrowNotYetExpired));
}

#[test]
fn test_multisig_cancel_twice_panics() {
    let mut t = Ledger::new();
    t.now = 1000;
    t.create_ms("ms12", 100_000, 2000, &["s1"], 1).unwrap();
    t.now = 3000;
    t.cancel_ms("ms12", "payer").unwrap();
    assert_eq!(t.cancel_ms("ms12", "payer"), Err(ContractError::AlreadyCancelled));
}

#[test]
fn test_multisig_cancel_by_non_payer_panics() {
    let mut t = Ledger::new();
    t.now = 1000;
    t.create_ms("ms13", 100_000, 2000, &["s1"], 1).unwrap();
    t.now = 3000;
    assert_eq!(t.cancel_ms("ms13", "worker"), Err(ContractError::NotAuthorized));
}

#[test]
fn test_multisig_create_while_paused_panics() {
    let mut t = Ledger::new();
    t.call(|c, e| c.pause(e, addr("admin"))).unwrap();
    assert_eq!(
        t.create_ms("ms14", 100_000, 9999, &["s1"], 1),
        Err(ContractError::ContractIsPaused)
    );
}

#[test]
fn test_multisig_approve_while_paused_panics() {
    let mut t = Ledger::new();
    t.create_ms("ms15", 100_000, 9999, &["s1"], 1).unwrap();
    t.call(|c, e| c.pause(e, addr("admin"))).unwrap();
    assert_eq!(t.approve("ms15", "s1"), Err(ContractError::ContractIsPaused));
}

#[test]
fn test_multisig_arbitration_releases_to_worker() {
    let mut t = Ledger::new();
    t.add_arbitrator("arbitrator");
    t.create_ms("msa1", 200_000, 9999, &["s1", "s2"], 2).unwrap();
    t.request_ms("msa1", "payer", "arbitrator").unwrap();
    let arb = t.contract.get_multisig_arbitration(sym("msa1")).unwrap().unwrap();
    assert!(!arb.resolved);
    assert_eq!(arb.arbitrator, addr("arbitrator"));
    t.resolve_ms("msa1", "arbitrator", true).unwrap();
    assert_eq!(t.balance("worker"), 200_000);
    assert!(t.contract.get_multisig_escrow(sym("msa1")).unwrap().unwrap().released);
    assert!(t.contract.get_multisig_arbitration(sym("msa1")).unwrap().unwrap().resolved);
}

#[test]
fn test_multisig_arbitration_refunds_payer() {
    let mut t = Ledger::new();
    t.add_arbitrator("arbitrator");
    t.create_ms("msa2", 100_000, 9999, &["s1", "s2"], 2).unwrap();
    t.request_ms("msa2", "payer", "arbitrator").unwrap();
    t.resolve_ms("msa2", "arbitrator", false).unwrap();
    assert_eq!(t.balance("payer"), 1_000_000);
    assert!(t.contract.get_multisig_escrow(sym("msa2")).unwrap().unwrap().cancelled);
}

#[test]
fn test_multisig_arbitration_duplicate_panics() {
    let mut t = Ledger::new();
    t.add_arbitrator("arbitrator");
    t.create_ms("msa3", 100_000, 9999, &["s1", "s2"], 2).unwrap();
    t.request_ms("msa3", "payer", "arbitrator").unwrap();
    assert_eq!(
        t.request_ms("msa3", "payer", "arbitrator"),
        Err(ContractError::ArbitrationAlreadyRequested)
    );
}

#[test]
fn test_multisig_arbitration_by_stranger_panics() {
    let mut t = Ledger::new();
    t.add_arbitrator("arbitrator");
    t.create_ms("msa4", 100_000, 9999, &["s1", "s2"], 2).unwrap();
    assert_eq!(
        t.request_ms("msa4", "stranger", "arbitrator"),
        Err(ContractError::NotAuthorized)
    );
}

#[test]
fn test_multisig_arbitration_unregistered_arbitrator_panics() {
    let mut t = Ledger::new();
    t.create_ms("msa5", 100_000, 9999, &["s1", "s2"], 2).unwrap();
    assert_eq!(
        t.request_ms("msa5", "payer", "fake_arbitrator"),
        Err(ContractError::InvalidArbitrator)
    );
}

#[test]
fn test_multisig_resolve_arbitration_twice_panics() {
    let mut t = Ledger::new();
    t.add_arbitrator("arbitrator");
    t.create_ms("msa6", 100_000, 9999, &["s1", "s2"], 2).unwrap();
    t.request_ms("msa6", "payer", "arbitrator").unwrap();
    t.resolve_ms("msa6", "arbitrator", true).unwrap();
    assert_eq!(
        t.resolve_ms("msa6", "arbitrator", true),
        Err(ContractError::AlreadyResolved)
    );
}

#[test]
fn lib_test_initial_schema_version_is_1() {
    let t = Ledger::new();
    assert_eq!(t.contract.get_schema_version(), Ok(1u32));
}

#[test]
fn test_migrate_v1_to_v2_bumps_version() {
    let mut t = Ledger::new();
    t.migrate("admin", 1).unwrap();
    assert_eq!(t.contract.get_schema_version(), Ok(2u32));
}

#[test]
fn test_migrate_double_run_panics() {
    let mut t = Ledger::new();
    t.migrate("admin", 1).unwrap();
    assert_eq!(t.migrate("admin", 1), Err(ContractError::WrongSchemaVersion));
}

#[test]
fn test_migrate_wrong_version_panics() {
    let mut t = Ledger::new();
    assert_eq!(t.migrate("admin", 2), Err(ContractError::WrongSchemaVersion));
}

#[test]
fn test_migrate_non_admin_panics() {
    let mut t = Ledger::new();
    assert_eq!(t.migrate("stranger", 1), Err(ContractError::MissingRole));
}

#[test]
fn test_migrate_sequential_versions() {
    let mut t = Ledger::new();
    t.migrate("admin", 1).unwrap();
    assert_eq!(t.contract.get_schema_version(), Ok(2u32));
    t.migrate("admin", 2).unwrap();
    assert_eq!(t.contract.get_schema_version(), Ok(3u32));
}

#[test]
fn lib_test_initialize_sets_admin() {
    let t = Ledger::with_fee(100);
    assert_eq!(t.contract.get_admin(), Ok(addr("admin")));
}

#[test]
fn test_get_admin_uninitialized_panics() {
    let t = Ledger::bare();
    assert_eq!(t.contract.get_admin(), Err(ContractError::NotInitialized));
}

#[test]
fn test_set_admin_success() {
    let mut t = Ledger::with_fee(100);
    assert_eq!(t.contract.get_admin(), Ok(addr("admin")));
    t.call(|c, e| c.set_admin(e, addr("admin_new"))).unwrap();
    assert_eq!(t.contract.get_admin(), Ok(addr("admin_new")));
}

#[test]
#[should_panic]
fn test_set_admin_unauthorized_fails() {
    let mut t = Ledger::with_fee(100);
    t.authorised = false;
    let _ = t.call(|c, e| c.set_admin(e, addr("admin_new")));
}

#[test]
fn lib_test_upgrade_requires_upgrader_role() {
    let mut t = Ledger::with_fee(100);
    assert_eq!(
        t.call(|c, e| c.upgrade(e, Hash32 { bytes: [0; 32] })),
        Err(ContractError::MissingRole)
    );
}

#[test]
fn an_upgrade_asks_for_the_new_code() {
    let mut t = Ledger::bare();
    let hash = Hash32 { bytes: [4; 32] };
    assert_eq!(t.call(|c, e| c.upgrade(e, hash)), Err(ContractError::NotInitialized));
    assert!(t.asked.is_empty());
    let mut t = Ledger::new();
    t.call(|c, e| c.upgrade(e, hash)).unwrap();
    assert_eq!(t.asked, vec![Call::RequireAuth(addr("admin")), Call::UpdateWasm(hash)]);
}

#[test]
fn market_initialises_once() {
    let mut t = Ledger::bare();
    assert_eq!(
        t.call(|c, e| c.initialize(e, addr("admin"), 501, addr("treasury"))),
        Err(ContractError::FeeBpsExceedsMaximum)
    );
    assert_eq!(t.contract.get_config(), Err(ContractError::NotInitialized));
    t.call(|c, e| c.initialize(e, addr("admin"), MAX_FEE_BPS, addr("treasury"))).unwrap();
    assert_eq!(
        t.asked,
        vec![
            Call::Write(DataKey::Admin),
            Call::Write(DataKey::SchemaVersion),
            Call::Write(DataKey::Config),
            Call::Write(DataKey::RoleMembers(0)),
            Call::Publish {
                topics: Topics::Three("RlGrnt", Val::Name("admin"), Val::Address(addr("admin"))),
                data: Data::Unit,
            },
        ]
    );
    assert_eq!(
        t.call(|c, e| c.initialize(e, addr("admin"), 0, addr("treasury"))),
        Err(ContractError::AlreadyInitialized)
    );
    assert_eq!(t.contract.version(), Ok(VERSION));
}

#[test]
fn market_roles_are_granted_and_revoked() {
    let mut t = Ledger::with_fee(0);
    assert_eq!(role_to_id(&sym(ROLE_DISPUTE_MGR)), 3);
    assert_eq!(role_to_id(&sym("nobody")), u64::MAX);
    t.call(|c, e| c.grant_role(e, addr("admin"), sym(ROLE_PAUSER), addr("bob"))).unwrap();
    assert_eq!(t.asked.len(), 3);
    // A second grant writes nothing.
    t.call(|c, e| c.grant_role(e, addr("admin"), sym(ROLE_PAUSER), addr("bob"))).unwrap();
    assert_eq!(t.asked.len(), 2);
    assert_eq!(t.contract.get_role_members_list(sym(ROLE_PAUSER)), Ok(addrs(&["bob"])));
    assert_eq!(
        t.call(|c, e| c.revoke_role(e, addr("admin"), sym(ROLE_PAUSER), addr("eve"))),
        Err(ContractError::AccountDoesNotHoldRole)
    );
    assert_eq!(
        t.call(|c, e| c.revoke_role(e, addr("bob"), sym(ROLE_PAUSER), addr("bob"))),
        Err(ContractError::MissingRole)
    );
    t.call(|c, e| c.revoke_role(e, addr("admin"), sym(ROLE_PAUSER), addr("bob"))).unwrap();
    assert_eq!(t.contract.has_role(sym(ROLE_PAUSER), addr("bob")), Ok(false));
    assert_eq!(t.contract.get_role_members_list(sym(ROLE_PAUSER)), Ok(vec![]));
}

#[test]
fn the_admin_role_follows_the_admin() {
    let mut t = Ledger::with_fee(0);
    t.call(|c, e| c.grant_role(e, addr("admin"), sym(ROLE_ADMIN), addr("bob"))).unwrap();
    t.call(|c, e| c.set_admin(e, addr("eve"))).unwrap();
    assert_eq!(t.contract.get_role_members_list(sym(ROLE_ADMIN)), Ok(addrs(&["bob", "eve"])));
    t.call(|c, e| c.set_admin(e, addr("bob"))).unwrap();
    assert_eq!(t.contract.get_role_members_list(sym(ROLE_ADMIN)), Ok(addrs(&["bob"])));
    assert_eq!(Ledger::bare().call(|c, e| c.set_admin(e, addr("x"))), Err(ContractError::NotInitialized));
}

#[test]
fn the_fee_is_updated_within_its_cap() {
    let mut t = Ledger::with_fee(0);
    assert_eq!(t.call(|c, e| c.update_fee(e, 100)), Err(ContractError::MissingRole));
    let mut t = Ledger::new();
    assert_eq!(t.call(|c, e| c.update_fee(e, 501)), Err(ContractError::FeeBpsExceedsMaximum));
    t.call(|c, e| c.update_fee(e, 500)).unwrap();
    assert_eq!(t.contract.get_config().unwrap().fee_bps, 500);
    assert_eq!(Ledger::bare().call(|c, e| c.update_fee(e, 1)), Err(ContractError::NotInitialized));
}

#[test]
fn a_release_takes_the_fee_and_announces_it() {
    let mut t = Ledger::with_fee(250);
    t.create("e", 10_001, 9).unwrap();
    t.release("e", "worker").unwrap();
    assert_eq!(t.balance("worker"), 9_751);
    assert_eq!(t.balance("treasury"), 250);
    assert_eq!(t.balance("contract"), 0);
    assert_eq!(
        t.asked[3],
        Call::Publish {
            topics: Topics::Two("FeeTaken", Val::Address(addr("treasury"))),
            data: Data::One(Val::I128(250)),
        }
    );
    assert_eq!(t.asked[4], Call::Write(DataKey::Escrow(sym("e"))));
    assert_eq!(t.release("nope", "worker"), Err(ContractError::EscrowNotFound));
    assert_eq!(t.cancel("nope", "worker"), Err(ContractError::EscrowNotFound));
    assert_eq!(t.cancel("e", "payer"), Err(ContractError::AlreadyReleased));
}

#[test]
fn a_tip_is_checked() {
    let mut t = Ledger::with_fee(500);
    assert_eq!(t.tip(0), Err(ContractError::AmountMustBePositive));
    assert_eq!(t.tip(-5), Err(ContractError::AmountMustBePositive));
    assert_eq!(Ledger::bare().tip(5), Err(ContractError::NotInitialized));
    t.tip(20).unwrap();
    assert_eq!(t.balance("treasury"), 1);
    assert_eq!(t.balance("worker"), 19);
}

#[test]
fn a_batch_releases_each_escrow_once_in_full() {
    let mut t = Ledger::with_fee(500);
    t.create("a", 1_000, 9).unwrap();
    t.create("b", 2_000, 9).unwrap();
    t.create("c", 4_000, 9).unwrap();
    t.release("b", "payer").unwrap();
    let released = t
        .call(|c, e| {
            c.batch_release_escrow(e, addr("payer"), syms(&["a", "b", "a", "x", "c", "c"]))
        })
        .unwrap();
    assert_eq!(released, syms(&["a", "c"]));
    assert_eq!(t.balance("worker"), 1_900 + 5_000);
    assert_eq!(t.balance("contract"), 0);
    let again = t
        .call(|c, e| c.batch_release_escrow(e, addr("payer"), syms(&["a", "b", "c"])))
        .unwrap();
    assert!(again.is_empty());
    t.create("d", 8_000, 9).unwrap();
    let none = t
        .call(|c, e| c.batch_release_escrow(e, addr("stranger"), syms(&["d"])))
        .unwrap();
    assert!(none.is_empty());
    let many: Vec<Symbol> = (0..21).map(|i| sym(&format!("e{}", i))).collect();
    assert_eq!(
        t.call(|c, e| c.batch_release_escrow(e, addr("payer"), many)),
        Err(ContractError::BatchTooLarge)
    );
}

#[test]
fn anyone_pays_back_an_expired_escrow() {
    let mut t = Ledger::new();
    t.create("e", 500, 10).unwrap();
    assert_eq!(
        t.call(|c, e| c.cancel_expired_escrow(e, sym("e"))),
        Err(ContractError::EscrowNotYetExpired)
    );
    t.now = 10;
    t.call(|c, e| c.cancel_expired_escrow(e, sym("e"))).unwrap();
    assert_eq!(t.balance("payer"), 1_000_000);
    assert_eq!(
        t.asked,
        vec![
            Call::Transfer {
                token: addr("token"),
                from: addr("contract"),
                to: addr("payer"),
                amount: 500,
            },
            Call::Write(DataKey::Escrow(sym("e"))),
            Call::Publish {
                topics: Topics::Three("EscExp", Val::Symbol(sym("e")), Val::Address(addr("payer"))),
                data: Data::One(Val::I128(500)),
            },
        ]
    );
    assert_eq!(
        t.call(|c, e| c.cancel_expired_escrow(e, sym("e"))),
        Err(ContractError::EscrowNotActive)
    );
    assert_eq!(
        t.call(|c, e| c.cancel_expired_escrow(e, sym("x"))),
        Err(ContractError::EscrowNotFound)
    );
}

#[test]
fn an_arbitrator_decides_an_escrow() {
    let mut t = Ledger::new();
    t.create("e", 500, 10).unwrap();
    assert_eq!(t.request("e", "payer", "judge", 5), Err(ContractError::InvalidArbitrator));
    t.add_arbitrator("judge");
    t.add_arbitrator("judge");
    assert_eq!(t.contract.arbitrators, addrs(&["judge"]));
    assert_eq!(t.request("x", "payer", "judge", 5), Err(ContractError::EscrowNotFound));
    assert_eq!(t.request("e", "stranger", "judge", 5), Err(ContractError::NotAuthorized));
    assert_eq!(t.resolve("e", "judge", true), Err(ContractError::ArbitrationNotFound));
    t.request("e", "payer", "judge", 5).unwrap();
    assert_eq!(t.balance("judge"), 5);
    assert_eq!(t.request("e", "payer", "judge", 5), Err(ContractError::ArbitrationAlreadyRequested));
    assert_eq!(t.resolve("e", "payer", true), Err(ContractError::NotAnArbitrator));
    t.resolve("e", "judge", false).unwrap();
    assert_eq!(t.balance("payer"), 999_995);
    assert!(t.contract.get_escrow(sym("e")).unwrap().unwrap().cancelled);
    assert!(t.contract.get_arbitration(sym("e")).unwrap().unwrap().resolved);
    assert_eq!(t.resolve("e", "judge", true), Err(ContractError::AlreadyResolved));
    assert_eq!(t.request("e", "payer", "judge", 5), Err(ContractError::EscrowFinalized));
    t.create("f", 700, 10).unwrap();
    t.request("f", "worker", "judge", 0).unwrap();
    t.resolve("f", "judge", true).unwrap();
    assert_eq!(t.balance("worker"), 700);
    t.call(|c, e| c.remove_arbitrator(e, addr("judge"))).unwrap();
    t.create("g", 700, 10).unwrap();
    assert_eq!(t.request("g", "payer", "judge", 0), Err(ContractError::InvalidArbitrator));
    assert_eq!(
        Ledger::bare().call(|c, e| c.add_arbitrator(e, addr("judge"))),
        Err(ContractError::NotInitialized)
    );
}

#[test]
fn a_multisig_dispute_is_checked() {
    let mut t = Ledger::new();
    t.add_arbitrator("judge");
    assert_eq!(t.request_ms("x", "payer", "judge"), Err(ContractError::MultiSigEscrowNotFound));
    assert_eq!(t.approve("x", "s1"), Err(ContractError::MultiSigEscrowNotFound));
    assert_eq!(t.cancel_ms("x", "payer"), Err(ContractError::MultiSigEscrowNotFound));
    assert_eq!(t.resolve_ms("x", "judge", true), Err(ContractError::ArbitrationNotFound));
    t.create_ms("m", 300, 9, &["s1", "s2"], 2).unwrap();
    t.call(|c, e| {
        c.request_multisig_arbitration(e, sym("m"), addr("payer"), addr("judge"), 7)
    })
    .unwrap();
    assert_eq!(t.balance("judge"), 7);
    assert_eq!(t.resolve_ms("m", "s1", true), Err(ContractError::NotAnArbitrator));
    t.approve("m", "s1").unwrap();
    t.approve("m", "s2").unwrap();
    assert_eq!(t.balance("worker"), 300);
    assert_eq!(t.resolve_ms("m", "judge", false), Err(ContractError::EscrowFinalized));
    assert_eq!(t.request_ms("m", "payer", "judge"), Err(ContractError::EscrowFinalized));
    assert_eq!(t.cancel_ms("m", "payer"), Err(ContractError::AlreadyReleased));
    // A dispute over a plain escrow names no multi-signature escrow.
    t.create("p", 100, 9).unwrap();
    t.request("p", "payer", "judge", 0).unwrap();
    assert_eq!(t.resolve_ms("p", "judge", true), Err(ContractError::MultiSigEscrowNotFound));
    t.create_ms("n", 300, 9, &["s1"], 1).unwrap();
    t.request_ms("n", "payer", "judge").unwrap();
    assert_eq!(t.resolve("n", "judge", true), Err(ContractError::EscrowNotFound));
    t.now = 9;
    t.cancel_ms("n", "payer").unwrap();
    assert_eq!(t.approve("n", "s1"), Err(ContractError::EscrowCancelled));
}

#[test]
fn a_paused_market_refuses() {
    let mut t = Ledger::new();
    t.create("e", 500, 0).unwrap();
    t.call(|c, e| c.add_arbitrator(e, addr("judge"))).unwrap();
    t.create("d", 300, 9).unwrap();
    t.request("d", "payer", "judge", 0).unwrap();
    let (locked, paid) = (t.balance("contract"), t.balance("worker"));
    assert_eq!(t.call(|c, e| c.pause(e, addr("bob"))), Err(ContractError::MissingRole));
    t.call(|c, e| c.pause(e, addr("admin"))).unwrap();
    assert_eq!(t.contract.is_paused(), Ok(true));
    assert_eq!(t.tip(1), Err(ContractError::ContractIsPaused));
    assert_eq!(t.asked, vec![Call::RequireAuth(addr("payer"))]);
    assert_eq!(t.create("f", 1, 9), Err(ContractError::ContractIsPaused));
    assert_eq!(t.release("e", "payer"), Err(ContractError::ContractIsPaused));
    assert_eq!(t.cancel("e", "payer"), Err(ContractError::ContractIsPaused));
    assert_eq!(t.cancel_ms("e", "payer"), Err(ContractError::ContractIsPaused));
    assert_eq!(t.request_ms("e", "payer", "judge"), Err(ContractError::ContractIsPaused));
    assert_eq!(t.resolve_ms("e", "judge", true), Err(ContractError::ContractIsPaused));
    assert_eq!(
        t.call(|c, e| c.cancel_expired_escrow(e, sym("e"))),
        Err(ContractError::ContractIsPaused)
    );
    assert_eq!(
        t.call(|c, e| c.batch_release_escrow(e, addr("payer"), syms(&["e"]))),
        Err(ContractError::ContractIsPaused)
    );
    assert_eq!(
        t.call(|c, e| c.grant_role(e, addr("admin"), sym(ROLE_PAUSER), addr("bob"))),
        Err(ContractError::ContractIsPaused)
    );
    assert_eq!(
        t.call(|c, e| c.revoke_role(e, addr("admin"), sym(ROLE_PAUSER), addr("admin"))),
        Err(ContractError::ContractIsPaused)
    );
    assert_eq!(t.request("e", "payer", "judge", 0), Err(ContractError::ContractIsPaused));
    assert_eq!(t.resolve("d", "judge", true), Err(ContractError::ContractIsPaused));
    assert_eq!(t.asked, vec![Call::RequireAuth(addr("judge"))]);
    assert_eq!((t.balance("contract"), t.balance("worker")), (locked, paid));
    assert!(!t.contract.get_escrow(sym("d")).unwrap().unwrap().released);
    assert!(!t.contract.get_arbitration(sym("d")).unwrap().unwrap().resolved);
    assert_eq!(
        t.call(|c, e| c.add_arbitrator(e, addr("bob"))),
        Err(ContractError::ContractIsPaused)
    );
    assert_eq!(
        t.call(|c, e| c.remove_arbitrator(e, addr("judge"))),
        Err(ContractError::ContractIsPaused)
    );
    assert_eq!(t.call(|c, e| c.update_fee(e, 1)), Err(ContractError::ContractIsPaused));
    assert_eq!(
        t.call(|c, e| c.set_treasury(e, addr("admin"), addr("bob"))),
        Err(ContractError::ContractIsPaused)
    );
    assert_eq!(
        t.call(|c, e| c.set_admin(e, addr("bob"))),
        Err(ContractError::ContractIsPaused)
    );
    assert_eq!(t.asked, vec![Call::RequireAuth(addr("admin"))]);
    assert_eq!(t.contract.get_admin(), Ok(addr("admin")));
    assert_eq!(t.migrate("admin", 1), Err(ContractError::ContractIsPaused));
    assert_eq!(
        t.contract.check_migrate(&addr("admin"), 1),
        Err(ContractError::ContractIsPaused)
    );
    // The code can be replaced all the same.
    assert_eq!(t.call(|c, e| c.upgrade(e, Hash32 { bytes: [1; 32] })), Ok(()));
    assert_eq!(
        t.asked,
        vec![
            Call::RequireAuth(addr("admin")),
            Call::UpdateWasm(Hash32 { bytes: [1; 32] }),
        ]
    );
    assert_eq!(t.contract.is_paused(), Ok(true));
    t.call(|c, e| c.unpause(e, addr("admin"))).unwrap();
    assert_eq!(t.tip(1), Ok(()));
    assert_eq!(t.resolve("d", "judge", true), Ok(()));
    assert_eq!(t.balance("worker"), paid + 300 + 1);
}

#[test]
fn a_migration_announces_both_versions() {
    let mut t = Ledger::new();
    t.migrate("admin", 1).unwrap();
    assert_eq!(
        t.asked,
        vec![
            Call::RequireAuth(addr("admin")),
            Call::Write(DataKey::SchemaVersion),
            Call::Publish {
                topics: Topics::One("Migrated"),
                data: Data::Two(Val::U32(1), Val::U32(2)),
            },
        ]
    );
    assert_eq!(Ledger::bare().contract.get_schema_version(), Ok(1));
}

//! The payment contract, run against a small ledger that performs what it asks for.

use std::collections::HashMap;

use bluecollar::error::ContractError;
use bluecollar::fees::split_fee;
use bluecollar::host::{Call, Data, Env, Topics, Val};
use bluecollar::payment::{
    role_to_id, DataKey, LockedPayment, PaymentContract, PaymentStatus, MAX_FEE_BPS, ROLE_ADMIN,
    ROLE_FEE_MGR, ROLE_PAUSER, ROLE_UPGRADER, TTL_EXTEND_TO, TTL_THRESHOLD, VERSION,
};
use bluecollar::values::{Address, Hash32, Symbol};

fn addr(text: &str) -> Address {
    Address::new(text)
}

fn sym(text: &str) -> Symbol {
    Symbol::new(text)
}

struct Ledger {
    contract: PaymentContract,
    now: u64,
    balances: HashMap<String, i128>,
    asked: Vec<Call<DataKey>>,
}

impl Ledger {
    fn bare() -> Self {
        let mut balances = HashMap::new();
        balances.insert("client".to_string(), 100_000_000);
        Ledger { contract: PaymentContract::new(), now: 0, balances, asked: Vec::new() }
    }

    fn new(fee_bps: u32) -> Self {
        let mut l = Ledger::bare();
        l.call(|c, e| c.initialize(e, addr("admin"), fee_bps, addr("treasury"))).unwrap();
        l
    }

    /// Run one invocation; where it succeeds, move the tokens that it asks for.
    fn call<R>(
        &mut self,
        f: impl FnOnce(&mut PaymentContract, &mut Env<DataKey>) -> Result<R, ContractError>,
    ) -> Result<R, ContractError> {
        let mut env = Env::new(self.now, 7, addr("contract"));
        let r = f(&mut self.contract, &mut env);
        for call in &env.calls {
            if let Call::Transfer { from, to, amount, .. } = call {
                assert!(r.is_ok());
                assert!(*amount > 0);
                *self.balances.entry(from.text.clone()).or_insert(0) -= amount;
                *self.balances.entry(to.text.clone()).or_insert(0) += amount;
                assert!(self.balances[&from.text] >= 0);
            }
        }
        self.asked = env.calls;
        r
    }

    fn balance(&self, who: &str) -> i128 {
        *self.balances.get(who).unwrap_or(&0)
    }

    fn lock(&mut self, id: &str, amount: i128, expiry: u64) -> Result<(), ContractError> {
        self.call(|c, e| {
            c.lock_payment(
                e,
                addr("client"),
                addr("worker"),
                addr("token"),
                sym(id),
                amount,
                expiry,
            )
        })
    }

    fn release(&mut self, caller: &str, id: &str) -> Result<(), ContractError> {
        self.call(|c, e| c.release_payment(e, addr(caller), sym(id)))
    }

    fn refund(&mut self, caller: &str, id: &str) -> Result<(), ContractError> {
        self.call(|c, e| c.refund_payment(e, addr(caller), sym(id)))
    }

    fn pay(&mut self, amount: i128) -> Result<(), ContractError> {
        self.call(|c, e| c.pay(e, addr("client"), addr("worker"), addr("token"), amount))
    }

    fn grant(&mut self, role: &str, account: &str) -> Result<(), ContractError> {
        self.call(|c, e| c.grant_role(e, addr("admin"), sym(role), addr(account)))
    }
}

fn amounts() -> Vec<i128> {
    vec![1, 2, 19, 20, 99, 100, 9_999, 10_000, 123_457, 9_999_999, 10_000_000]
}

#[test]
fn fuzz_lock_payment_stores_correctly() {
    for amount in amounts() {
        for (id, offset) in [("a", 1u64), ("0123456789abcdef", 1_000_000)] {
            let mut l = Ledger::new(0);
            l.lock(id, amount, offset).unwrap();
            let payment = l.contract.get_payment(sym(id)).unwrap();
            assert_eq!(payment.amount, amount);
            assert_eq!(payment.client, addr("client"));
            assert_eq!(payment.worker, addr("worker"));
        }
    }
}

#[test]
fn fuzz_release_payment_transfers_correctly() {
    for amount in amounts() {
        let mut l = Ledger::new(0);
        l.lock("id", amount, 1000).unwrap();
        let before = l.balance("worker");
        l.release("client", "id").unwrap();
        assert_eq!(l.balance("worker") - before, amount);
    }
}

#[test]
fn fuzz_refund_expired_payment() {
    for amount in amounts() {
        let mut l = Ledger::new(0);
        l.lock("id", amount, 100).unwrap();
        l.now = 101;
        let before = l.balance("client");
        l.refund("client", "id").unwrap();
        assert_eq!(l.balance("client") - before, amount);
    }
}

#[test]
fn fuzz_pay_with_fees() {
    for amount in amounts() {
        for fee_bps in [0u32, 1, 50, 100, 333, 499, 500] {
            let mut l = Ledger::new(fee_bps);
            l.pay(amount).unwrap();
            let expected_fee = (amount * fee_bps as i128) / 10_000;
            assert_eq!(l.balance("worker"), amount - expected_fee);
            assert_eq!(l.balance("treasury"), expected_fee);
        }
    }
}

#[test]
fn fuzz_payment_amount_safety() {
    for amount in amounts() {
        let mut l = Ledger::new(0);
        assert!(l.lock("id", amount, 1000).is_ok());
    }
}

#[test]
fn fuzz_zero_amount_rejected() {
    for id in ["a", "payment1", "zzzzzzzzzzzzzzzz"] {
        let mut l = Ledger::new(0);
        assert_eq!(l.lock(id, 0, 1000), Err(ContractError::AmountMustBePositive));
    }
}

#[test]
fn fuzz_max_i128_amount() {
    for amount in -100i128..=100 {
        let mut l = Ledger::new(0);
        let r = l.lock("id", amount, 1000);
        if amount <= 0 {
            assert!(r.is_err());
        } else {
            assert!(r.is_ok());
        }
    }
}

#[test]
fn the_fee_of_the_largest_amount_is_exact() {
    let (fee, net) = split_fee(i128::MAX, 500);
    assert_eq!(fee, 8_507_059_173_023_461_586_584_365_185_794_205_286);
    assert_eq!(net, 161_634_124_287_445_770_145_102_938_530_089_900_441);
    assert_eq!(fee + net, i128::MAX);
    assert_eq!(split_fee(12_345, 250), (308, 12_037));
    assert_eq!(split_fee(100_000, 0), (0, 100_000));
    assert_eq!(split_fee(10, 10_000), (10, 0));
}

#[test]
fn initialises_once() {
    let mut l = Ledger::bare();
    assert_eq!(l.contract.get_admin(), Err(ContractError::NotInitialized));
    assert_eq!(l.contract.get_config_view(), Err(ContractError::NotInitialized));
    assert_eq!(l.pay(5), Err(ContractError::NotInitialized));
    assert_eq!(
        l.call(|c, e| c.initialize(e, addr("admin"), MAX_FEE_BPS + 1, addr("treasury"))),
        Err(ContractError::FeeBpsExceedsMaximum)
    );
    assert_eq!(
        l.call(|c, e| c.initialize(e, addr("admin"), MAX_FEE_BPS, addr("treasury"))),
        Ok(())
    );
    assert_eq!(
        l.asked,
        vec![
            Call::Write(DataKey::Config),
            Call::Write(DataKey::Admin),
            Call::Write(DataKey::SchemaVersion),
            Call::Write(DataKey::RoleMembers(0)),
            Call::Publish {
                topics: Topics::Two("Init", Val::Address(addr("admin"))),
                data: Data::One(Val::U32(1)),
            },
        ]
    );
    assert_eq!(l.contract.schema_version, Some(1));
    assert_eq!(l.contract.get_admin(), Ok(addr("admin")));
    assert_eq!(l.contract.has_role(sym(ROLE_ADMIN), addr("admin")), Ok(true));
    assert_eq!(l.contract.get_config_view().unwrap().fee_bps, 500);
    assert_eq!(
        l.call(|c, e| c.initialize(e, addr("other"), 0, addr("other"))),
        Err(ContractError::AlreadyInitialized)
    );
    assert_eq!(l.contract.version(), Ok(VERSION));
}

#[test]
fn roles_are_granted_and_revoked() {
    let mut l = Ledger::new(0);
    l.grant(ROLE_PAUSER, "bob").unwrap();
    l.grant(ROLE_PAUSER, "bob").unwrap();
    assert_eq!(
        l.asked,
        vec![
            Call::RequireAuth(addr("admin")),
            Call::Write(DataKey::RoleMembers(2)),
            Call::Publish {
                topics: Topics::Two("RlGrnt", Val::Symbol(sym("pauser"))),
                data: Data::One(Val::Address(addr("bob"))),
            },
        ]
    );
    assert_eq!(l.contract.has_role(sym(ROLE_PAUSER), addr("bob")), Ok(true));
    assert_eq!(l.contract.has_role(sym(ROLE_UPGRADER), addr("bob")), Ok(false));
    assert_eq!(
        l.call(|c, e| c.revoke_role(e, addr("bob"), sym(ROLE_PAUSER), addr("bob"))),
        Err(ContractError::MissingRole)
    );
    l.call(|c, e| c.revoke_role(e, addr("admin"), sym(ROLE_PAUSER), addr("bob"))).unwrap();
    assert_eq!(l.contract.has_role(sym(ROLE_PAUSER), addr("bob")), Ok(false));
    assert_eq!(
        l.call(|c, e| c.grant_role(e, addr("bob"), sym(ROLE_PAUSER), addr("bob"))),
        Err(ContractError::MissingRole)
    );
}

#[test]
fn unknown_roles_share_an_id() {
    assert_eq!(role_to_id(&sym(ROLE_ADMIN)), 0);
    assert_eq!(role_to_id(&sym(ROLE_FEE_MGR)), 1);
    assert_eq!(role_to_id(&sym(ROLE_PAUSER)), 2);
    assert_eq!(role_to_id(&sym(ROLE_UPGRADER)), 3);
    assert_eq!(role_to_id(&sym("janitor")), u64::MAX);
    assert_eq!(role_to_id(&sym("Admin")), u64::MAX);
}

#[test]
fn the_fee_is_updated_by_its_manager() {
    let mut l = Ledger::new(0);
    assert_eq!(
        l.call(|c, e| c.update_fee(e, addr("admin"), 100)),
        Err(ContractError::MissingRole)
    );
    l.grant(ROLE_FEE_MGR, "fees").unwrap();
    assert_eq!(
        l.call(|c, e| c.update_fee(e, addr("fees"), 501)),
        Err(ContractError::FeeBpsExceedsMaximum)
    );
    l.call(|c, e| c.update_fee(e, addr("fees"), 100)).unwrap();
    assert_eq!(l.contract.get_config_view().unwrap().fee_bps, 100);
    assert_eq!(l.contract.get_config_view().unwrap().fee_recipient, addr("treasury"));
    l.pay(100_000).unwrap();
    assert_eq!(l.balance("worker"), 99_000);
    assert_eq!(l.balance("treasury"), 1_000);
}

#[test]
fn the_treasury_is_set_by_an_admin() {
    let mut l = Ledger::new(200);
    assert_eq!(
        l.call(|c, e| c.set_treasury(e, addr("client"), addr("vault"))),
        Err(ContractError::MissingRole)
    );
    l.call(|c, e| c.set_treasury(e, addr("admin"), addr("vault"))).unwrap();
    l.pay(100_000).unwrap();
    assert_eq!(l.balance("vault"), 2_000);
    assert_eq!(l.balance("treasury"), 0);
}

#[test]
fn a_payment_is_announced_with_payer_and_payee_as_topics() {
    let mut l = Ledger::new(500);
    l.pay(1_000).unwrap();
    assert_eq!(l.asked.len(), 4);
    assert_eq!(
        l.asked[3],
        Call::Publish {
            topics: Topics::Three("Pay", Val::Address(addr("client")), Val::Address(addr("worker"))),
            data: Data::Three(Val::Address(addr("token")), Val::I128(1_000), Val::I128(50)),
        }
    );
    // A fee that rounds to nothing asks for no transfer.
    l.pay(19).unwrap();
    assert_eq!(l.asked.len(), 3);
    assert_eq!(l.pay(0), Err(ContractError::AmountMustBePositive));
    assert_eq!(l.pay(-1), Err(ContractError::AmountMustBePositive));
}

#[test]
fn storage_is_written_before_tokens_move() {
    let mut l = Ledger::new(0);
    l.lock("id", 10, 5).unwrap();
    assert_eq!(
        l.asked[..4],
        [
            Call::RequireAuth(addr("client")),
            Call::Write(DataKey::Payment(sym("id"))),
            Call::ExtendTtl {
                key: DataKey::Payment(sym("id")),
                threshold: TTL_THRESHOLD,
                extend_to: TTL_EXTEND_TO,
            },
            Call::Transfer {
                token: addr("token"),
                from: addr("client"),
                to: addr("contract"),
                amount: 10,
            },
        ]
    );
    l.release("client", "id").unwrap();
    assert_eq!(l.asked[1], Call::Write(DataKey::Payment(sym("id"))));
    assert!(matches!(l.asked[3], Call::Transfer { .. }));
    assert_eq!(l.asked.len(), 5);
}

#[test]
fn locks_are_checked() {
    let mut l = Ledger::new(0);
    l.now = 50;
    assert_eq!(l.lock("id", 10, 50), Err(ContractError::ExpiryMustBeInFuture));
    assert_eq!(l.lock("id", 10, 51), Ok(()));
    assert_eq!(l.lock("id", 10, 60), Err(ContractError::AlreadyExists));
    assert_eq!(l.balance("contract"), 10);
    assert_eq!(
        l.contract.get_payment(sym("id")),
        Ok(LockedPayment {
            id: sym("id"),
            client: addr("client"),
            worker: addr("worker"),
            token: addr("token"),
            amount: 10,
            expiry: 51,
            status: PaymentStatus::Locked,
        })
    );
    assert_eq!(l.contract.get_payment(sym("no")), Err(ContractError::PaymentNotFound));
}

#[test]
fn a_payment_is_settled_once() {
    let mut l = Ledger::new(500);
    l.lock("id", 10, 5).unwrap();
    assert_eq!(l.release("worker", "id"), Err(ContractError::NotAuthorized));
    assert_eq!(l.refund("client", "id"), Err(ContractError::NotAuthorized));
    assert_eq!(l.release("client", "no"), Err(ContractError::PaymentNotFound));
    assert_eq!(l.refund("client", "no"), Err(ContractError::PaymentNotFound));
    l.release("admin", "id").unwrap();
    assert_eq!(l.balance("worker"), 10);
    assert_eq!(l.balance("contract"), 0);
    assert_eq!(l.contract.get_payment(sym("id")).unwrap().status, PaymentStatus::Released);
    assert_eq!(l.release("admin", "id"), Err(ContractError::PaymentNotLocked));
    assert_eq!(l.refund("admin", "id"), Err(ContractError::PaymentNotLocked));
    // A stranger learns nothing of a settled payment.
    assert_eq!(l.release("worker", "id"), Err(ContractError::NotAuthorized));
}

#[test]
fn the_client_takes_back_at_expiry_and_the_admin_at_any_time() {
    let mut l = Ledger::new(0);
    l.lock("one", 10, 5).unwrap();
    l.lock("two", 20, 5).unwrap();
    l.refund("admin", "one").unwrap();
    assert_eq!(l.contract.get_payment(sym("one")).unwrap().status, PaymentStatus::Refunded);
    l.now = 4;
    assert_eq!(l.refund("client", "two"), Err(ContractError::NotAuthorized));
    l.now = 5;
    assert_eq!(l.refund("worker", "two"), Err(ContractError::NotAuthorized));
    l.refund("client", "two").unwrap();
    assert_eq!(l.balance("client"), 100_000_000);
    assert_eq!(l.balance("contract"), 0);
}

#[test]
fn nothing_moves_while_paused() {
    let mut l = Ledger::new(0);
    l.lock("id", 10, 5).unwrap();
    assert_eq!(
        l.call(|c, e| c.pause(e, addr("admin"))),
        Err(ContractError::MissingRole)
    );
    l.grant(ROLE_PAUSER, "admin").unwrap();
    l.call(|c, e| c.pause(e, addr("admin"))).unwrap();
    assert_eq!(l.contract.is_paused(), Ok(true));
    assert_eq!(l.pay(1), Err(ContractError::ContractIsPaused));
    assert!(l.asked.is_empty());
    assert_eq!(l.lock("two", 1, 5), Err(ContractError::ContractIsPaused));
    assert_eq!(l.release("client", "id"), Err(ContractError::ContractIsPaused));
    assert_eq!(l.refund("admin", "id"), Err(ContractError::ContractIsPaused));
    assert_eq!(
        l.call(|c, e| c.unpause(e, addr("client"))),
        Err(ContractError::MissingRole)
    );
    l.call(|c, e| c.unpause(e, addr("admin"))).unwrap();
    assert_eq!(l.contract.is_paused(), Ok(false));
    assert_eq!(l.release("client", "id"), Ok(()));
}

#[test]
fn anyone_keeps_a_payment_alive() {
    let mut l = Ledger::new(0);
    l.lock("id", 10, 5).unwrap();
    l.call(|c, e| c.extend_payment_ttl_pub(e, sym("id"))).unwrap();
    assert_eq!(
        l.asked,
        vec![Call::ExtendTtl {
            key: DataKey::Payment(sym("id")),
            threshold: 267_500,
            extend_to: 535_000,
        }]
    );
}

#[test]
fn only_an_upgrader_replaces_the_code() {
    let mut l = Ledger::new(0);
    let hash = Hash32 { bytes: [3; 32] };
    assert_eq!(
        l.call(|c, e| c.upgrade(e, addr("admin"), hash)),
        Err(ContractError::MissingRole)
    );
    assert_eq!(l.asked, vec![Call::RequireAuth(addr("admin"))]);
    l.grant(ROLE_UPGRADER, "admin").unwrap();
    l.call(|c, e| c.upgrade(e, addr("admin"), hash)).unwrap();
    assert_eq!(l.asked, vec![Call::RequireAuth(addr("admin")), Call::UpdateWasm(hash)]);
}

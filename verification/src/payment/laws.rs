//! What holds of the payment contract whatever is asked of it.
//!
//! [`Op`] lists the entry points that can change the state or move tokens. [`PaymentState::after`]
//! and [`PaymentState::moves`] put together what their contracts say.

use vstd::prelude::*;

use super::{
    lock_calls, pay_calls, role_id, settle_calls, LockedPayment, PaymentState, PaymentStatus,
    MAX_FEE_BPS, ROLE_ADMIN, ROLE_ADMIN_ID, ROLE_FEE_MGR, ROLE_PAUSER, ROLE_PAUSER_ID,
    ROLE_UPGRADER,
};
use crate::error::ContractError;
use crate::fees::{fee_of, lemma_fee_bounds, net_of};
use crate::host::Call;
use crate::ledger::{
    flow, gain, lemma_flow_one, lemma_total_insert, total, writes_come_first,
};
use crate::list::{lemma_with_holds, lemma_without_keeps, lemma_without_removes};
use crate::roles::{is_member, members, role_verdict};
use crate::values::{Address, Symbol};

verus! {

/// A call of an entry point that can change the state or move tokens.
pub ghost enum Op {
    Initialize { admin: Address, fee_bps: u32, fee_recipient: Address },
    GrantRole { caller: Address, role: Symbol, account: Address },
    RevokeRole { caller: Address, role: Symbol, account: Address },
    UpdateFee { caller: Address, fee_bps: u32 },
    SetTreasury { caller: Address, treasury: Address },
    Pause { caller: Address },
    Unpause { caller: Address },
    Pay { from: Address, to: Address, token: Address, amount: i128 },
    Lock {
        from: Address,
        to: Address,
        token: Address,
        id: Symbol,
        amount: i128,
        expiry: u64,
    },
    Release { caller: Address, id: Symbol },
    Refund { caller: Address, id: Symbol },
}

/// The record that a lock puts in place.
pub open spec fn record(
    from: Address,
    to: Address,
    token: Address,
    id: Symbol,
    amount: i128,
    expiry: u64,
) -> LockedPayment {
    LockedPayment {
        id,
        client: from,
        worker: to,
        token,
        amount,
        expiry,
        status: PaymentStatus::Locked,
    }
}

impl PaymentState {
    /// What the call `op` is answered at the time `now`.
    pub open spec fn verdict(self, op: Op, now: u64) -> Result<(), ContractError> {
        match op {
            Op::Initialize { fee_bps, .. } => self.initialize_verdict(fee_bps),
            Op::GrantRole { caller, .. } => role_verdict(self.roles, ROLE_ADMIN_ID, caller@),
            Op::RevokeRole { caller, .. } => role_verdict(self.roles, ROLE_ADMIN_ID, caller@),
            Op::UpdateFee { caller, fee_bps } => self.update_fee_verdict(caller@, fee_bps),
            Op::SetTreasury { caller, .. } => self.set_treasury_verdict(caller@),
            Op::Pause { caller } => role_verdict(self.roles, ROLE_PAUSER_ID, caller@),
            Op::Unpause { caller } => role_verdict(self.roles, ROLE_PAUSER_ID, caller@),
            Op::Pay { amount, .. } => self.pay_verdict(amount),
            Op::Lock { id, amount, expiry, .. } => self.lock_verdict(id@, amount, expiry, now),
            Op::Release { caller, id } => self.release_verdict(caller@, id@),
            Op::Refund { caller, id } => self.refund_verdict(caller@, id@, now),
        }
    }

    /// The state after the call `op` at the time `now`.
    pub open spec fn after(self, op: Op, now: u64) -> PaymentState {
        if self.verdict(op, now) is Err {
            self
        } else {
            match op {
                Op::Initialize { admin, fee_bps, fee_recipient } => self.initialized(
                    admin,
                    fee_bps,
                    fee_recipient,
                ),
                Op::GrantRole { role, account, .. } => self.granted(role@, account),
                Op::RevokeRole { role, account, .. } => self.revoked(role@, account@),
                Op::UpdateFee { fee_bps, .. } => self.with_fee(fee_bps),
                Op::SetTreasury { treasury, .. } => self.with_treasury(treasury),
                Op::Pause { .. } => self.with_paused(true),
                Op::Unpause { .. } => self.with_paused(false),
                Op::Pay { .. } => self,
                Op::Lock { from, to, token, id, amount, expiry } => self.with_payment(
                    record(from, to, token, id, amount, expiry),
                ),
                Op::Release { id, .. } => self.with_status(id@, PaymentStatus::Released),
                Op::Refund { id, .. } => self.with_status(id@, PaymentStatus::Refunded),
            }
        }
    }

    /// What the call `op` asks of the host where tokens move; nothing, where none do.
    pub open spec fn moves(self, op: Op, now: u64, contract: Address) -> Seq<
        Call<super::DataKey>,
    > {
        if self.verdict(op, now) is Err {
            seq![]
        } else {
            match op {
                Op::Pay { from, to, token, amount } => pay_calls(
                    from,
                    to,
                    token,
                    amount,
                    self.config->0,
                ),
                Op::Lock { from, to, token, id, amount, expiry } => lock_calls(
                    contract,
                    record(from, to, token, id, amount, expiry),
                ),
                Op::Release { caller, id } => settle_calls(
                    "Released",
                    contract,
                    caller,
                    id,
                    self.payments[id@],
                    self.payments[id@].worker,
                ),
                Op::Refund { caller, id } => settle_calls(
                    "Refunded",
                    contract,
                    caller,
                    id,
                    self.payments[id@],
                    self.payments[id@].client,
                ),
                _ => seq![],
            }
        }
    }

    /// What is locked in the contract of `token`.
    pub open spec fn locked(self, token: Seq<char>) -> int {
        total(self.payments, claim(token))
    }
}

/// What a payment claims of `token`: its amount, while it is locked.
pub open spec fn claim(token: Seq<char>) -> spec_fn(LockedPayment) -> int {
    |p: LockedPayment|
        if p.token@ == token && p.status == PaymentStatus::Locked {
            p.amount as int
        } else {
            0
        }
}

/// Whether the contract's own account pays for `op`.
pub open spec fn paid_by_contract(op: Op, contract: Address) -> bool {
    match op {
        Op::Pay { from, .. } => from@ == contract@,
        Op::Lock { from, .. } => from@ == contract@,
        _ => false,
    }
}

/// No call takes the state out of its bounds: the fee stays at or below the cap, and every
/// payment stays under its own id with a positive amount.
pub proof fn every_call_keeps_the_bounds(s: PaymentState, op: Op, now: u64)
    requires
        s.wf(),
    ensures
        s.after(op, now).wf(),
{
}

/// Once initialised, the contract stays so: no later call removes the configuration, and none
/// is allowed to initialise again.
pub proof fn initialised_once(s: PaymentState, op: Op, now: u64)
    requires
        s.config is Some,
    ensures
        s.after(op, now).config is Some,
        op is Initialize ==> s.verdict(op, now) == Err::<(), ContractError>(
            ContractError::AlreadyInitialized,
        ),
{
}

/// Initialising makes the given address the admin, and a member of the admin's role.
pub proof fn initialising_gives_the_admin_role(
    s: PaymentState,
    admin: Address,
    fee_bps: u32,
    fee_recipient: Address,
)
    ensures
        s.initialized(admin, fee_bps, fee_recipient).admin == Some(admin),
        s.initialized(admin, fee_bps, fee_recipient).is_admin(admin@),
{
    let m = members(s.initialized(admin, fee_bps, fee_recipient).roles, ROLE_ADMIN_ID);
    assert(m[0]@ == admin@);
}

/// A payment keeps its terms for ever: no call changes anything of it but its status, or deletes
/// it.
pub proof fn terms_never_change(s: PaymentState, op: Op, now: u64, id: Seq<char>)
    requires
        s.payments.contains_key(id),
    ensures
        s.after(op, now).payments.contains_key(id),
        s.after(op, now).payments[id] == (LockedPayment {
            status: s.after(op, now).payments[id].status,
            ..s.payments[id]
        }),
{
}

/// A payment is settled at most once: after release or refund, no call changes it, and every
/// further release or refund is refused.
pub proof fn settled_once(s: PaymentState, op: Op, now: u64, id: Seq<char>)
    requires
        s.payments.contains_key(id),
        s.payments[id].status != PaymentStatus::Locked,
    ensures
        s.after(op, now).payments.contains_key(id),
        s.after(op, now).payments[id] == s.payments[id],
        forall|caller: Seq<char>| #[trigger] s.release_verdict(caller, id) is Err,
        forall|caller: Seq<char>| #[trigger] s.refund_verdict(caller, id, now) is Err,
{
}

/// Only a lock, with a positive amount, an expiry to come and an id not in use, adds a payment.
pub proof fn only_locking_adds(s: PaymentState, op: Op, now: u64, id: Seq<char>)
    requires
        !s.payments.contains_key(id),
        s.after(op, now).payments.contains_key(id),
    ensures
        op is Lock,
        s.after(op, now).payments[id].status == PaymentStatus::Locked,
        s.after(op, now).payments[id].amount > 0,
        s.after(op, now).payments[id].expiry > now,
{
}

/// What was locked can be read back as it was given.
pub proof fn locked_reads_back(s: PaymentState, p: LockedPayment)
    ensures
        s.with_payment(p).payments.contains_key(p.id@),
        s.with_payment(p).payments[p.id@] == p,
        forall|other: Seq<char>|
            other != p.id@ ==> (#[trigger] s.with_payment(p).payments.contains_key(other)
                == s.payments.contains_key(other)) && s.with_payment(p).payments[other]
                == s.payments[other],
{
}

/// Funds are never stuck: while the contract is not paused, the client can release a locked
/// payment at any time and take it back once it has expired, and an admin can do either at any
/// time.
pub proof fn locked_funds_can_be_settled(s: PaymentState, who: Seq<char>, id: Seq<char>, now: u64)
    requires
        !s.paused,
        s.payments.contains_key(id),
        s.payments[id].status == PaymentStatus::Locked,
    ensures
        s.release_verdict(who, id) is Ok <==> (who == s.payments[id].client@ || s.is_admin(who)),
        s.refund_verdict(who, id, now) is Ok <==> (s.is_admin(who) || (who
            == s.payments[id].client@ && now >= s.payments[id].expiry)),
{
}

/// While the contract is paused, no tokens move and no payment changes: paying, locking,
/// releasing and refunding are refused.
pub proof fn paused_moves_nothing(s: PaymentState, op: Op, now: u64, contract: Address)
    requires
        s.paused,
    ensures
        s.moves(op, now, contract) == Seq::<Call<super::DataKey>>::empty(),
        s.after(op, now).payments == s.payments,
        op is Pay || op is Lock || op is Release || op is Refund ==> s.verdict(op, now) == Err::<
            (),
            ContractError,
        >(ContractError::ContractIsPaused),
{
}

/// A granted role is held, and nobody else's membership of any role changes.
pub proof fn granting_gives_the_role(s: PaymentState, role: Seq<char>, account: Address)
    ensures
        is_member(s.granted(role, account).roles, role_id(role), account@),
        forall|id: u64, who: Seq<char>|
            id != role_id(role) || who != account@ ==> #[trigger] is_member(
                s.granted(role, account).roles,
                id,
                who,
            ) == is_member(s.roles, id, who),
{
    let m = members(s.roles, role_id(role));
    lemma_with_holds(m, account, account@);
    assert forall|id: u64, who: Seq<char>| id != role_id(role) || who != account@ implies #[trigger]
    is_member(s.granted(role, account).roles, id, who) == is_member(s.roles, id, who) by {
        lemma_with_holds(m, account, who);
    }
}

/// Granting a role that is held changes nothing.
pub proof fn granting_twice_is_granting_once(s: PaymentState, role: Seq<char>, account: Address)
    ensures
        s.granted(role, account).granted(role, account) == s.granted(role, account),
{
    granting_gives_the_role(s, role, account);
    assert(s.granted(role, account).granted(role, account) =~= s.granted(role, account));
}

/// A revoked role is not held, and nobody else's membership of any role changes.
pub proof fn revoking_takes_the_role(s: PaymentState, role: Seq<char>, account: Seq<char>)
    ensures
        !is_member(s.revoked(role, account).roles, role_id(role), account),
        forall|id: u64, who: Seq<char>|
            id != role_id(role) || who != account ==> #[trigger] is_member(
                s.revoked(role, account).roles,
                id,
                who,
            ) == is_member(s.roles, id, who),
{
    let m = members(s.roles, role_id(role));
    lemma_without_removes(m, account);
    assert forall|id: u64, who: Seq<char>| id != role_id(role) || who != account implies #[trigger]
    is_member(s.revoked(role, account).roles, id, who) == is_member(s.roles, id, who) by {
        if id == role_id(role) {
            lemma_without_keeps(m, account, who);
        }
    }
}

/// The roles have ids of their own; no other name shares one of these.
pub proof fn role_ids_are_distinct(name: Seq<char>)
    ensures
        role_id(ROLE_ADMIN@) == super::ROLE_ADMIN_ID,
        role_id(ROLE_FEE_MGR@) == super::ROLE_FEE_MGR_ID,
        role_id(ROLE_PAUSER@) == super::ROLE_PAUSER_ID,
        role_id(ROLE_UPGRADER@) == super::ROLE_UPGRADER_ID,
        name != ROLE_ADMIN@ && name != ROLE_FEE_MGR@ && name != ROLE_PAUSER@ && name
            != ROLE_UPGRADER@ <==> role_id(name) == u64::MAX,
        ROLE_ADMIN@ == "admin"@,
        ROLE_FEE_MGR@ == "fee_mgr"@,
        ROLE_PAUSER@ == "pauser"@,
        ROLE_UPGRADER@ == "upgrader"@,
        super::ROLE_ADMIN_ID != super::ROLE_FEE_MGR_ID,
        super::ROLE_ADMIN_ID != super::ROLE_PAUSER_ID,
        super::ROLE_ADMIN_ID != super::ROLE_UPGRADER_ID,
        super::ROLE_FEE_MGR_ID != super::ROLE_PAUSER_ID,
        super::ROLE_FEE_MGR_ID != super::ROLE_UPGRADER_ID,
        super::ROLE_PAUSER_ID != super::ROLE_UPGRADER_ID,
{
    reveal_strlit("admin");
    reveal_strlit("fee_mgr");
    reveal_strlit("pauser");
    reveal_strlit("upgrader");
    assert(ROLE_ADMIN@.len() == 5);
    assert(ROLE_FEE_MGR@.len() == 7);
    assert(ROLE_PAUSER@.len() == 6);
    assert(ROLE_UPGRADER@.len() == 8);
}

/// The storage is written before any token moves, whatever is called.
pub proof fn effects_come_before_interactions(
    s: PaymentState,
    op: Op,
    now: u64,
    contract: Address,
)
    ensures
        writes_come_first(s.moves(op, now, contract)),
{
}

/// The parts of a direct payment add up: the payer is out the amount, of which the fee is at
/// most one twentieth and the payee gets the rest.
pub proof fn paying_splits_the_amount(
    s: PaymentState,
    from: Address,
    to: Address,
    token: Address,
    amount: i128,
)
    requires
        s.wf(),
        s.pay_verdict(amount) is Ok,
        from@ != to@,
        from@ != s.config->0.fee_recipient@,
        to@ != s.config->0.fee_recipient@,
    ensures
        ({
            let calls = pay_calls(from, to, token, amount, s.config->0);
            let fee = fee_of(amount as int, s.config->0.fee_bps as int);
            &&& flow(calls, token@, from@) == -amount
            &&& flow(calls, token@, to@) == amount - fee
            &&& flow(calls, token@, s.config->0.fee_recipient@) == fee
            &&& 0 <= fee * 20 <= amount
            &&& amount - fee > 0
        }),
{
    let c = s.config->0;
    let fee = fee_of(amount as int, c.fee_bps as int);
    let net = net_of(amount as int, c.fee_bps as int);
    lemma_fee_bounds(amount as int, c.fee_bps as int);
    lemma_pay_flow(from, to, token, amount, c, token@, from@);
    lemma_pay_flow(from, to, token, amount, c, token@, to@);
    lemma_pay_flow(from, to, token, amount, c, token@, c.fee_recipient@);
    assert(fee * 20 <= amount) by {
        assert(amount * c.fee_bps <= amount * 500) by (nonlinear_arith)
            requires
                amount > 0,
                c.fee_bps <= 500,
        ;
    }
}

/// What a direct payment gives `who`.
proof fn lemma_pay_flow(
    from: Address,
    to: Address,
    token: Address,
    amount: i128,
    c: super::Config,
    t: Seq<char>,
    who: Seq<char>,
)
    requires
        amount > 0,
        c.fee_bps <= MAX_FEE_BPS,
    ensures
        ({
            let fee = fee_of(amount as int, c.fee_bps as int);
            let net = net_of(amount as int, c.fee_bps as int);
            let first: Call<super::DataKey> = Call::Transfer {
                token,
                from,
                to,
                amount: net as i128,
            };
            let second: Call<super::DataKey> = Call::Transfer {
                token,
                from,
                to: c.fee_recipient,
                amount: fee as i128,
            };
            &&& fee == fee as i128
            &&& net == net as i128
            &&& flow(pay_calls(from, to, token, amount, c), t, who) == gain(first, t, who) + (
            if fee > 0 {
                gain(second, t, who)
            } else {
                0
            })
        }),
{
    lemma_fee_bounds(amount as int, c.fee_bps as int);
    let calls = pay_calls(from, to, token, amount, c);
    let n = calls.len() as int;
    reveal_with_fuel(flow, 5);
    if fee_of(amount as int, c.fee_bps as int) > 0 {
        assert(n == 4);
        assert(calls.drop_last().drop_last().drop_last().drop_last() =~= Seq::empty());
    } else {
        assert(n == 3);
        assert(calls.drop_last().drop_last().drop_last() =~= Seq::empty());
    }
}

/// What locking gives `who`.
proof fn lemma_lock_flow(contract: Address, p: LockedPayment, t: Seq<char>, who: Seq<char>)
    ensures
        flow(lock_calls(contract, p), t, who) == gain(
            Call::<super::DataKey>::Transfer {
                token: p.token,
                from: p.client,
                to: contract,
                amount: p.amount,
            },
            t,
            who,
        ),
{
    lemma_flow_one(lock_calls(contract, p), 3, t, who);
}

/// What settling gives `who`.
proof fn lemma_settle_flow(
    name: &'static str,
    contract: Address,
    caller: Address,
    id: Symbol,
    p: LockedPayment,
    to: Address,
    t: Seq<char>,
    who: Seq<char>,
)
    ensures
        flow(settle_calls(name, contract, caller, id, p, to), t, who) == gain(
            Call::<super::DataKey>::Transfer {
                token: p.token,
                from: contract,
                to,
                amount: p.amount,
            },
            t,
            who,
        ),
{
    lemma_flow_one(settle_calls(name, contract, caller, id, p, to), 3, t, who);
}

/// The contract's holdings cover what is locked: no call that the contract's own account does
/// not pay for raises what is locked by more than the contract receives, or pays out more than
/// is unlocked.
pub proof fn locked_funds_are_covered(
    s: PaymentState,
    op: Op,
    now: u64,
    contract: Address,
    token: Seq<char>,
)
    requires
        s.wf(),
        !paid_by_contract(op, contract),
    ensures
        s.after(op, now).locked(token) - s.locked(token) <= flow(
            s.moves(op, now, contract),
            token,
            contract@,
        ),
{
    if s.verdict(op, now) is Ok {
        match op {
            Op::Pay { from, to, token: t, amount } => {
                lemma_pay_flow(from, to, t, amount, s.config->0, token, contract@);
                lemma_fee_bounds(amount as int, s.config->0.fee_bps as int);
            },
            Op::Lock { from, to, token: t, id, amount, expiry } => {
                let p = record(from, to, t, id, amount, expiry);
                lemma_lock_flow(contract, p, token, contract@);
                lemma_total_insert(s.payments, claim(token), id@, p);
            },
            Op::Release { caller, id } => {
                let p = s.payments[id@];
                lemma_settle_flow(
                    "Released",
                    contract,
                    caller,
                    id,
                    p,
                    p.worker,
                    token,
                    contract@,
                );
                lemma_total_insert(
                    s.payments,
                    claim(token),
                    id@,
                    LockedPayment { status: PaymentStatus::Released, ..p },
                );
            },
            Op::Refund { caller, id } => {
                let p = s.payments[id@];
                lemma_settle_flow(
                    "Refunded",
                    contract,
                    caller,
                    id,
                    p,
                    p.client,
                    token,
                    contract@,
                );
                lemma_total_insert(
                    s.payments,
                    claim(token),
                    id@,
                    LockedPayment { status: PaymentStatus::Refunded, ..p },
                );
            },
            _ => {},
        }
    }
}

/// The contract as it is deployed.
pub open spec fn deployed() -> PaymentState {
    PaymentState {
        config: None,
        paused: false,
        admin: None,
        roles: Map::empty(),
        payments: Map::empty(),
        schema_version: None,
    }
}

/// The state after the calls in `ops`, each with its time, one after the other.
pub open spec fn run(ops: Seq<(Op, u64)>) -> PaymentState
    decreases ops.len(),
{
    if ops.len() == 0 {
        deployed()
    } else {
        run(ops.drop_last()).after(ops.last().0, ops.last().1)
    }
}

/// What the calls in `ops` have brought the contract of `token`, all in all.
pub open spec fn received(ops: Seq<(Op, u64)>, contract: Address, token: Seq<char>) -> int
    decreases ops.len(),
{
    if ops.len() == 0 {
        0
    } else {
        received(ops.drop_last(), contract, token) + flow(
            run(ops.drop_last()).moves(ops.last().0, ops.last().1, contract),
            token,
            contract@,
        )
    }
}

/// Whatever has been called since the contract was deployed, the state is in its bounds, and
/// what is locked is covered by what the contract has received.
pub proof fn every_history_is_covered(ops: Seq<(Op, u64)>, contract: Address, token: Seq<char>)
    requires
        forall|i: int| 0 <= i < ops.len() ==> !paid_by_contract((#[trigger] ops[i]).0, contract),
    ensures
        run(ops).wf(),
        run(ops).locked(token) <= received(ops, contract, token),
    decreases ops.len(),
{
    if ops.len() > 0 {
        let before = ops.drop_last();
        assert forall|i: int| 0 <= i < before.len() implies !paid_by_contract(
            (#[trigger] before[i]).0,
            contract,
        ) by {
            assert(before[i] == ops[i]);
        }
        every_history_is_covered(before, contract, token);
        assert(!paid_by_contract(ops[ops.len() - 1].0, contract));
        locked_funds_are_covered(run(before), ops.last().0, ops.last().1, contract, token);
    }
}

/// A settled payment is paid out in full, once, to its worker or its client.
pub proof fn settling_pays_in_full(
    s: PaymentState,
    op: Op,
    now: u64,
    contract: Address,
    caller: Address,
    id: Symbol,
)
    requires
        s.wf(),
        op == (Op::Release { caller, id }) || op == (Op::Refund { caller, id }),
        s.verdict(op, now) is Ok,
        contract@ != s.payments[id@].worker@,
        contract@ != s.payments[id@].client@,
    ensures
        ({
            let p = s.payments[id@];
            let payee = if op is Release {
                p.worker
            } else {
                p.client
            };
            &&& flow(s.moves(op, now, contract), p.token@, payee@) == p.amount
            &&& flow(s.moves(op, now, contract), p.token@, contract@) == -p.amount
            &&& s.after(op, now).locked(p.token@) == s.locked(p.token@) - p.amount
        }),
{
    let p = s.payments[id@];
    let (name, payee, status) = if op is Release {
        ("Released", p.worker, PaymentStatus::Released)
    } else {
        ("Refunded", p.client, PaymentStatus::Refunded)
    };
    lemma_settle_flow(name, contract, caller, id, p, payee, p.token@, payee@);
    lemma_settle_flow(name, contract, caller, id, p, payee, p.token@, contract@);
    lemma_total_insert(s.payments, claim(p.token@), id@, LockedPayment { status, ..p });
}

} // verus!

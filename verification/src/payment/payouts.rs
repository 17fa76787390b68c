//! Who gets what: the tokens that the calls of the payment contract move, the authorisations that
//! they need, the entries that they write and the events that they publish; and what is kept.

use vstd::prelude::*;

use super::laws;
use super::laws::Op;
use super::{
    auth_unless, extend_payment, lock_calls, pay_calls, role_id, settle_calls, Config, DataKey,
    LockedPayment, PaymentState, PaymentStatus, ROLE_ADMIN_ID, ROLE_FEE_MGR_ID, ROLE_PAUSER_ID,
};
use crate::fees::{fee_of, lemma_fee_bounds, the_fee_is_its_part_of_the_amount};
use crate::host::{Call, Data, Topics, Val};
use crate::ledger::{announces, asked_by, flow, lemma_pays, pays, share, writes};
use crate::roles::{is_member, members};
use crate::values::{Address, Symbol};

verus! {

/// A direct payment takes its amount from the payer. The fee, which is its part of the amount in
/// whole units, goes to the treasury, and all the rest to the payee; nobody else gains or loses
/// anything. It is the payer's own, writes nothing, and is announced with the fee.
pub proof fn a_payment_pays_payee_and_treasury(
    from: Address,
    to: Address,
    token: Address,
    amount: i128,
    config: Config,
    t: Seq<char>,
    who: Seq<char>,
)
    requires
        amount > 0,
        config.fee_bps <= 500,
    ensures
        ({
            let calls = pay_calls(from, to, token, amount, config);
            let fee = fee_of(amount as int, config.fee_bps as int);
            &&& fee * 10_000 <= amount * config.fee_bps < (fee + 1) * 10_000
            &&& flow(calls, t, who) == share(
                token@,
                from@,
                to@,
                config.fee_recipient@,
                amount as int,
                fee,
                t,
                who,
            )
            &&& asked_by(calls, from)
            &&& forall|k: DataKey| !#[trigger] writes(calls, k)
            &&& fee == fee as i128
            &&& announces(
                calls,
                Call::Publish {
                    topics: Topics::Three("Pay", Val::Address(from), Val::Address(to)),
                    data: Data::Three(
                        Val::Address(token),
                        Val::I128(amount),
                        Val::I128(fee as i128),
                    ),
                },
            )
        }),
{
    lemma_fee_bounds(amount as int, config.fee_bps as int);
    the_fee_is_its_part_of_the_amount(amount as int, config.fee_bps as int);
    let calls = pay_calls(from, to, token, amount, config);
    let n = calls.len() as int;
    reveal_with_fuel(flow, 5);
    if fee_of(amount as int, config.fee_bps as int) > 0 {
        assert(n == 4);
        assert(calls.drop_last().drop_last().drop_last().drop_last() =~= Seq::empty());
    } else {
        assert(n == 3);
        assert(calls.drop_last().drop_last().drop_last() =~= Seq::empty());
    }
    assert(calls[n - 1] is Publish);
}

/// Locking a payment moves its amount from the client to the contract, keeps the payment alive, and
/// announces it.
pub proof fn locking_takes_the_amount_from_the_client(contract: Address, p: LockedPayment)
    ensures
        ({
            let calls = lock_calls(contract, p);
            &&& pays(calls, p.token@, p.client@, contract@, p.amount as int)
            &&& asked_by(calls, p.client)
            &&& forall|k: DataKey| #[trigger] writes(calls, k) <==> k == DataKey::Payment(p.id)
            &&& calls.contains(extend_payment(p.id))
            &&& announces(
                calls,
                Call::Publish {
                    topics: Topics::Two("Locked", Val::Symbol(p.id)),
                    data: Data::Three(
                        Val::Address(p.client),
                        Val::Address(p.worker),
                        Val::I128(p.amount),
                    ),
                },
            )
        }),
{
    let calls = lock_calls(contract, p);
    lemma_pays(calls, 3, p.token, p.client, contract, p.amount);
    assert(calls[1] == Call::Write(DataKey::Payment(p.id)));
    assert(calls[2] == extend_payment(p.id));
    assert(calls[4] is Publish);
}

/// Settling a payment moves its full amount from the contract to the party that it is settled in
/// favour of, keeps the payment alive, and announces it.
pub proof fn settling_pays_the_party_named(
    name: &'static str,
    contract: Address,
    caller: Address,
    id: Symbol,
    p: LockedPayment,
    to: Address,
)
    ensures
        ({
            let calls = settle_calls(name, contract, caller, id, p, to);
            &&& pays(calls, p.token@, contract@, to@, p.amount as int)
            &&& asked_by(calls, caller)
            &&& forall|k: DataKey| #[trigger] writes(calls, k) <==> k == DataKey::Payment(id)
            &&& calls.contains(extend_payment(id))
            &&& announces(
                calls,
                Call::Publish {
                    topics: Topics::Two(name, Val::Symbol(id)),
                    data: Data::Three(Val::Address(caller), Val::Address(to), Val::I128(p.amount)),
                },
            )
        }),
{
    let calls = settle_calls(name, contract, caller, id, p, to);
    lemma_pays(calls, 3, p.token, contract, to, p.amount);
    assert(calls[1] == Call::Write(DataKey::Payment(id)));
    assert(calls[2] == extend_payment(id));
    assert(calls[4] is Publish);
}

/// A payment is kept alive for 535 000 ledgers once fewer than 267 500 are left. A refused call
/// asks for the caller's authorisation only while the contract is not paused.
pub proof fn payments_are_kept_alive(id: Symbol, paused: bool, who: Address)
    ensures
        extend_payment(id) == (Call::ExtendTtl {
            key: DataKey::Payment(id),
            threshold: 267_500,
            extend_to: 535_000,
        }),
        paused ==> auth_unless(paused, who).len() == 0,
        !paused ==> auth_unless(paused, who).len() == 1 && auth_unless(paused, who)[0]
            == Call::<DataKey>::RequireAuth(who),
{
}

/// A settled payment has the status that it was settled with, and nothing else of it changes; no
/// other payment does, nor anything else.
pub proof fn settling_changes_the_status(
    s: PaymentState,
    id: Seq<char>,
    status: PaymentStatus,
    p: LockedPayment,
    other: Seq<char>,
)
    ensures
        ({
            let t = s.with_status(id, status);
            let u = s.with_payment(p);
            &&& t == (PaymentState { payments: t.payments, ..s })
            &&& t.payments.contains_key(id)
            &&& t.payments[id].status == status
            &&& t.payments[id] == (LockedPayment {
                status: t.payments[id].status,
                ..s.payments[id]
            })
            &&& other != id ==> t.payments.contains_key(other) == s.payments.contains_key(other)
                && t.payments[other] == s.payments[other]
            &&& u == (PaymentState { payments: u.payments, ..s })
        }),
{
}

/// Initialising keeps fee, treasury and admin as given, the first schema version, and the admin as
/// the one member of the admin's role. It changes nothing else.
pub proof fn initialising_keeps_what_is_given(
    s: PaymentState,
    admin: Address,
    fee_bps: u32,
    fee_recipient: Address,
)
    ensures
        ({
            let t = s.initialized(admin, fee_bps, fee_recipient);
            &&& t.config is Some && t.config->0.fee_bps == fee_bps && t.config->0.fee_recipient
                == fee_recipient
            &&& t.admin == Some(admin)
            &&& t.schema_version == Some(1u32)
            &&& members(t.roles, ROLE_ADMIN_ID) == seq![admin]
            &&& forall|r: u64|
                r != ROLE_ADMIN_ID ==> #[trigger] members(t.roles, r) == members(s.roles, r)
            &&& t == (PaymentState {
                config: t.config,
                admin: t.admin,
                schema_version: t.schema_version,
                roles: t.roles,
                ..s
            })
        }),
{
}

/// Setting the fee, the treasury, the pause or the members of a role sets just that, and the fee
/// and the treasury leave each other alone.
pub proof fn settings_change_one_thing(
    s: PaymentState,
    fee_bps: u32,
    who: Address,
    paused: bool,
    role: Seq<char>,
)
    requires
        s.config is Some,
    ensures
        ({
            let f = s.with_fee(fee_bps);
            let t = s.with_treasury(who);
            let p = s.with_paused(paused);
            let g = s.granted(role, who);
            let r = s.revoked(role, who@);
            &&& f.config is Some && f.config->0.fee_bps == fee_bps && f.config->0.fee_recipient
                == s.config->0.fee_recipient
            &&& f == (PaymentState { config: f.config, ..s })
            &&& t.config is Some && t.config->0.fee_recipient == who && t.config->0.fee_bps
                == s.config->0.fee_bps
            &&& t == (PaymentState { config: t.config, ..s })
            &&& p.paused == paused
            &&& p == (PaymentState { paused: p.paused, ..s })
            &&& g == (PaymentState { roles: g.roles, ..s })
            &&& r == (PaymentState { roles: r.roles, ..s })
        }),
{
}

/// Every call that is let in keeps what it was given: the admin, the fee and the treasury, who
/// holds a role, the pause, a payment with the terms asked for, and how it was settled.
pub proof fn every_call_keeps_what_it_was_given(s: PaymentState, op: Op, now: u64)
    requires
        s.verdict(op, now) is Ok,
    ensures
        ({
            let t = s.after(op, now);
            match op {
                Op::Initialize { admin, fee_bps, fee_recipient } => t.config == Some(
                    Config { fee_bps, fee_recipient },
                ) && t.admin == Some(admin),
                Op::GrantRole { role, account, .. } => is_member(
                    t.roles,
                    role_id(role@),
                    account@,
                ) && t == (PaymentState { roles: t.roles, ..s }),
                Op::RevokeRole { role, account, .. } => !is_member(
                    t.roles,
                    role_id(role@),
                    account@,
                ) && t == (PaymentState { roles: t.roles, ..s }),
                Op::UpdateFee { fee_bps, .. } => t.config is Some && t.config->0.fee_bps == fee_bps
                    && t == (PaymentState { config: t.config, ..s }),
                Op::SetTreasury { treasury, .. } => t.config is Some && t.config->0.fee_recipient
                    == treasury && t == (PaymentState { config: t.config, ..s }),
                Op::Pause { .. } => t.paused && t == (PaymentState { paused: t.paused, ..s }),
                Op::Unpause { .. } => !t.paused && t == (PaymentState { paused: t.paused, ..s }),
                Op::Pay { .. } => t == s,
                Op::Lock { from, to, token, id, amount, expiry } => {
                    let p = t.payments[id@];
                    &&& t.payments.contains_key(id@)
                    &&& p.id == id && p.client == from && p.worker == to && p.token == token
                    &&& p.amount == amount && p.expiry == expiry
                    &&& p.status == PaymentStatus::Locked
                    &&& t == (PaymentState { payments: t.payments, ..s })
                },
                Op::Release { id, .. } => t.payments[id@].status == PaymentStatus::Released && t
                    == (PaymentState { payments: t.payments, ..s }),
                Op::Refund { id, .. } => t.payments[id@].status == PaymentStatus::Refunded && t
                    == (PaymentState { payments: t.payments, ..s }),
            }
        }),
{
    match op {
        Op::GrantRole { role, account, .. } => laws::granting_gives_the_role(s, role@, account),
        Op::RevokeRole { role, account, .. } => laws::revoking_takes_the_role(s, role@, account@),
        _ => {},
    }
}

/// Who may call what: every call is let in just where the caller has the part or the role that it
/// takes, what it names is there and still locked, and the contract is configured and not paused,
/// as far as that matters.
pub proof fn every_call_is_let_in_just_where_it_may(s: PaymentState, op: Op, now: u64)
    ensures
        s.verdict(op, now) is Ok <==> match op {
            Op::Initialize { fee_bps, .. } => s.config is None && fee_bps <= 500,
            Op::GrantRole { caller, .. } => is_member(s.roles, ROLE_ADMIN_ID, caller@),
            Op::RevokeRole { caller, .. } => is_member(s.roles, ROLE_ADMIN_ID, caller@),
            Op::UpdateFee { caller, fee_bps } => is_member(s.roles, ROLE_FEE_MGR_ID, caller@)
                && fee_bps <= 500 && s.config is Some,
            Op::SetTreasury { caller, .. } => is_member(s.roles, ROLE_ADMIN_ID, caller@)
                && s.config is Some,
            Op::Pause { caller } => is_member(s.roles, ROLE_PAUSER_ID, caller@),
            Op::Unpause { caller } => is_member(s.roles, ROLE_PAUSER_ID, caller@),
            Op::Pay { amount, .. } => !s.paused && amount > 0 && s.config is Some,
            Op::Lock { id, amount, expiry, .. } => !s.paused && amount > 0 && expiry > now
                && !s.payments.contains_key(id@),
            Op::Release { caller, id } => !s.paused && s.payments.contains_key(id@)
                && s.payments[id@].status == PaymentStatus::Locked && (s.payments[id@].client@
                == caller@ || is_member(s.roles, ROLE_ADMIN_ID, caller@)),
            Op::Refund { caller, id } => !s.paused && s.payments.contains_key(id@)
                && s.payments[id@].status == PaymentStatus::Locked && (is_member(
                s.roles,
                ROLE_ADMIN_ID,
                caller@,
            ) || (s.payments[id@].client@ == caller@ && now >= s.payments[id@].expiry)),
        },
{
}

} // verus!

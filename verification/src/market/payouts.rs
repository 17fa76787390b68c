//! Who gets what: the tokens that the calls of the market contract move, the authorisations that
//! they need, the entries that they write and the events that they publish.

use vstd::prelude::*;

use super::arbitration::{request_calls, resolve_calls};
use super::escrow::{create_calls, refund_calls, release_calls, tip_calls};
use super::multisig::{
    approve_calls, cancel_multisig_calls, create_multisig_calls, request_multisig_calls,
    resolve_multisig_calls,
};
use super::{split_calls, Config, DataKey, Escrow, MarketState, MultiSigView};
use crate::fees::{fee_of, lemma_fee_bounds, the_fee_is_its_part_of_the_amount};
use crate::host::{Call, Data, Topics, Val};
use crate::ledger::{
    announces, asked_by, flow, lemma_flow_concat, lemma_flow_none, lemma_moves_nothing, lemma_pays,
    moves_nothing, pays, share, writes,
};
use crate::list::{distinct, holds, lemma_push_distinct};
use crate::values::{Address, Symbol};

verus! {

/// The approval that reaches the threshold pays the full amount from the contract to the worker;
/// any earlier approval moves nothing.
pub proof fn the_last_approval_pays_the_worker(
    contract: Address,
    caller: Address,
    id: Symbol,
    e: MultiSigView,
)
    requires
        e.wf(),
        e.active(),
    ensures
        ({
            let calls = approve_calls(contract, caller, id, e);
            let reached = e.approvals.len() + 1 == e.threshold;
            &&& reached ==> pays(calls, e.token@, contract@, e.to@, e.amount as int)
            &&& reached && contract@ != e.to@ ==> flow(calls, e.token@, e.to@) == e.amount && flow(
                calls,
                e.token@,
                contract@,
            ) == -e.amount
            &&& !reached ==> moves_nothing(calls)
        }),
{
    let calls = approve_calls(contract, caller, id, e);
    if e.approvals.len() + 1 == e.threshold {
        lemma_pays(calls, 2, e.token, contract, e.to, e.amount);
    } else {
        lemma_moves_nothing(calls);
    }
}

/// An approval is the signer's own, is kept, and is announced with the number of approvals; the
/// one that reaches the threshold is followed by the news of the payment.
pub proof fn approvals_are_announced(
    contract: Address,
    caller: Address,
    id: Symbol,
    e: MultiSigView,
)
    requires
        e.wf(),
        e.active(),
    ensures
        ({
            let calls = approve_calls(contract, caller, id, e);
            let n = (e.approvals.len() + 1) as u32;
            &&& n == e.approvals.len() + 1
            &&& asked_by(calls, caller)
            &&& forall|k: DataKey| #[trigger] writes(calls, k) <==> k == DataKey::MultiSigEscrow(id)
            &&& calls.contains(
                Call::Publish {
                    topics: Topics::Three("MsEscApv", Val::Symbol(id), Val::Address(caller)),
                    data: Data::One(Val::U32(n)),
                },
            )
            &&& e.approvals.len() + 1 == e.threshold ==> calls.contains(
                Call::Publish {
                    topics: Topics::Three("MsEscRel", Val::Symbol(id), Val::Address(e.to)),
                    data: Data::One(Val::I128(e.amount)),
                },
            )
        }),
{
    let calls = approve_calls(contract, caller, id, e);
    let last = calls.len() - 1;
    assert(calls[last] == Call::Write(DataKey::MultiSigEscrow(id)));
    assert(calls[1] is Publish);
    if e.approvals.len() + 1 == e.threshold {
        assert(calls[3] is Publish);
    }
}

/// A decision pays the escrow's full amount from the contract to the party that it names: to the
/// worker, where the funds are released, else back to the payer.
pub proof fn a_decision_pays_the_party_it_names(
    contract: Address,
    arbitrator: Address,
    id: Symbol,
    e: Escrow,
    release_to_worker: bool,
)
    ensures
        ({
            let calls = resolve_calls(contract, arbitrator, id, e, release_to_worker);
            &&& release_to_worker ==> pays(calls, e.token@, contract@, e.to@, e.amount as int)
            &&& !release_to_worker ==> pays(calls, e.token@, contract@, e.from@, e.amount as int)
            &&& release_to_worker && contract@ != e.to@ ==> flow(calls, e.token@, e.to@)
                == e.amount && flow(calls, e.token@, contract@) == -e.amount
            &&& !release_to_worker && contract@ != e.from@ ==> flow(calls, e.token@, e.from@)
                == e.amount && flow(calls, e.token@, contract@) == -e.amount
            &&& asked_by(calls, arbitrator)
            &&& forall|k: DataKey| #[trigger]
                writes(calls, k) <==> k == DataKey::Escrow(id) || k == DataKey::Arbitration(id)
            &&& announces(
                calls,
                Call::Publish {
                    topics: Topics::Three("ArbRes", Val::Symbol(id), Val::Address(arbitrator)),
                    data: Data::One(Val::Bool(release_to_worker)),
                },
            )
        }),
{
    let calls = resolve_calls(contract, arbitrator, id, e, release_to_worker);
    if release_to_worker {
        lemma_pays(calls, 1, e.token, contract, e.to, e.amount);
    } else {
        lemma_pays(calls, 1, e.token, contract, e.from, e.amount);
    }
    assert(calls[2] == Call::Write(DataKey::Escrow(id)));
    assert(calls[3] == Call::Write(DataKey::Arbitration(id)));
    assert(calls[4] is Publish);
}

/// A decision over a multi-signature escrow pays its full amount from the contract to the party
/// that it names.
pub proof fn a_multisig_decision_pays_the_party_it_names(
    contract: Address,
    arbitrator: Address,
    id: Symbol,
    e: MultiSigView,
    release_to_worker: bool,
)
    ensures
        ({
            let calls = resolve_multisig_calls(contract, arbitrator, id, e, release_to_worker);
            &&& release_to_worker ==> pays(calls, e.token@, contract@, e.to@, e.amount as int)
            &&& !release_to_worker ==> pays(calls, e.token@, contract@, e.from@, e.amount as int)
            &&& asked_by(calls, arbitrator)
            &&& forall|k: DataKey| #[trigger]
                writes(calls, k) <==> k == DataKey::MultiSigEscrow(id) || k
                    == DataKey::Arbitration(id)
            &&& announces(
                calls,
                Call::Publish {
                    topics: Topics::Three("MsArbRes", Val::Symbol(id), Val::Address(arbitrator)),
                    data: Data::One(Val::Bool(release_to_worker)),
                },
            )
        }),
{
    let calls = resolve_multisig_calls(contract, arbitrator, id, e, release_to_worker);
    if release_to_worker {
        lemma_pays(calls, 1, e.token, contract, e.to, e.amount);
    } else {
        lemma_pays(calls, 1, e.token, contract, e.from, e.amount);
    }
    assert(calls[2] == Call::Write(DataKey::MultiSigEscrow(id)));
    assert(calls[3] == Call::Write(DataKey::Arbitration(id)));
    assert(calls[4] is Publish);
}

/// Requesting arbitration pays the fee from the caller to the arbitrator.
pub proof fn requesting_pays_the_arbitrator(
    caller: Address,
    arbitrator: Address,
    id: Symbol,
    token: Address,
    fee: i128,
)
    ensures
        ({
            let calls = request_calls(caller, arbitrator, id, token, fee);
            &&& pays(calls, token@, caller@, arbitrator@, fee as int)
            &&& asked_by(calls, caller)
            &&& forall|k: DataKey| #[trigger]
                writes(calls, k) <==> k == DataKey::Escrow(id) || k == DataKey::Arbitration(id)
            &&& announces(
                calls,
                Call::Publish {
                    topics: Topics::Three("ArbReq", Val::Symbol(id), Val::Address(caller)),
                    data: Data::Two(Val::Address(arbitrator), Val::I128(fee)),
                },
            )
        }),
{
    let calls = request_calls(caller, arbitrator, id, token, fee);
    lemma_pays(calls, 1, token, caller, arbitrator, fee);
    assert(calls[2] == Call::Write(DataKey::Escrow(id)));
    assert(calls[3] == Call::Write(DataKey::Arbitration(id)));
    assert(calls[4] is Publish);
}

/// Requesting arbitration over a multi-signature escrow pays the fee from the caller to the
/// arbitrator, where it is positive, else nothing.
pub proof fn requesting_over_multisig_pays_the_arbitrator(
    caller: Address,
    arbitrator: Address,
    id: Symbol,
    token: Address,
    fee: i128,
)
    ensures
        ({
            let calls = request_multisig_calls(caller, arbitrator, id, token, fee);
            &&& fee > 0 ==> pays(calls, token@, caller@, arbitrator@, fee as int)
            &&& fee <= 0 ==> moves_nothing(calls)
            &&& asked_by(calls, caller)
            &&& forall|k: DataKey| #[trigger]
                writes(calls, k) <==> k == DataKey::MultiSigEscrow(id) || k
                    == DataKey::Arbitration(id)
            &&& announces(
                calls,
                Call::Publish {
                    topics: Topics::Three("MsArbReq", Val::Symbol(id), Val::Address(caller)),
                    data: Data::Two(Val::Address(arbitrator), Val::I128(fee)),
                },
            )
        }),
{
    let calls = request_multisig_calls(caller, arbitrator, id, token, fee);
    let n = calls.len() as int;
    if fee > 0 {
        lemma_pays(calls, 1, token, caller, arbitrator, fee);
    } else {
        lemma_moves_nothing(calls);
    }
    assert(calls[n - 3] == Call::Write(DataKey::MultiSigEscrow(id)));
    assert(calls[n - 2] == Call::Write(DataKey::Arbitration(id)));
    assert(calls[n - 1] is Publish);
}

/// Locking an escrow moves its amount from the payer to the contract.
pub proof fn locking_takes_the_amount_from_the_payer(contract: Address, id: Symbol, e: Escrow)
    ensures
        ({
            let calls = create_calls(contract, id, e);
            &&& pays(calls, e.token@, e.from@, contract@, e.amount as int)
            &&& asked_by(calls, e.from)
            &&& forall|k: DataKey| #[trigger] writes(calls, k) <==> k == DataKey::Escrow(id)
            &&& announces(
                calls,
                Call::Publish {
                    topics: Topics::Three("EscCrt", Val::Symbol(id), Val::Address(e.from)),
                    data: Data::Four(
                        Val::Address(e.to),
                        Val::Address(e.token),
                        Val::I128(e.amount),
                        Val::U64(e.expiry),
                    ),
                },
            )
        }),
{
    let calls = create_calls(contract, id, e);
    lemma_pays(calls, 1, e.token, e.from, contract, e.amount);
    assert(calls[2] == Call::Write(DataKey::Escrow(id)));
    assert(calls[3] is Publish);
}

/// Locking a multi-signature escrow moves its amount from the payer to the contract.
pub proof fn locking_multisig_takes_the_amount_from_the_payer(
    contract: Address,
    id: Symbol,
    e: MultiSigView,
)
    ensures
        ({
            let calls = create_multisig_calls(contract, id, e);
            &&& pays(calls, e.token@, e.from@, contract@, e.amount as int)
            &&& asked_by(calls, e.from)
            &&& forall|k: DataKey| #[trigger] writes(calls, k) <==> k == DataKey::MultiSigEscrow(id)
            &&& announces(
                calls,
                Call::Publish {
                    topics: Topics::Three("MsEscCrt", Val::Symbol(id), Val::Address(e.from)),
                    data: Data::Three(
                        Val::Address(e.to),
                        Val::I128(e.amount),
                        Val::U32(e.threshold),
                    ),
                },
            )
        }),
{
    let calls = create_multisig_calls(contract, id, e);
    lemma_pays(calls, 1, e.token, e.from, contract, e.amount);
    assert(calls[2] == Call::Write(DataKey::MultiSigEscrow(id)));
    assert(calls[3] is Publish);
}

/// Cancelling a multi-signature escrow pays its full amount from the contract back to the payer.
pub proof fn cancelling_multisig_pays_the_payer_back(
    contract: Address,
    caller: Address,
    id: Symbol,
    e: MultiSigView,
)
    ensures
        ({
            let calls = cancel_multisig_calls(contract, caller, id, e);
            &&& pays(calls, e.token@, contract@, e.from@, e.amount as int)
            &&& asked_by(calls, caller)
            &&& forall|k: DataKey| #[trigger] writes(calls, k) <==> k == DataKey::MultiSigEscrow(id)
            &&& announces(
                calls,
                Call::Publish {
                    topics: Topics::Three("MsEscCnl", Val::Symbol(id), Val::Address(e.from)),
                    data: Data::One(Val::I128(e.amount)),
                },
            )
        }),
{
    let calls = cancel_multisig_calls(contract, caller, id, e);
    lemma_pays(calls, 1, e.token, contract, e.from, e.amount);
    assert(calls[2] == Call::Write(DataKey::MultiSigEscrow(id)));
    assert(calls[3] is Publish);
}

/// Cancelling an escrow, by the payer or once it has expired, pays its full amount from the
/// contract back to the payer, and asks for no further authorisation.
pub proof fn cancelling_pays_the_payer_back(
    name: &'static str,
    contract: Address,
    id: Symbol,
    e: Escrow,
)
    ensures
        ({
            let calls = refund_calls(name, contract, id, e);
            &&& pays(calls, e.token@, contract@, e.from@, e.amount as int)
            &&& forall|i: int|
                0 <= i < calls.len() ==> #[trigger] calls[i] is Transfer || calls[i] is Write
                    || calls[i] is Publish
            &&& forall|k: DataKey| #[trigger] writes(calls, k) <==> k == DataKey::Escrow(id)
            &&& announces(
                calls,
                Call::Publish {
                    topics: Topics::Three(name, Val::Symbol(id), Val::Address(e.from)),
                    data: Data::One(Val::I128(e.amount)),
                },
            )
        }),
{
    let calls = refund_calls(name, contract, id, e);
    lemma_pays(calls, 0, e.token, contract, e.from, e.amount);
    assert(calls[1] == Call::Write(DataKey::Escrow(id)));
    assert(calls[2] is Publish);
}

/// Splitting an amount takes all of it from who pays; the fee, which is its part of the amount in
/// whole units, goes to the treasury, and all the rest to the payee.
pub proof fn splitting_pays_payee_and_treasury(
    token: Address,
    from: Address,
    to: Address,
    config: Config,
    amount: i128,
    t: Seq<char>,
    who: Seq<char>,
)
    requires
        amount > 0,
        config.fee_bps <= 500,
    ensures
        ({
            let calls = split_calls(token, from, to, config, amount);
            let fee = fee_of(amount as int, config.fee_bps as int);
            &&& fee * 10_000 <= amount * config.fee_bps < (fee + 1) * 10_000
            &&& flow(calls, t, who) == share(
                token@,
                from@,
                to@,
                config.fee_recipient@,
                amount as int,
                fee,
                t,
                who,
            )
            &&& fee > 0 ==> announces(
                calls,
                Call::Publish {
                    topics: Topics::Two("FeeTaken", Val::Address(config.fee_recipient)),
                    data: Data::One(Val::I128(fee as i128)),
                },
            )
            &&& fee == fee as i128
            &&& forall|i: int|
                0 <= i < calls.len() ==> #[trigger] calls[i] is Transfer || (fee > 0
                    && calls[i] is Publish)
        }),
{
    let calls = split_calls(token, from, to, config, amount);
    let fee = fee_of(amount as int, config.fee_bps as int);
    lemma_fee_bounds(amount as int, config.fee_bps as int);
    the_fee_is_its_part_of_the_amount(amount as int, config.fee_bps as int);
    reveal_with_fuel(flow, 4);
    if fee > 0 {
        assert(calls.len() == 3);
        assert(calls.drop_last().drop_last().drop_last() =~= Seq::empty());
        assert(calls[2] is Publish);
    } else {
        assert(calls.len() == 1);
        assert(calls.drop_last() =~= Seq::empty());
    }
}

/// A tip takes its amount from the sender; the fee goes to the treasury and the rest to the worker.
/// It is the sender's own, writes nothing, and is announced.
pub proof fn a_tip_pays_worker_and_treasury(
    from: Address,
    to: Address,
    token: Address,
    amount: i128,
    config: Config,
    t: Seq<char>,
    who: Seq<char>,
)
    requires
        amount > 0,
        config.fee_bps <= 500,
    ensures
        ({
            let calls = tip_calls(from, to, token, amount, config);
            let fee = fee_of(amount as int, config.fee_bps as int);
            &&& fee * 10_000 <= amount * config.fee_bps < (fee + 1) * 10_000
            &&& flow(calls, t, who) == share(
                token@,
                from@,
                to@,
                config.fee_recipient@,
                amount as int,
                fee,
                t,
                who,
            )
            &&& asked_by(calls, from)
            &&& forall|k: DataKey| !#[trigger] writes(calls, k)
            &&& calls.contains(
                Call::Publish {
                    topics: Topics::Three("TipSent", Val::Address(from), Val::Address(to)),
                    data: Data::Two(Val::Address(token), Val::I128(amount)),
                },
            )
        }),
{
    splitting_pays_payee_and_treasury(token, from, to, config, amount, t, who);
    let a: Seq<Call<DataKey>> = seq![Call::RequireAuth(from)];
    let b = split_calls(token, from, to, config, amount);
    let calls = tip_calls(from, to, token, amount, config);
    assert(calls.drop_last() =~= a + b);
    lemma_flow_concat(a, b, t, who);
    lemma_flow_none(a, t, who);
    let n = calls.len() as int;
    assert(calls[n - 1] is Publish);
    assert forall|i: int| 1 <= i < n - 1 implies #[trigger] calls[i] == b[i - 1] by {}
}

/// Releasing an escrow takes its amount from the contract; the fee goes to the treasury and the
/// rest to the worker. It is the caller's own, is kept, and is announced.
pub proof fn releasing_pays_worker_and_treasury(
    contract: Address,
    caller: Address,
    id: Symbol,
    e: Escrow,
    config: Config,
    t: Seq<char>,
    who: Seq<char>,
)
    requires
        e.amount > 0,
        config.fee_bps <= 500,
    ensures
        ({
            let calls = release_calls(contract, caller, id, e, config);
            let fee = fee_of(e.amount as int, config.fee_bps as int);
            &&& fee * 10_000 <= e.amount * config.fee_bps < (fee + 1) * 10_000
            &&& flow(calls, t, who) == share(
                e.token@,
                contract@,
                e.to@,
                config.fee_recipient@,
                e.amount as int,
                fee,
                t,
                who,
            )
            &&& asked_by(calls, caller)
            &&& forall|k: DataKey| #[trigger] writes(calls, k) <==> k == DataKey::Escrow(id)
            &&& calls.contains(
                Call::Publish {
                    topics: Topics::Three("EscRel", Val::Symbol(id), Val::Address(e.to)),
                    data: Data::One(Val::I128(e.amount)),
                },
            )
        }),
{
    splitting_pays_payee_and_treasury(e.token, contract, e.to, config, e.amount, t, who);
    let a: Seq<Call<DataKey>> = seq![Call::RequireAuth(caller)];
    let b = split_calls(e.token, contract, e.to, config, e.amount);
    let calls = release_calls(contract, caller, id, e, config);
    assert(calls.drop_last().drop_last() =~= a + b);
    lemma_flow_concat(a, b, t, who);
    lemma_flow_none(a, t, who);
    reveal_with_fuel(flow, 3);
    let n = calls.len() as int;
    assert(calls[n - 1] is Publish);
    assert(calls[n - 2] == Call::Write(DataKey::Escrow(id)));
    assert forall|i: int| 1 <= i < n - 2 implies #[trigger] calls[i] == b[i - 1] by {}
}

/// The sum of the amounts in `token` of the escrows in `ids` whose worker is `worker`.
pub open spec fn owed(s: MarketState, ids: Seq<Symbol>, token: Seq<char>, worker: Seq<char>) -> int
    decreases ids.len(),
{
    if ids.len() == 0 {
        0
    } else {
        let e = s.escrows[ids.last()@];
        owed(s, ids.drop_last(), token, worker) + (if e.token@ == token && e.to@ == worker {
            e.amount as int
        } else {
            0
        })
    }
}

/// The sum of the amounts in `token` of the escrows in `ids`.
pub open spec fn amounts(s: MarketState, ids: Seq<Symbol>, token: Seq<char>) -> int
    decreases ids.len(),
{
    if ids.len() == 0 {
        0
    } else {
        let e = s.escrows[ids.last()@];
        amounts(s, ids.drop_last(), token) + (if e.token@ == token {
            e.amount as int
        } else {
            0
        })
    }
}

/// A batch pays every worker, in every token, the sum of the full amounts of the escrows that it
/// releases to that worker; the contract is out the sum of them all; nobody else gains or loses.
pub proof fn a_batch_pays_every_worker_in_full(
    s: MarketState,
    contract: Address,
    ids: Seq<Symbol>,
    token: Seq<char>,
    who: Seq<char>,
)
    ensures
        flow(s.batch_calls(contract, ids), token, who) == owed(s, ids, token, who) - (if who
            == contract@ {
            amounts(s, ids, token)
        } else {
            0
        }),
    decreases ids.len(),
{
    if ids.len() > 0 {
        let before = ids.drop_last();
        a_batch_pays_every_worker_in_full(s, contract, before, token, who);
        let c0 = s.batch_calls(contract, before);
        let c1 = s.batch_calls(contract, ids);
        assert(c1.drop_last().drop_last().drop_last() =~= c0);
        reveal_with_fuel(flow, 4);
    }
}

/// A batch asks for no authorisation but its caller's, writes every escrow that it releases and no
/// other entry, and announces each payment with its worker and its amount.
pub proof fn a_batch_writes_and_announces_each(
    s: MarketState,
    contract: Address,
    ids: Seq<Symbol>,
    i: int,
)
    ensures
        forall|j: int|
            0 <= j < s.batch_calls(contract, ids).len() ==> (#[trigger] s.batch_calls(
                contract,
                ids,
            )[j] is Transfer || s.batch_calls(contract, ids)[j] is Publish || exists|k: int|
                0 <= k < ids.len() && s.batch_calls(contract, ids)[j] == Call::Write(
                    DataKey::Escrow(#[trigger] ids[k]),
                )),
        0 <= i < ids.len() ==> {
            let e = s.escrows[ids[i]@];
            &&& writes(s.batch_calls(contract, ids), DataKey::Escrow(ids[i]))
            &&& s.batch_calls(contract, ids).contains(
                Call::Publish {
                    topics: Topics::Three("EscRel", Val::Symbol(ids[i]), Val::Address(e.to)),
                    data: Data::One(Val::I128(e.amount)),
                },
            )
        },
    decreases ids.len(),
{
    if ids.len() > 0 {
        let before = ids.drop_last();
        a_batch_writes_and_announces_each(s, contract, before, i);
        let c0 = s.batch_calls(contract, before);
        let c1 = s.batch_calls(contract, ids);
        let n = c0.len() as int;
        assert(c1.len() == n + 3);
        assert(c1[n + 1] == Call::Write(DataKey::Escrow(ids.last())));
        assert(c1[n + 2] is Publish);
        assert forall|j: int| 0 <= j < c1.len() implies (#[trigger] c1[j] is Transfer
            || c1[j] is Publish || exists|k: int|
            0 <= k < ids.len() && c1[j] == Call::Write(DataKey::Escrow(#[trigger] ids[k]))) by {
            if j < n {
                assert(c1[j] == c0[j]);
                if !(c0[j] is Transfer || c0[j] is Publish) {
                    let k = choose|k: int|
                        0 <= k < before.len() && c0[j] == Call::Write(
                            DataKey::Escrow(#[trigger] before[k]),
                        );
                    assert(ids[k] == before[k]);
                }
            } else if j == n + 1 {
                assert(ids[ids.len() - 1] == ids.last());
            }
        }
        if 0 <= i < ids.len() - 1 {
            assert(before[i] == ids[i]);
            let e = s.escrows[ids[i]@];
            let w: Call<DataKey> = Call::Write(DataKey::Escrow(ids[i]));
            let p: Call<DataKey> = Call::Publish {
                topics: Topics::Three("EscRel", Val::Symbol(ids[i]), Val::Address(e.to)),
                data: Data::One(Val::I128(e.amount)),
            };
            let a = choose|a: int| 0 <= a < c0.len() && c0[a] == w;
            let b = choose|b: int| 0 <= b < c0.len() && c0[b] == p;
            assert(c1[a] == w);
            assert(c1[b] == p);
        }
    }
}

/// What is due in a batch is named once each, in the order of the batch: just the ids of escrows
/// whose funds are still locked, and whose payer or worker is the caller.
pub proof fn what_is_due_can_be_released(
    s: MarketState,
    caller: Seq<char>,
    ids: Seq<Symbol>,
    next: Symbol,
)
    ensures
        distinct(s.due(caller, ids)),
        forall|k: Seq<char>| #[trigger]
            holds(s.due(caller, ids), k) <==> holds(ids, k) && s.escrows.contains_key(k)
                && !s.escrows[k].released && !s.escrows[k].cancelled && (s.escrows[k].from@
                == caller || s.escrows[k].to@ == caller),
        s.due(caller, ids.push(next)) == s.due(caller, ids) || s.due(caller, ids.push(next))
            == s.due(caller, ids).push(next),
    decreases ids.len(),
{
    assert(ids.push(next).drop_last() =~= ids);
    if ids.len() > 0 {
        let before = ids.drop_last();
        let id = ids.last();
        what_is_due_can_be_released(s, caller, before, id);
        assert(before.push(id) =~= ids);
        assert forall|k: Seq<char>| #[trigger] holds(ids, k) == (holds(before, k) || k == id@) by {
            crate::list::holding_is_having_been_put_in(before, id, k);
        }
        if s.releasable(caller, id@) && !holds(before, id@) {
            lemma_push_distinct(s.due(caller, before), id);
        }
    }
}

} // verus!

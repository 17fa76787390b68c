//! Tips and escrows.

use vstd::prelude::*;

use super::laws;
use super::payouts;
use super::{
    split_calls, Config, DataKey, Escrow, MarketContract, MarketState, MAX_BATCH,
};
use crate::error::ContractError;
use crate::fees;
use crate::host::{requests_come_in_order, Call, Data, Env, Topics, Val};
use crate::ledger::{flow, lemma_flow_concat, lemma_flow_none, pays, share};
use crate::list::holds;
use crate::roles;
use crate::roles::{both, pause_verdict, refuse_if};
use crate::values::{Address, Key, Symbol};

verus! {

impl MarketState {
    /// What `tip` answers.
    pub open spec fn tip_verdict(self, amount: i128) -> Result<(), ContractError> {
        both(
            pause_verdict(self.paused),
            both(
                refuse_if(amount <= 0, ContractError::AmountMustBePositive),
                self.configured(),
            ),
        )
    }

    /// What `create_escrow` answers.
    pub open spec fn create_verdict(self, id: Seq<char>, amount: i128) -> Result<
        (),
        ContractError,
    > {
        both(
            pause_verdict(self.paused),
            both(
                refuse_if(amount <= 0, ContractError::AmountMustBePositive),
                refuse_if(self.escrows.contains_key(id), ContractError::EscrowAlreadyExists),
            ),
        )
    }

    /// What an entry point answers that needs nothing but the escrow `id`, while not paused.
    pub open spec fn escrow_verdict(self, id: Seq<char>) -> Result<(), ContractError> {
        both(
            pause_verdict(self.paused),
            refuse_if(!self.escrows.contains_key(id), ContractError::EscrowNotFound),
        )
    }

    /// What `release_escrow` answers.
    pub open spec fn release_verdict(self, id: Seq<char>, caller: Seq<char>) -> Result<
        (),
        ContractError,
    > {
        let e = self.escrows[id];
        both(
            self.escrow_verdict(id),
            both(
                refuse_if(!e.is_party(caller), ContractError::NotAuthorized),
                both(
                    refuse_if(e.released, ContractError::AlreadyReleased),
                    both(
                        refuse_if(e.cancelled, ContractError::EscrowCancelled),
                        self.configured(),
                    ),
                ),
            ),
        )
    }

    /// What `cancel_escrow` answers at the time `now`.
    pub open spec fn cancel_verdict(self, id: Seq<char>, caller: Seq<char>, now: u64) -> Result<
        (),
        ContractError,
    > {
        let e = self.escrows[id];
        both(
            self.escrow_verdict(id),
            both(
                refuse_if(e.from@ != caller, ContractError::NotAuthorized),
                both(
                    refuse_if(e.released, ContractError::AlreadyReleased),
                    both(
                        refuse_if(e.cancelled, ContractError::AlreadyCancelled),
                        refuse_if(now < e.expiry, ContractError::EscrowNotYetExpired),
                    ),
                ),
            ),
        )
    }

    /// What `cancel_expired_escrow` answers at the time `now`.
    pub open spec fn cancel_expired_verdict(self, id: Seq<char>, now: u64) -> Result<
        (),
        ContractError,
    > {
        let e = self.escrows[id];
        both(
            self.escrow_verdict(id),
            both(
                refuse_if(!e.active(), ContractError::EscrowNotActive),
                refuse_if(now < e.expiry, ContractError::EscrowNotYetExpired),
            ),
        )
    }

    /// What `batch_release_escrow` answers to `count` ids.
    pub open spec fn batch_verdict(self, count: nat) -> Result<(), ContractError> {
        both(
            pause_verdict(self.paused),
            refuse_if(count > MAX_BATCH, ContractError::BatchTooLarge),
        )
    }

    /// The state in which the funds of the escrow `id` went to the worker.
    pub open spec fn with_released(self, id: Seq<char>) -> MarketState {
        MarketState {
            escrows: self.escrows.insert(id, Escrow { released: true, ..self.escrows[id] }),
            ..self
        }
    }

    /// The state in which the escrow `id` is `e`.
    pub open spec fn with_escrow(self, id: Seq<char>, e: Escrow) -> MarketState {
        MarketState { escrows: self.escrows.insert(id, e), ..self }
    }

    /// The state after a batch of `caller`.
    pub open spec fn batch_released(self, caller: Seq<char>, ids: Seq<Symbol>) -> MarketState {
        MarketState { escrows: self.batch_escrows(caller, ids), ..self }
    }

    /// The state in which the funds of the escrow `id` went back to the payer.
    pub open spec fn with_cancelled(self, id: Seq<char>) -> MarketState {
        MarketState {
            escrows: self.escrows.insert(id, Escrow { cancelled: true, ..self.escrows[id] }),
            ..self
        }
    }

    /// Whether a batch of `caller` releases the escrow `id`.
    pub open spec fn releasable(self, caller: Seq<char>, id: Seq<char>) -> bool {
        &&& self.escrows.contains_key(id)
        &&& self.escrows[id].active()
        &&& self.escrows[id].is_party(caller)
    }

    /// The escrows after a batch of `caller`: those named in `ids` that can be released are.
    pub open spec fn batch_escrows(self, caller: Seq<char>, ids: Seq<Symbol>) -> Map<
        Seq<char>,
        Escrow,
    > {
        Map::new(
            |id: Seq<char>| self.escrows.contains_key(id),
            |id: Seq<char>|
                if holds(ids, id) && self.releasable(caller, id) {
                    Escrow { released: true, ..self.escrows[id] }
                } else {
                    self.escrows[id]
                },
        )
    }

    /// What a batch of `caller` releases, in order: each id once, where it can be released.
    pub open spec fn due(self, caller: Seq<char>, ids: Seq<Symbol>) -> Seq<Symbol>
        decreases ids.len(),
    {
        if ids.len() == 0 {
            seq![]
        } else {
            let before = ids.drop_last();
            let id = ids.last();
            if self.releasable(caller, id@) && !holds(before, id@) {
                self.due(caller, before).push(id)
            } else {
                self.due(caller, before)
            }
        }
    }

    /// What is asked of the host when a batch releases `ids`: the full amounts are paid out.
    pub open spec fn batch_calls(self, contract: Address, ids: Seq<Symbol>) -> Seq<Call<DataKey>>
        decreases ids.len(),
    {
        if ids.len() == 0 {
            seq![]
        } else {
            let id = ids.last();
            let e = self.escrows[id@];
            self.batch_calls(contract, ids.drop_last()) + seq![
                Call::Transfer { token: e.token, from: contract, to: e.to, amount: e.amount },
                Call::Write(DataKey::Escrow(id)),
                escrow_event("EscRel", id, e.to, e.amount),
            ]
        }
    }
}

/// An escrow whose funds have just been locked.
pub open spec fn new_escrow(
    from: Address,
    to: Address,
    token: Address,
    amount: i128,
    expiry: u64,
) -> Escrow {
    Escrow {
        from,
        to,
        token,
        amount,
        expiry,
        released: false,
        cancelled: false,
        arbitration_requested: false,
    }
}

/// The event that says that `amount` left the escrow `id` for `to`.
pub open spec fn escrow_event(name: &'static str, id: Symbol, to: Address, amount: i128) -> Call<
    DataKey,
> {
    Call::Publish {
        topics: Topics::Three(name, Val::Symbol(id), Val::Address(to)),
        data: Data::One(Val::I128(amount)),
    }
}

/// What is asked of the host for a tip.
pub open spec fn tip_calls(
    from: Address,
    to: Address,
    token: Address,
    amount: i128,
    config: Config,
) -> Seq<Call<DataKey>> {
    seq![Call::RequireAuth(from)] + split_calls(token, from, to, config, amount) + seq![
        Call::Publish {
            topics: Topics::Three("TipSent", Val::Address(from), Val::Address(to)),
            data: Data::Two(Val::Address(token), Val::I128(amount)),
        },
    ]
}

/// What is asked of the host when the funds of `e` are locked under `id`.
pub open spec fn create_calls(contract: Address, id: Symbol, e: Escrow) -> Seq<Call<DataKey>> {
    seq![
        Call::RequireAuth(e.from),
        Call::Transfer { token: e.token, from: e.from, to: contract, amount: e.amount },
        Call::Write(DataKey::Escrow(id)),
        Call::Publish {
            topics: Topics::Three("EscCrt", Val::Symbol(id), Val::Address(e.from)),
            data: Data::Four(
                Val::Address(e.to),
                Val::Address(e.token),
                Val::I128(e.amount),
                Val::U64(e.expiry),
            ),
        },
    ]
}

/// What is asked of the host when the escrow `id` is paid to the worker.
pub open spec fn release_calls(
    contract: Address,
    caller: Address,
    id: Symbol,
    e: Escrow,
    config: Config,
) -> Seq<Call<DataKey>> {
    seq![Call::RequireAuth(caller)] + split_calls(e.token, contract, e.to, config, e.amount) + seq![
        Call::Write(DataKey::Escrow(id)),
        escrow_event("EscRel", id, e.to, e.amount),
    ]
}

/// What is asked of the host when the escrow `id` is paid back.
pub open spec fn refund_calls(name: &'static str, contract: Address, id: Symbol, e: Escrow) -> Seq<
    Call<DataKey>,
> {
    seq![
        Call::Transfer { token: e.token, from: contract, to: e.from, amount: e.amount },
        Call::Write(DataKey::Escrow(id)),
        escrow_event(name, id, e.from, e.amount),
    ]
}

impl MarketContract {
    /// Send a tip of `amount` from `from` to `to`, less the protocol fee.
    pub fn tip(
        &self,
        env: &mut Env<DataKey>,
        from: Address,
        to: Address,
        token_addr: Address,
        amount: i128,
    ) -> (r: Result<(), ContractError>)
        requires
            self@.wf(),
        ensures
            r == self@.tip_verdict(amount),
            r == self@.verdict(
                (laws::Op::Tip { from, to, token: token_addr, amount }),
                old(env).timestamp,
            ),
            r is Err ==> final(env).did(*old(env), seq![Call::RequireAuth(from)]),
            r is Ok ==> final(env).did(
                *old(env),
                tip_calls(from, to, token_addr, amount, self@.config->0),
            ),
            r is Ok ==> forall|t: Seq<char>, who: Seq<char>| #[trigger]
                flow(final(env).asked_since(*old(env)), t, who) == share(
                    token_addr@,
                    from@,
                    to@,
                    self@.config->0.fee_recipient@,
                    amount as int,
                    fees::fee_of(amount as int, self@.config->0.fee_bps as int),
                    t,
                    who,
                ),
    {
        env.require_auth(&from);
        roles::require_not_paused(self.paused)?;
        if amount <= 0 {
            return Err(ContractError::AmountMustBePositive);
        }
        match &self.config {
            None => Err(ContractError::NotInitialized),
            Some(config) => {
                let (fee, net) = fees::split_fee(amount, config.fee_bps);
                env.transfer(&token_addr, &from, &to, net);
                if fee > 0 {
                    env.transfer(&token_addr, &from, &config.fee_recipient, fee);
                    env.publish(
                        Topics::Two("FeeTaken", Val::Address(config.fee_recipient.clone())),
                        Data::One(Val::I128(fee)),
                    );
                }
                env.publish(
                    Topics::Three("TipSent", Val::Address(from), Val::Address(to)),
                    Data::Two(Val::Address(token_addr), Val::I128(amount)),
                );
                proof {
                    let calls = tip_calls(from, to, token_addr, amount, *config);
                    requests_come_in_order(*old(env), *env, calls);
                    assert forall|t: Seq<char>, who: Seq<char>| #[trigger]
                        flow(calls, t, who) == share(
                            token_addr@,
                            from@,
                            to@,
                            config.fee_recipient@,
                            amount as int,
                            fees::fee_of(amount as int, config.fee_bps as int),
                            t,
                            who,
                        ) by {
                        payouts::a_tip_pays_worker_and_treasury(
                            from,
                            to,
                            token_addr,
                            amount,
                            *config,
                            t,
                            who,
                        );
                    }
                }
                Ok(())
            },
        }
    }

    /// Lock `amount` in the contract, under an `id` that is not in use.
    pub fn create_escrow(
        &mut self,
        env: &mut Env<DataKey>,
        id: Symbol,
        from: Address,
        to: Address,
        token_addr: Address,
        amount: i128,
        expiry: u64,
    ) -> (r: Result<(), ContractError>)
        requires
            old(self)@.wf(),
        ensures
            final(self)@.wf(),
            r == old(self)@.verdict(
                (laws::Op::CreateEscrow { id, from, to, token: token_addr, amount, expiry }),
                old(env).timestamp,
            ),
            final(self)@ == old(self)@.after(
                (laws::Op::CreateEscrow { id, from, to, token: token_addr, amount, expiry }),
                old(env).timestamp,
            ),
            r == old(self)@.create_verdict(id@, amount),
            r is Err ==> final(self)@ == old(self)@ && final(env).did(
                *old(env),
                seq![Call::RequireAuth(from)],
            ),
            r is Ok ==> {
                &&& final(self)@ == old(self)@.with_escrow(
                    id@,
                    new_escrow(from, to, token_addr, amount, expiry),
                )
                &&& final(env).did(
                    *old(env),
                    create_calls(
                        old(env).contract,
                        id,
                        new_escrow(from, to, token_addr, amount, expiry),
                    ),
                )
                &&& pays(
                    final(env).asked_since(*old(env)),
                    token_addr@,
                    from@,
                    old(env).contract@,
                    amount as int,
                )
            },
    {
        env.require_auth(&from);
        roles::require_not_paused(self.paused)?;
        if amount <= 0 {
            return Err(ContractError::AmountMustBePositive);
        }
        if self.escrows.has(&id) {
            return Err(ContractError::EscrowAlreadyExists);
        }
        let contract = env.contract.clone();
        env.transfer(&token_addr, &from, &contract, amount);
        let escrow = Escrow {
            from: from.clone(),
            to: to.clone(),
            token: token_addr.clone(),
            amount,
            expiry,
            released: false,
            cancelled: false,
            arbitration_requested: false,
        };
        self.escrows.set(id.clone(), escrow);
        env.write(DataKey::Escrow(id.clone()));
        env.publish(
            Topics::Three("EscCrt", Val::Symbol(id), Val::Address(from)),
            Data::Four(
                Val::Address(to),
                Val::Address(token_addr),
                Val::I128(amount),
                Val::U64(expiry),
            ),
        );
        proof {
            let e = self@.escrows[id@];
            payouts::locking_takes_the_amount_from_the_payer(old(env).contract, id, e);
            requests_come_in_order(*old(env), *env, create_calls(old(env).contract, id, e));
        }
        Ok(())
    }

    /// Pay an escrow to the worker, less the protocol fee. The caller must be the payer or the
    /// worker.
    pub fn release_escrow(&mut self, env: &mut Env<DataKey>, id: Symbol, caller: Address) -> (r:
        Result<(), ContractError>)
        requires
            old(self)@.wf(),
        ensures
            final(self)@.wf(),
            r == old(self)@.verdict((laws::Op::ReleaseEscrow { id, caller }), old(env).timestamp),
            final(self)@ == old(self)@.after(
                (laws::Op::ReleaseEscrow { id, caller }),
                old(env).timestamp,
            ),
            r == old(self)@.release_verdict(id@, caller@),
            r is Err ==> final(self)@ == old(self)@ && final(env).did(
                *old(env),
                seq![Call::RequireAuth(caller)],
            ),
            r is Ok ==> {
                let e = old(self)@.escrows[id@];
                &&& final(self)@ == old(self)@.with_released(id@)
                &&& final(env).did(
                    *old(env),
                    release_calls(old(env).contract, caller, id, e, old(self)@.config->0),
                )
                &&& forall|t: Seq<char>, who: Seq<char>| #[trigger]
                    flow(final(env).asked_since(*old(env)), t, who) == share(
                        e.token@,
                        old(env).contract@,
                        e.to@,
                        old(self)@.config->0.fee_recipient@,
                        e.amount as int,
                        fees::fee_of(e.amount as int, old(self)@.config->0.fee_bps as int),
                        t,
                        who,
                    )
            },
    {
        env.require_auth(&caller);
        roles::require_not_paused(self.paused)?;
        match self.escrows.get_mut(&id) {
            None => Err(ContractError::EscrowNotFound),
            Some(escrow) => {
                if !escrow.from.same(&caller) && !escrow.to.same(&caller) {
                    return Err(ContractError::NotAuthorized);
                }
                if escrow.released {
                    return Err(ContractError::AlreadyReleased);
                }
                if escrow.cancelled {
                    return Err(ContractError::EscrowCancelled);
                }
                let contract = env.contract.clone();
                match &self.config {
                    None => Err(ContractError::NotInitialized),
                    Some(config) => {
                        let (fee, net) = fees::split_fee(escrow.amount, config.fee_bps);
                        env.transfer(&escrow.token, &contract, &escrow.to, net);
                        if fee > 0 {
                            env.transfer(&escrow.token, &contract, &config.fee_recipient, fee);
                            env.publish(
                                Topics::Two(
                                    "FeeTaken",
                                    Val::Address(config.fee_recipient.clone()),
                                ),
                                Data::One(Val::I128(fee)),
                            );
                        }
                        escrow.released = true;
                        env.write(DataKey::Escrow(id.clone()));
                        env.publish(
                            Topics::Three(
                                "EscRel",
                                Val::Symbol(id),
                                Val::Address(escrow.to.clone()),
                            ),
                            Data::One(Val::I128(escrow.amount)),
                        );
                        proof {
                            let e = old(self)@.escrows[id@];
                            let c = old(env).contract;
                            let calls = release_calls(c, caller, id, e, *config);
                            requests_come_in_order(*old(env), *env, calls);
                            assert forall|t: Seq<char>, who: Seq<char>| #[trigger]
                                flow(calls, t, who) == share(
                                    e.token@,
                                    c@,
                                    e.to@,
                                    config.fee_recipient@,
                                    e.amount as int,
                                    fees::fee_of(e.amount as int, config.fee_bps as int),
                                    t,
                                    who,
                                ) by {
                                payouts::releasing_pays_worker_and_treasury(
                                    c,
                                    caller,
                                    id,
                                    e,
                                    *config,
                                    t,
                                    who,
                                );
                            }
                        }
                        Ok(())
                    },
                }
            },
        }
    }

    /// Pay an escrow that has expired back to the payer, who must be the caller.
    pub fn cancel_escrow(&mut self, env: &mut Env<DataKey>, id: Symbol, caller: Address) -> (r:
        Result<(), ContractError>)
        requires
            old(self)@.wf(),
        ensures
            final(self)@.wf(),
            r == old(self)@.verdict((laws::Op::CancelEscrow { id, caller }), old(env).timestamp),
            final(self)@ == old(self)@.after(
                (laws::Op::CancelEscrow { id, caller }),
                old(env).timestamp,
            ),
            r == old(self)@.cancel_verdict(id@, caller@, old(env).timestamp),
            r is Err ==> final(self)@ == old(self)@ && final(env).did(
                *old(env),
                seq![Call::RequireAuth(caller)],
            ),
            r is Ok ==> {
                &&& final(self)@ == old(self)@.with_cancelled(id@)
                &&& final(env).did(
                    *old(env),
                    seq![Call::RequireAuth(caller)] + refund_calls(
                        "EscCnl",
                        old(env).contract,
                        id,
                        old(self)@.escrows[id@],
                    ),
                )
                &&& pays(
                    final(env).asked_since(*old(env)).skip(1),
                    old(self)@.escrows[id@].token@,
                    old(env).contract@,
                    old(self)@.escrows[id@].from@,
                    old(self)@.escrows[id@].amount as int,
                )
            },
    {
        env.require_auth(&caller);
        roles::require_not_paused(self.paused)?;
        match self.escrows.get_mut(&id) {
            None => Err(ContractError::EscrowNotFound),
            Some(escrow) => {
                if !escrow.from.same(&caller) {
                    return Err(ContractError::NotAuthorized);
                }
                if escrow.released {
                    return Err(ContractError::AlreadyReleased);
                }
                if escrow.cancelled {
                    return Err(ContractError::AlreadyCancelled);
                }
                if env.timestamp < escrow.expiry {
                    return Err(ContractError::EscrowNotYetExpired);
                }
                let contract = env.contract.clone();
                env.transfer(&escrow.token, &contract, &escrow.from, escrow.amount);
                escrow.cancelled = true;
                env.write(DataKey::Escrow(id.clone()));
                env.publish(
                    Topics::Three("EscCnl", Val::Symbol(id), Val::Address(escrow.from.clone())),
                    Data::One(Val::I128(escrow.amount)),
                );
                proof {
                    let calls = refund_calls(
                        "EscCnl",
                        old(env).contract,
                        id,
                        old(self)@.escrows[id@],
                    );
                    let all = seq![Call::RequireAuth(caller)] + calls;
                    payouts::cancelling_pays_the_payer_back(
                        "EscCnl",
                        old(env).contract,
                        id,
                        old(self)@.escrows[id@],
                    );
                    requests_come_in_order(*old(env), *env, all);
                    assert(all.skip(1) =~= calls);
                }
                Ok(())
            },
        }
    }

    /// The escrow `id`.
    pub fn get_escrow(&self, id: Symbol) -> (r: Result<Option<Escrow>, ContractError>)
        ensures
            r == Ok::<Option<Escrow>, ContractError>(
                if self@.escrows.contains_key(id@) {
                    Some(self@.escrows[id@])
                } else {
                    None
                },
            ),
    {
        match self.escrows.get(&id) {
            Some(escrow) => Ok(Some(escrow.clone())),
            None => Ok(None),
        }
    }

    /// Pay several escrows to their workers, in full. Ids are passed over that name no escrow,
    /// one whose funds are no longer locked, or one to which the caller is no party.
    pub fn batch_release_escrow(
        &mut self,
        env: &mut Env<DataKey>,
        caller: Address,
        ids: Vec<Symbol>,
    ) -> (r: Result<Vec<Symbol>, ContractError>)
        requires
            old(self)@.wf(),
        ensures
            final(self)@.wf(),
            r is Ok <==> old(self)@.verdict(
                (laws::Op::BatchRelease { caller, ids: ids@ }),
                old(env).timestamp,
            ) is Ok,
            final(self)@ == old(self)@.after(
                (laws::Op::BatchRelease { caller, ids: ids@ }),
                old(env).timestamp,
            ),
            match old(self)@.batch_verdict(ids@.len()) {
                Err(e) => {
                    &&& r == Err::<Vec<Symbol>, ContractError>(e)
                    &&& final(self)@ == old(self)@
                    &&& final(env).did(*old(env), seq![Call::RequireAuth(caller)])
                },
                Ok(_) => {
                    &&& r is Ok
                    &&& r->Ok_0@ == old(self)@.due(caller@, ids@)
                    &&& final(self)@ == old(self)@.batch_released(caller@, ids@)
                    &&& final(env).did(
                        *old(env),
                        seq![Call::RequireAuth(caller)] + old(self)@.batch_calls(
                            old(env).contract,
                            r->Ok_0@,
                        ),
                    )
                    &&& forall|t: Seq<char>, who: Seq<char>| #[trigger]
                        flow(final(env).asked_since(*old(env)), t, who) == payouts::owed(
                            old(self)@,
                            r->Ok_0@,
                            t,
                            who,
                        ) - (if who == old(env).contract@ {
                            payouts::amounts(old(self)@, r->Ok_0@, t)
                        } else {
                            0
                        })
                },
            },
    {
        env.require_auth(&caller);
        roles::require_not_paused(self.paused)?;
        if ids.len() > MAX_BATCH {
            return Err(ContractError::BatchTooLarge);
        }
        let contract = env.contract.clone();
        let mut released: Vec<Symbol> = Vec::new();
        let mut i: usize = 0;
        assert(self.escrows@ =~= old(self)@.batch_escrows(caller@, ids@.take(0)));
        while i < ids.len()
            invariant
                i <= ids.len(),
                old(self)@.wf(),
                contract == old(env).contract,
                self@ == (MarketState { escrows: self.escrows@, ..old(self)@ }),
                self.escrows@ == old(self)@.batch_escrows(caller@, ids@.take(i as int)),
                released@ == old(self)@.due(caller@, ids@.take(i as int)),
                env.did(
                    *old(env),
                    seq![Call::RequireAuth(caller)] + old(self)@.batch_calls(
                        old(env).contract,
                        released@,
                    ),
                ),
            decreases ids.len() - i,
        {
            let id = &ids[i];
            let ghost before = ids@.take(i as int);
            let ghost after = ids@.take(i + 1);
            proof {
                assert(after.drop_last() =~= before);
                assert(after.last() == *id);
                assert forall|k: Seq<char>| holds(after, k) == (holds(before, k) || k == id@) by {
                    if holds(before, k) {
                        let j = choose|j: int| 0 <= j < before.len() && #[trigger] before[j]@ == k;
                        assert(after[j]@ == k);
                    }
                    if k == id@ {
                        assert(after[i as int]@ == k);
                    }
                    if holds(after, k) {
                        let j = choose|j: int| 0 <= j < after.len() && #[trigger] after[j]@ == k;
                        if j < i {
                            assert(before[j]@ == k);
                        }
                    }
                }
            }
            match self.escrows.get_mut(id) {
                None => {},
                Some(escrow) => {
                    if !escrow.released && !escrow.cancelled && (escrow.from.same(&caller)
                        || escrow.to.same(&caller)) {
                        env.transfer(&escrow.token, &contract, &escrow.to, escrow.amount);
                        escrow.released = true;
                        env.write(DataKey::Escrow(id.clone()));
                        env.publish(
                            Topics::Three(
                                "EscRel",
                                Val::Symbol(id.clone()),
                                Val::Address(escrow.to.clone()),
                            ),
                            Data::One(Val::I128(escrow.amount)),
                        );
                        released.push(id.clone());
                        assert(released@.drop_last() =~= old(self)@.due(caller@, before));
                    }
                },
            }
            assert(self.escrows@ =~= old(self)@.batch_escrows(caller@, after));
            i += 1;
        }
        assert(ids@.take(i as int) =~= ids@);
        proof {
            let a: Seq<Call<DataKey>> = seq![Call::RequireAuth(caller)];
            let b = old(self)@.batch_calls(old(env).contract, released@);
            requests_come_in_order(*old(env), *env, a + b);
            assert forall|t: Seq<char>, who: Seq<char>| #[trigger]
                flow(a + b, t, who) == payouts::owed(old(self)@, released@, t, who) - (if who
                    == old(env).contract@ {
                    payouts::amounts(old(self)@, released@, t)
                } else {
                    0
                }) by {
                lemma_flow_concat(a, b, t, who);
                lemma_flow_none(a, t, who);
                payouts::a_batch_pays_every_worker_in_full(
                    old(self)@,
                    old(env).contract,
                    released@,
                    t,
                    who,
                );
            }
        }
        Ok(released)
    }

    /// Pay an escrow that has expired back to the payer. Anyone may call.
    pub fn cancel_expired_escrow(&mut self, env: &mut Env<DataKey>, id: Symbol) -> (r: Result<
        (),
        ContractError,
    >)
        requires
            old(self)@.wf(),
        ensures
            final(self)@.wf(),
            r == old(self)@.verdict((laws::Op::CancelExpiredEscrow { id }), old(env).timestamp),
            final(self)@ == old(self)@.after(
                (laws::Op::CancelExpiredEscrow { id }),
                old(env).timestamp,
            ),
            r == old(self)@.cancel_expired_verdict(id@, old(env).timestamp),
            r is Err ==> final(self)@ == old(self)@ && final(env).did(*old(env), seq![]),
            r is Ok ==> {
                &&& final(self)@ == old(self)@.with_cancelled(id@)
                &&& final(env).did(
                    *old(env),
                    refund_calls("EscExp", old(env).contract, id, old(self)@.escrows[id@]),
                )
                &&& pays(
                    final(env).asked_since(*old(env)),
                    old(self)@.escrows[id@].token@,
                    old(env).contract@,
                    old(self)@.escrows[id@].from@,
                    old(self)@.escrows[id@].amount as int,
                )
            },
    {
        roles::require_not_paused(self.paused)?;
        match self.escrows.get_mut(&id) {
            None => Err(ContractError::EscrowNotFound),
            Some(escrow) => {
                if escrow.released || escrow.cancelled {
                    return Err(ContractError::EscrowNotActive);
                }
                if env.timestamp < escrow.expiry {
                    return Err(ContractError::EscrowNotYetExpired);
                }
                let contract = env.contract.clone();
                env.transfer(&escrow.token, &contract, &escrow.from, escrow.amount);
                escrow.cancelled = true;
                env.write(DataKey::Escrow(id.clone()));
                env.publish(
                    Topics::Three("EscExp", Val::Symbol(id), Val::Address(escrow.from.clone())),
                    Data::One(Val::I128(escrow.amount)),
                );
                proof {
                    let c = old(env).contract;
                    let e = old(self)@.escrows[id@];
                    payouts::cancelling_pays_the_payer_back("EscExp", c, id, e);
                    requests_come_in_order(*old(env), *env, refund_calls("EscExp", c, id, e));
                }
                Ok(())
            },
        }
    }
}

} // verus!

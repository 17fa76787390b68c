//! Multi-signature escrows.

use vstd::prelude::*;

use super::laws;
use super::escrow::escrow_event;
use super::payouts;
use super::{
    Arbitration, DataKey, MarketContract, MarketState, MultiSigEscrow, MultiSigView,
};
use crate::error::ContractError;
use crate::host::{requests_come_in_order, Call, Data, Env, Topics, Val};
use crate::ledger::{moves_nothing, pays};
use crate::list;
use crate::list::holds;
use crate::roles;
use crate::roles::{both, pause_verdict, refuse_if};
use crate::values::{Address, Key, Symbol};

verus! {

impl MultiSigView {
    /// Whether one more approval releases the funds.
    pub open spec fn last_approval(self) -> bool {
        self.approvals.len() + 1 >= self.threshold
    }

    /// The escrow once `caller` has approved: released where enough signers have.
    pub open spec fn approved_by(self, caller: Address) -> MultiSigView {
        MultiSigView {
            approvals: self.approvals.push(caller),
            released: self.last_approval(),
            ..self
        }
    }

    /// The escrow once it was decided whether the worker gets the funds.
    pub open spec fn decided(self, release_to_worker: bool) -> MultiSigView {
        if release_to_worker {
            MultiSigView { released: true, ..self }
        } else {
            MultiSigView { cancelled: true, ..self }
        }
    }
}

impl MarketState {
    /// What `create_multisig_escrow` answers.
    pub open spec fn create_multisig_verdict(
        self,
        id: Seq<char>,
        amount: i128,
        signers: nat,
        threshold: u32,
    ) -> Result<(), ContractError> {
        both(
            pause_verdict(self.paused),
            both(
                refuse_if(amount <= 0, ContractError::AmountMustBePositive),
                both(
                    refuse_if(
                        self.multisig.contains_key(id),
                        ContractError::MultiSigEscrowAlreadyExists,
                    ),
                    refuse_if(
                        threshold == 0 || threshold > signers,
                        ContractError::InvalidThreshold,
                    ),
                ),
            ),
        )
    }

    /// What an entry point answers that needs nothing but the multi-signature escrow `id`,
    /// while not paused.
    pub open spec fn multisig_verdict(self, id: Seq<char>) -> Result<(), ContractError> {
        both(
            pause_verdict(self.paused),
            refuse_if(!self.multisig.contains_key(id), ContractError::MultiSigEscrowNotFound),
        )
    }

    /// What `approve_multisig_release` answers.
    pub open spec fn approve_verdict(self, id: Seq<char>, caller: Seq<char>) -> Result<
        (),
        ContractError,
    > {
        let e = self.multisig[id];
        both(
            self.multisig_verdict(id),
            both(
                refuse_if(e.released, ContractError::AlreadyReleased),
                both(
                    refuse_if(e.cancelled, ContractError::EscrowCancelled),
                    both(
                        refuse_if(!holds(e.signers, caller), ContractError::NotASigner),
                        refuse_if(holds(e.approvals, caller), ContractError::AlreadyApproved),
                    ),
                ),
            ),
        )
    }

    /// What `cancel_multisig_escrow` answers at the time `now`.
    pub open spec fn cancel_multisig_verdict(
        self,
        id: Seq<char>,
        caller: Seq<char>,
        now: u64,
    ) -> Result<(), ContractError> {
        let e = self.multisig[id];
        both(
            self.multisig_verdict(id),
            both(
                refuse_if(e.from@ != caller, ContractError::NotAuthorized),
                both(
                    refuse_if(e.released, ContractError::AlreadyReleased),
                    both(
                        refuse_if(e.cancelled, ContractError::AlreadyCancelled),
                        refuse_if(now < e.expiry, ContractError::EscrowNotYetExpired),
                    ),
                ),
            ),
        )
    }

    /// What `request_multisig_arbitration` answers.
    pub open spec fn request_multisig_verdict(
        self,
        id: Seq<char>,
        caller: Seq<char>,
        arbitrator: Seq<char>,
    ) -> Result<(), ContractError> {
        let e = self.multisig[id];
        both(
            self.multisig_verdict(id),
            both(
                refuse_if(e.from@ != caller && e.to@ != caller, ContractError::NotAuthorized),
                both(
                    refuse_if(!e.active(), ContractError::EscrowFinalized),
                    both(
                        refuse_if(
                            self.arbitrations.contains_key(id),
                            ContractError::ArbitrationAlreadyRequested,
                        ),
                        refuse_if(
                            !holds(self.arbitrators, arbitrator),
                            ContractError::InvalidArbitrator,
                        ),
                    ),
                ),
            ),
        )
    }

    /// What an arbitrator is answered who decides the dispute over `id`, as far as the dispute
    /// itself goes.
    pub open spec fn dispute_verdict(self, id: Seq<char>, arbitrator: Seq<char>) -> Result<
        (),
        ContractError,
    > {
        let a = self.arbitrations[id];
        both(
            refuse_if(!self.arbitrations.contains_key(id), ContractError::ArbitrationNotFound),
            both(
                refuse_if(a.arbitrator@ != arbitrator, ContractError::NotAnArbitrator),
                refuse_if(a.resolved, ContractError::AlreadyResolved),
            ),
        )
    }

    /// What `resolve_multisig_arbitration` answers.
    pub open spec fn resolve_multisig_verdict(
        self,
        id: Seq<char>,
        arbitrator: Seq<char>,
    ) -> Result<(), ContractError> {
        both(
            pause_verdict(self.paused),
            both(
                self.dispute_verdict(id, arbitrator),
                both(
                    self.multisig_verdict(id),
                    refuse_if(!self.multisig[id].active(), ContractError::EscrowFinalized),
                ),
            ),
        )
    }

    /// The state in which the multi-signature escrow `id` is `e`.
    pub open spec fn with_multisig(self, id: Seq<char>, e: MultiSigView) -> MarketState {
        MarketState { multisig: self.multisig.insert(id, e), ..self }
    }

    /// The state in which `arbitrator` is to decide over `escrow_id`.
    pub open spec fn with_dispute(
        self,
        escrow_id: Symbol,
        requester: Address,
        arbitrator: Address,
        fee: i128,
    ) -> MarketState {
        MarketState {
            arbitrations: self.arbitrations.insert(
                escrow_id@,
                Arbitration { escrow_id, requester, arbitrator, fee, resolved: false },
            ),
            ..self
        }
    }

    /// The state in which the dispute over `id` is decided.
    pub open spec fn with_resolved(self, id: Seq<char>) -> MarketState {
        MarketState {
            arbitrations: self.arbitrations.insert(
                id,
                Arbitration { resolved: true, ..self.arbitrations[id] },
            ),
            ..self
        }
    }
}

/// What is asked of the host when the funds of `e` are locked under `id`.
pub open spec fn create_multisig_calls(contract: Address, id: Symbol, e: MultiSigView) -> Seq<
    Call<DataKey>,
> {
    seq![
        Call::RequireAuth(e.from),
        Call::Transfer { token: e.token, from: e.from, to: contract, amount: e.amount },
        Call::Write(DataKey::MultiSigEscrow(id)),
        Call::Publish {
            topics: Topics::Three("MsEscCrt", Val::Symbol(id), Val::Address(e.from)),
            data: Data::Three(
                Val::Address(e.to),
                Val::I128(e.amount),
                Val::U32(e.threshold),
            ),
        },
    ]
}

/// What is asked of the host when `caller` approves the release of `e`.
pub open spec fn approve_calls(
    contract: Address,
    caller: Address,
    id: Symbol,
    e: MultiSigView,
) -> Seq<Call<DataKey>> {
    seq![
        Call::RequireAuth(caller),
        Call::Publish {
            topics: Topics::Three("MsEscApv", Val::Symbol(id), Val::Address(caller)),
            data: Data::One(Val::U32((e.approvals.len() + 1) as u32)),
        },
    ] + (if e.last_approval() {
        seq![
            Call::Transfer { token: e.token, from: contract, to: e.to, amount: e.amount },
            escrow_event("MsEscRel", id, e.to, e.amount),
        ]
    } else {
        seq![]
    }) + seq![Call::Write(DataKey::MultiSigEscrow(id))]
}

/// What is asked of the host when `e` is paid back.
pub open spec fn cancel_multisig_calls(
    contract: Address,
    caller: Address,
    id: Symbol,
    e: MultiSigView,
) -> Seq<Call<DataKey>> {
    seq![
        Call::RequireAuth(caller),
        Call::Transfer { token: e.token, from: contract, to: e.from, amount: e.amount },
        Call::Write(DataKey::MultiSigEscrow(id)),
        escrow_event("MsEscCnl", id, e.from, e.amount),
    ]
}

/// What is asked of the host when arbitration over a multi-signature escrow is requested.
pub open spec fn request_multisig_calls(
    caller: Address,
    arbitrator: Address,
    id: Symbol,
    token: Address,
    fee: i128,
) -> Seq<Call<DataKey>> {
    seq![Call::RequireAuth(caller)] + (if fee > 0 {
        seq![Call::Transfer { token, from: caller, to: arbitrator, amount: fee }]
    } else {
        seq![]
    }) + seq![
        Call::Write(DataKey::MultiSigEscrow(id)),
        Call::Write(DataKey::Arbitration(id)),
        Call::Publish {
            topics: Topics::Three("MsArbReq", Val::Symbol(id), Val::Address(caller)),
            data: Data::Two(Val::Address(arbitrator), Val::I128(fee)),
        },
    ]
}

/// What is asked of the host when an arbitrator decides over `e`.
pub open spec fn resolve_multisig_calls(
    contract: Address,
    arbitrator: Address,
    id: Symbol,
    e: MultiSigView,
    release_to_worker: bool,
) -> Seq<Call<DataKey>> {
    let to = if release_to_worker {
        e.to
    } else {
        e.from
    };
    seq![
        Call::RequireAuth(arbitrator),
        Call::Transfer { token: e.token, from: contract, to, amount: e.amount },
        Call::Write(DataKey::MultiSigEscrow(id)),
        Call::Write(DataKey::Arbitration(id)),
        Call::Publish {
            topics: Topics::Three("MsArbRes", Val::Symbol(id), Val::Address(arbitrator)),
            data: Data::One(Val::Bool(release_to_worker)),
        },
    ]
}

impl MarketContract {
    /// Lock `amount` until `threshold` of `signers` have approved its release, under an `id`
    /// that no multi-signature escrow uses.
    pub fn create_multisig_escrow(
        &mut self,
        env: &mut Env<DataKey>,
        id: Symbol,
        from: Address,
        to: Address,
        token_addr: Address,
        amount: i128,
        expiry: u64,
        signers: Vec<Address>,
        threshold: u32,
    ) -> (r: Result<(), ContractError>)
        requires
            old(self)@.wf(),
        ensures
            final(self)@.wf(),
            r == old(self)@.verdict(
                (laws::Op::CreateMultiSig {
                    id,
                    from,
                    to,
                    token: token_addr,
                    amount,
                    expiry,
                    signers: signers@,
                    threshold,
                }),
                old(env).timestamp,
            ),
            final(self)@ == old(self)@.after(
                (laws::Op::CreateMultiSig {
                    id,
                    from,
                    to,
                    token: token_addr,
                    amount,
                    expiry,
                    signers: signers@,
                    threshold,
                }),
                old(env).timestamp,
            ),
            r == old(self)@.create_multisig_verdict(id@, amount, signers@.len(), threshold),
            r is Err ==> final(self)@ == old(self)@ && final(env).did(
                *old(env),
                seq![Call::RequireAuth(from)],
            ),
            r is Ok ==> {
                let e = MultiSigView {
                    from,
                    to,
                    token: token_addr,
                    amount,
                    expiry,
                    signers: signers@,
                    threshold,
                    approvals: seq![],
                    released: false,
                    cancelled: false,
                };
                &&& final(self)@ == old(self)@.with_multisig(id@, e)
                &&& final(env).did(*old(env), create_multisig_calls(old(env).contract, id, e))
                &&& pays(
                    final(env).asked_since(*old(env)),
                    token_addr@,
                    from@,
                    old(env).contract@,
                    amount as int,
                )
            },
    {
        env.require_auth(&from);
        roles::require_not_paused(self.paused)?;
        if amount <= 0 {
            return Err(ContractError::AmountMustBePositive);
        }
        if self.multisig.has(&id) {
            return Err(ContractError::MultiSigEscrowAlreadyExists);
        }
        if threshold == 0 || threshold as usize > signers.len() {
            return Err(ContractError::InvalidThreshold);
        }
        let contract = env.contract.clone();
        env.transfer(&token_addr, &from, &contract, amount);
        let escrow = MultiSigEscrow {
            from: from.clone(),
            to: to.clone(),
            token: token_addr,
            amount,
            expiry,
            signers,
            threshold,
            approvals: Vec::new(),
            released: false,
            cancelled: false,
        };
        self.multisig.set(id.clone(), escrow);
        env.write(DataKey::MultiSigEscrow(id.clone()));
        env.publish(
            Topics::Three("MsEscCrt", Val::Symbol(id), Val::Address(from)),
            Data::Three(Val::Address(to), Val::I128(amount), Val::U32(threshold)),
        );
        proof {
            let e = self@.multisig[id@];
            payouts::locking_multisig_takes_the_amount_from_the_payer(old(env).contract, id, e);
            requests_come_in_order(
                *old(env),
                *env,
                create_multisig_calls(old(env).contract, id, e),
            );
        }
        Ok(())
    }

    /// Approve the release of a multi-signature escrow. The approval that reaches the threshold
    /// pays the funds to the worker.
    pub fn approve_multisig_release(
        &mut self,
        env: &mut Env<DataKey>,
        id: Symbol,
        caller: Address,
    ) -> (r: Result<(), ContractError>)
        requires
            old(self)@.wf(),
        ensures
            final(self)@.wf(),
            r == old(self)@.verdict((laws::Op::ApproveMultiSig { id, caller }), old(env).timestamp),
            final(self)@ == old(self)@.after(
                (laws::Op::ApproveMultiSig { id, caller }),
                old(env).timestamp,
            ),
            r == old(self)@.approve_verdict(id@, caller@),
            r is Err ==> final(self)@ == old(self)@ && final(env).did(
                *old(env),
                seq![Call::RequireAuth(caller)],
            ),
            r is Ok ==> {
                let e = old(self)@.multisig[id@];
                &&& final(self)@ == old(self)@.with_multisig(id@, e.approved_by(caller))
                &&& final(env).did(*old(env), approve_calls(old(env).contract, caller, id, e))
                &&& e.approvals.len() + 1 == e.threshold ==> pays(
                    final(env).asked_since(*old(env)),
                    e.token@,
                    old(env).contract@,
                    e.to@,
                    e.amount as int,
                )
                &&& e.approvals.len() + 1 < e.threshold ==> moves_nothing(
                    final(env).asked_since(*old(env)),
                )
            },
    {
        env.require_auth(&caller);
        roles::require_not_paused(self.paused)?;
        match self.multisig.get_mut(&id) {
            None => Err(ContractError::MultiSigEscrowNotFound),
            Some(escrow) => {
                if escrow.released {
                    return Err(ContractError::AlreadyReleased);
                }
                if escrow.cancelled {
                    return Err(ContractError::EscrowCancelled);
                }
                if !list::contains(&escrow.signers, &caller) {
                    return Err(ContractError::NotASigner);
                }
                if list::contains(&escrow.approvals, &caller) {
                    return Err(ContractError::AlreadyApproved);
                }
                assert(old(self)@.multisig[id@].wf());
                escrow.approvals.push(caller.clone());
                let count: u32 = escrow.approvals.len() as u32;
                env.publish(
                    Topics::Three("MsEscApv", Val::Symbol(id.clone()), Val::Address(caller)),
                    Data::One(Val::U32(count)),
                );
                if count >= escrow.threshold {
                    let contract = env.contract.clone();
                    env.transfer(&escrow.token, &contract, &escrow.to, escrow.amount);
                    escrow.released = true;
                    env.publish(
                        Topics::Three(
                            "MsEscRel",
                            Val::Symbol(id.clone()),
                            Val::Address(escrow.to.clone()),
                        ),
                        Data::One(Val::I128(escrow.amount)),
                    );
                }
                env.write(DataKey::MultiSigEscrow(id));
                proof {
                    let c = old(env).contract;
                    let e = old(self)@.multisig[id@];
                    payouts::the_last_approval_pays_the_worker(c, caller, id, e);
                    requests_come_in_order(*old(env), *env, approve_calls(c, caller, id, e));
                }
                Ok(())
            },
        }
    }

    /// Pay a multi-signature escrow that has expired back to the payer, who must be the caller.
    pub fn cancel_multisig_escrow(
        &mut self,
        env: &mut Env<DataKey>,
        id: Symbol,
        caller: Address,
    ) -> (r: Result<(), ContractError>)
        requires
            old(self)@.wf(),
        ensures
            final(self)@.wf(),
            r == old(self)@.verdict((laws::Op::CancelMultiSig { id, caller }), old(env).timestamp),
            final(self)@ == old(self)@.after(
                (laws::Op::CancelMultiSig { id, caller }),
                old(env).timestamp,
            ),
            r == old(self)@.cancel_multisig_verdict(id@, caller@, old(env).timestamp),
            r is Err ==> final(self)@ == old(self)@ && final(env).did(
                *old(env),
                seq![Call::RequireAuth(caller)],
            ),
            r is Ok ==> {
                let e = old(self)@.multisig[id@];
                &&& final(self)@ == old(self)@.with_multisig(id@, e.decided(false))
                &&& final(env).did(
                    *old(env),
                    cancel_multisig_calls(old(env).contract, caller, id, e),
                )
                &&& pays(
                    final(env).asked_since(*old(env)),
                    e.token@,
                    old(env).contract@,
                    e.from@,
                    e.amount as int,
                )
            },
    {
        env.require_auth(&caller);
        roles::require_not_paused(self.paused)?;
        match self.multisig.get_mut(&id) {
            None => Err(ContractError::MultiSigEscrowNotFound),
            Some(escrow) => {
                if !escrow.from.same(&caller) {
                    return Err(ContractError::NotAuthorized);
                }
                if escrow.released {
                    return Err(ContractError::AlreadyReleased);
                }
                if escrow.cancelled {
                    return Err(ContractError::AlreadyCancelled);
                }
                if env.timestamp < escrow.expiry {
                    return Err(ContractError::EscrowNotYetExpired);
                }
                let contract = env.contract.clone();
                env.transfer(&escrow.token, &contract, &escrow.from, escrow.amount);
                escrow.cancelled = true;
                env.write(DataKey::MultiSigEscrow(id.clone()));
                env.publish(
                    Topics::Three(
                        "MsEscCnl",
                        Val::Symbol(id),
                        Val::Address(escrow.from.clone()),
                    ),
                    Data::One(Val::I128(escrow.amount)),
                );
                proof {
                    let c = old(env).contract;
                    let e = old(self)@.multisig[id@];
                    payouts::cancelling_multisig_pays_the_payer_back(c, caller, id, e);
                    requests_come_in_order(
                        *old(env),
                        *env,
                        cancel_multisig_calls(c, caller, id, e),
                    );
                }
                Ok(())
            },
        }
    }

    /// The multi-signature escrow `id`.
    pub fn get_multisig_escrow(&self, id: Symbol) -> (r: Result<
        Option<MultiSigEscrow>,
        ContractError,
    >)
        ensures
            r is Ok,
            match r->Ok_0 {
                Some(escrow) => self@.multisig.contains_key(id@) && escrow@ == self@.multisig[id@],
                None => !self@.multisig.contains_key(id@),
            },
    {
        match self.multisig.get(&id) {
            Some(escrow) => Ok(Some(escrow.clone())),
            None => Ok(None),
        }
    }

    /// Have an approved arbitrator decide over a multi-signature escrow. The caller must be the
    /// payer or the worker, and pays the fee at once.
    pub fn request_multisig_arbitration(
        &mut self,
        env: &mut Env<DataKey>,
        escrow_id: Symbol,
        caller: Address,
        arbitrator: Address,
        fee: i128,
    ) -> (r: Result<(), ContractError>)
        requires
            old(self)@.wf(),
        ensures
            final(self)@.wf(),
            r == old(self)@.verdict(
                (laws::Op::RequestMultiSigArbitration { id: escrow_id, caller, arbitrator, fee }),
                old(env).timestamp,
            ),
            final(self)@ == old(self)@.after(
                (laws::Op::RequestMultiSigArbitration { id: escrow_id, caller, arbitrator, fee }),
                old(env).timestamp,
            ),
            r == old(self)@.request_multisig_verdict(escrow_id@, caller@, arbitrator@),
            r is Err ==> final(self)@ == old(self)@ && final(env).did(
                *old(env),
                seq![Call::RequireAuth(caller)],
            ),
            r is Ok ==> {
                &&& final(self)@ == old(self)@.with_dispute(escrow_id, caller, arbitrator, fee)
                &&& final(env).did(
                    *old(env),
                    request_multisig_calls(
                        caller,
                        arbitrator,
                        escrow_id,
                        old(self)@.multisig[escrow_id@].token,
                        fee,
                    ),
                )
            },
    {
        env.require_auth(&caller);
        roles::require_not_paused(self.paused)?;
        match self.multisig.get(&escrow_id) {
            None => Err(ContractError::MultiSigEscrowNotFound),
            Some(escrow) => {
                if !escrow.from.same(&caller) && !escrow.to.same(&caller) {
                    return Err(ContractError::NotAuthorized);
                }
                if escrow.released || escrow.cancelled {
                    return Err(ContractError::EscrowFinalized);
                }
                if self.arbitrations.has(&escrow_id) {
                    return Err(ContractError::ArbitrationAlreadyRequested);
                }
                if !list::contains(&self.arbitrators, &arbitrator) {
                    return Err(ContractError::InvalidArbitrator);
                }
                if fee > 0 {
                    env.transfer(&escrow.token, &caller, &arbitrator, fee);
                }
                env.write(DataKey::MultiSigEscrow(escrow_id.clone()));
                let arbitration = Arbitration {
                    escrow_id: escrow_id.clone(),
                    requester: caller.clone(),
                    arbitrator: arbitrator.clone(),
                    fee,
                    resolved: false,
                };
                self.arbitrations.set(escrow_id.clone(), arbitration);
                env.write(DataKey::Arbitration(escrow_id.clone()));
                env.publish(
                    Topics::Three("MsArbReq", Val::Symbol(escrow_id), Val::Address(caller)),
                    Data::Two(Val::Address(arbitrator), Val::I128(fee)),
                );
                Ok(())
            },
        }
    }

    /// Decide a dispute over a multi-signature escrow: its funds go to the worker or back to
    /// the payer. The caller must be the dispute's arbitrator.
    pub fn resolve_multisig_arbitration(
        &mut self,
        env: &mut Env<DataKey>,
        escrow_id: Symbol,
        arbitrator: Address,
        release_to_worker: bool,
    ) -> (r: Result<(), ContractError>)
        requires
            old(self)@.wf(),
        ensures
            final(self)@.wf(),
            r == old(self)@.verdict(
                (laws::Op::ResolveMultiSigArbitration {
                    id: escrow_id,
                    arbitrator,
                    release_to_worker,
                }),
                old(env).timestamp,
            ),
            final(self)@ == old(self)@.after(
                (laws::Op::ResolveMultiSigArbitration {
                    id: escrow_id,
                    arbitrator,
                    release_to_worker,
                }),
                old(env).timestamp,
            ),
            r == old(self)@.resolve_multisig_verdict(escrow_id@, arbitrator@),
            r is Err ==> final(self)@ == old(self)@ && final(env).did(
                *old(env),
                seq![Call::RequireAuth(arbitrator)],
            ),
            r is Ok ==> {
                let e = old(self)@.multisig[escrow_id@];
                &&& final(self)@ == old(self)@.with_multisig(
                    escrow_id@,
                    e.decided(release_to_worker),
                ).with_resolved(escrow_id@)
                &&& final(env).did(
                    *old(env),
                    resolve_multisig_calls(
                        old(env).contract,
                        arbitrator,
                        escrow_id,
                        e,
                        release_to_worker,
                    ),
                )
                &&& release_to_worker ==> pays(
                    final(env).asked_since(*old(env)),
                    e.token@,
                    old(env).contract@,
                    e.to@,
                    e.amount as int,
                )
                &&& !release_to_worker ==> pays(
                    final(env).asked_since(*old(env)),
                    e.token@,
                    old(env).contract@,
                    e.from@,
                    e.amount as int,
                )
            },
    {
        env.require_auth(&arbitrator);
        roles::require_not_paused(self.paused)?;
        match self.arbitrations.get_mut(&escrow_id) {
            None => Err(ContractError::ArbitrationNotFound),
            Some(arbitration) => {
                if !arbitration.arbitrator.same(&arbitrator) {
                    return Err(ContractError::NotAnArbitrator);
                }
                if arbitration.resolved {
                    return Err(ContractError::AlreadyResolved);
                }
                match self.multisig.get_mut(&escrow_id) {
                    None => Err(ContractError::MultiSigEscrowNotFound),
                    Some(escrow) => {
                        if escrow.released || escrow.cancelled {
                            return Err(ContractError::EscrowFinalized);
                        }
                        assert(old(self)@.multisig[escrow_id@].wf());
                        let recipient = if release_to_worker {
                            escrow.released = true;
                            escrow.to.clone()
                        } else {
                            escrow.cancelled = true;
                            escrow.from.clone()
                        };
                        let contract = env.contract.clone();
                        env.transfer(&escrow.token, &contract, &recipient, escrow.amount);
                        arbitration.resolved = true;
                        env.write(DataKey::MultiSigEscrow(escrow_id.clone()));
                        env.write(DataKey::Arbitration(escrow_id.clone()));
                        env.publish(
                            Topics::Three(
                                "MsArbRes",
                                Val::Symbol(escrow_id),
                                Val::Address(arbitrator),
                            ),
                            Data::One(Val::Bool(release_to_worker)),
                        );
                        proof {
                            let c = old(env).contract;
                            let e = old(self)@.multisig[escrow_id@];
                            payouts::a_multisig_decision_pays_the_party_it_names(
                                c,
                                arbitrator,
                                escrow_id,
                                e,
                                release_to_worker,
                            );
                            requests_come_in_order(
                                *old(env),
                                *env,
                                resolve_multisig_calls(
                                    c,
                                    arbitrator,
                                    escrow_id,
                                    e,
                                    release_to_worker,
                                ),
                            );
                        }
                        Ok(())
                    },
                }
            },
        }
    }

    /// The dispute over the multi-signature escrow `escrow_id`.
    pub fn get_multisig_arbitration(&self, escrow_id: Symbol) -> (r: Result<
        Option<Arbitration>,
        ContractError,
    >)
        ensures
            r == Ok::<Option<Arbitration>, ContractError>(
                if self@.arbitrations.contains_key(escrow_id@) {
                    Some(self@.arbitrations[escrow_id@])
                } else {
                    None
                },
            ),
    {
        self.get_arbitration(escrow_id)
    }
}

} // verus!

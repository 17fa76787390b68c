//! Arbitrators, and disputes over escrows.

use vstd::prelude::*;

use super::laws;
use super::payouts;
use super::{Arbitration, DataKey, Escrow, MarketContract, MarketState};
use crate::error::ContractError;
use crate::host::{requests_come_in_order, Call, Data, Env, Topics, Val};
use crate::ledger::pays;
use crate::list;
use crate::list::{holds, with, without};
use crate::roles;
use crate::roles::{both, pause_verdict, refuse_if};
use crate::values::{Address, Key, Symbol};

verus! {

impl MarketState {
    /// What `request_arbitration` answers.
    pub open spec fn request_verdict(
        self,
        id: Seq<char>,
        caller: Seq<char>,
        arbitrator: Seq<char>,
    ) -> Result<(), ContractError> {
        let e = self.escrows[id];
        both(
            self.escrow_verdict(id),
            both(
                refuse_if(!e.active(), ContractError::EscrowFinalized),
                both(
                    refuse_if(
                        e.arbitration_requested,
                        ContractError::ArbitrationAlreadyRequested,
                    ),
                    both(
                        refuse_if(!e.is_party(caller), ContractError::NotAuthorized),
                        refuse_if(
                            !holds(self.arbitrators, arbitrator),
                            ContractError::InvalidArbitrator,
                        ),
                    ),
                ),
            ),
        )
    }

    /// The state in which `arbitrator` is approved.
    pub open spec fn with_arbitrator(self, arbitrator: Address) -> MarketState {
        MarketState { arbitrators: with(self.arbitrators, arbitrator), ..self }
    }

    /// The state in which `arbitrator` is not approved.
    pub open spec fn without_arbitrator(self, arbitrator: Seq<char>) -> MarketState {
        MarketState { arbitrators: without(self.arbitrators, arbitrator), ..self }
    }

    /// The state in which the funds of the escrow `id` went to the worker or back to the payer.
    pub open spec fn with_decision(self, id: Seq<char>, release_to_worker: bool) -> MarketState {
        if release_to_worker {
            self.with_released(id)
        } else {
            self.with_cancelled(id)
        }
    }

    /// What `resolve_arbitration` answers.
    pub open spec fn resolve_verdict(self, id: Seq<char>, arbitrator: Seq<char>) -> Result<
        (),
        ContractError,
    > {
        both(
            pause_verdict(self.paused),
            both(
                self.dispute_verdict(id, arbitrator),
                refuse_if(!self.escrows.contains_key(id), ContractError::EscrowNotFound),
            ),
        )
    }
}

/// What is asked of the host when arbitration over an escrow is requested.
pub open spec fn request_calls(
    caller: Address,
    arbitrator: Address,
    id: Symbol,
    token: Address,
    fee: i128,
) -> Seq<Call<DataKey>> {
    seq![
        Call::RequireAuth(caller),
        Call::Transfer { token, from: caller, to: arbitrator, amount: fee },
        Call::Write(DataKey::Escrow(id)),
        Call::Write(DataKey::Arbitration(id)),
        Call::Publish {
            topics: Topics::Three("ArbReq", Val::Symbol(id), Val::Address(caller)),
            data: Data::Two(Val::Address(arbitrator), Val::I128(fee)),
        },
    ]
}

/// What is asked of the host when an arbitrator decides over `e`.
pub open spec fn resolve_calls(
    contract: Address,
    arbitrator: Address,
    id: Symbol,
    e: Escrow,
    release_to_worker: bool,
) -> Seq<Call<DataKey>> {
    let to = if release_to_worker {
        e.to
    } else {
        e.from
    };
    seq![
        Call::RequireAuth(arbitrator),
        Call::Transfer { token: e.token, from: contract, to, amount: e.amount },
        Call::Write(DataKey::Escrow(id)),
        Call::Write(DataKey::Arbitration(id)),
        Call::Publish {
            topics: Topics::Three("ArbRes", Val::Symbol(id), Val::Address(arbitrator)),
            data: Data::One(Val::Bool(release_to_worker)),
        },
    ]
}

impl MarketContract {
    /// Approve an arbitrator. The admin must have authorised the call.
    pub fn add_arbitrator(&mut self, env: &mut Env<DataKey>, arbitrator: Address) -> (r: Result<
        (),
        ContractError,
    >)
        requires
            old(self)@.wf(),
        ensures
            final(self)@.wf(),
            r == old(self)@.verdict((laws::Op::AddArbitrator { arbitrator }), old(env).timestamp),
            final(self)@ == old(self)@.after(
                (laws::Op::AddArbitrator { arbitrator }),
                old(env).timestamp,
            ),
            r == old(self)@.admin_verdict(),
            r is Err ==> final(self)@ == old(self)@ && final(env).did(
                *old(env),
                old(self)@.admin_auth(),
            ),
            r is Ok ==> {
                let admin = old(self)@.admin->0;
                &&& final(self)@ == old(self)@.with_arbitrator(arbitrator)
                &&& final(env).did(
                    *old(env),
                    seq![Call::RequireAuth(admin)] + (if holds(
                        old(self)@.arbitrators,
                        arbitrator@,
                    ) {
                        seq![]
                    } else {
                        seq![Call::Write(DataKey::Arbitrators)]
                    }) + seq![
                        Call::Publish {
                            topics: Topics::Three(
                                "ArbAdd",
                                Val::Address(admin),
                                Val::Address(arbitrator),
                            ),
                            data: Data::Unit,
                        },
                    ],
                )
            },
    {
        let admin = self.get_admin()?;
        env.require_auth(&admin);
        roles::require_not_paused(self.paused)?;
        if list::insert(&mut self.arbitrators, arbitrator.clone()) {
            env.write(DataKey::Arbitrators);
        }
        env.publish(
            Topics::Three("ArbAdd", Val::Address(admin), Val::Address(arbitrator)),
            Data::Unit,
        );
        Ok(())
    }

    /// Withdraw the approval of an arbitrator. The admin must have authorised the call.
    pub fn remove_arbitrator(&mut self, env: &mut Env<DataKey>, arbitrator: Address) -> (r: Result<
        (),
        ContractError,
    >)
        requires
            old(self)@.wf(),
        ensures
            final(self)@.wf(),
            r == old(self)@.verdict(
                (laws::Op::RemoveArbitrator { arbitrator }),
                old(env).timestamp,
            ),
            final(self)@ == old(self)@.after(
                (laws::Op::RemoveArbitrator { arbitrator }),
                old(env).timestamp,
            ),
            r == old(self)@.admin_verdict(),
            r is Err ==> final(self)@ == old(self)@ && final(env).did(
                *old(env),
                old(self)@.admin_auth(),
            ),
            r is Ok ==> {
                let admin = old(self)@.admin->0;
                &&& final(self)@ == old(self)@.without_arbitrator(arbitrator@)
                &&& final(env).did(
                    *old(env),
                    seq![
                        Call::RequireAuth(admin),
                        Call::Write(DataKey::Arbitrators),
                        Call::Publish {
                            topics: Topics::Three(
                                "ArbRem",
                                Val::Address(admin),
                                Val::Address(arbitrator),
                            ),
                            data: Data::Unit,
                        },
                    ],
                )
            },
    {
        let admin = self.get_admin()?;
        env.require_auth(&admin);
        roles::require_not_paused(self.paused)?;
        list::remove_all(&mut self.arbitrators, &arbitrator);
        env.write(DataKey::Arbitrators);
        env.publish(
            Topics::Three("ArbRem", Val::Address(admin), Val::Address(arbitrator)),
            Data::Unit,
        );
        Ok(())
    }

    /// Have an approved arbitrator decide over an escrow. The caller must be the payer or the
    /// worker, and pays the fee at once.
    pub fn request_arbitration(
        &mut self,
        env: &mut Env<DataKey>,
        escrow_id: Symbol,
        caller: Address,
        arbitrator: Address,
        fee: i128,
    ) -> (r: Result<(), ContractError>)
        requires
            old(self)@.wf(),
        ensures
            final(self)@.wf(),
            r == old(self)@.verdict(
                (laws::Op::RequestArbitration { id: escrow_id, caller, arbitrator, fee }),
                old(env).timestamp,
            ),
            final(self)@ == old(self)@.after(
                (laws::Op::RequestArbitration { id: escrow_id, caller, arbitrator, fee }),
                old(env).timestamp,
            ),
            r == old(self)@.request_verdict(escrow_id@, caller@, arbitrator@),
            r is Err ==> final(self)@ == old(self)@ && final(env).did(
                *old(env),
                seq![Call::RequireAuth(caller)],
            ),
            r is Ok ==> {
                let e = old(self)@.escrows[escrow_id@];
                &&& final(self)@ == old(self)@.with_escrow(
                    escrow_id@,
                    Escrow { arbitration_requested: true, ..e },
                ).with_dispute(escrow_id, caller, arbitrator, fee)
                &&& final(env).did(
                    *old(env),
                    request_calls(caller, arbitrator, escrow_id, e.token, fee),
                )
                &&& pays(
                    final(env).asked_since(*old(env)),
                    e.token@,
                    caller@,
                    arbitrator@,
                    fee as int,
                )
            },
    {
        env.require_auth(&caller);
        roles::require_not_paused(self.paused)?;
        match self.escrows.get_mut(&escrow_id) {
            None => Err(ContractError::EscrowNotFound),
            Some(escrow) => {
                if escrow.released || escrow.cancelled {
                    return Err(ContractError::EscrowFinalized);
                }
                if escrow.arbitration_requested {
                    return Err(ContractError::ArbitrationAlreadyRequested);
                }
                if !escrow.from.same(&caller) && !escrow.to.same(&caller) {
                    return Err(ContractError::NotAuthorized);
                }
                if !list::contains(&self.arbitrators, &arbitrator) {
                    return Err(ContractError::InvalidArbitrator);
                }
                env.transfer(&escrow.token, &caller, &arbitrator, fee);
                escrow.arbitration_requested = true;
                env.write(DataKey::Escrow(escrow_id.clone()));
                let arbitration = Arbitration {
                    escrow_id: escrow_id.clone(),
                    requester: caller.clone(),
                    arbitrator: arbitrator.clone(),
                    fee,
                    resolved: false,
                };
                self.arbitrations.set(escrow_id.clone(), arbitration);
                env.write(DataKey::Arbitration(escrow_id.clone()));
                env.publish(
                    Topics::Three("ArbReq", Val::Symbol(escrow_id), Val::Address(caller)),
                    Data::Two(Val::Address(arbitrator), Val::I128(fee)),
                );
                proof {
                    let t = old(self)@.escrows[escrow_id@].token;
                    payouts::requesting_pays_the_arbitrator(caller, arbitrator, escrow_id, t, fee);
                    requests_come_in_order(
                        *old(env),
                        *env,
                        request_calls(caller, arbitrator, escrow_id, t, fee),
                    );
                }
                Ok(())
            },
        }
    }

    /// Decide a dispute over an escrow: its funds go to the worker or back to the payer. The
    /// caller must be the dispute's arbitrator.
    pub fn resolve_arbitration(
        &mut self,
        env: &mut Env<DataKey>,
        escrow_id: Symbol,
        arbitrator: Address,
        release_to_worker: bool,
    ) -> (r: Result<(), ContractError>)
        requires
            old(self)@.wf(),
        ensures
            final(self)@.wf(),
            r == old(self)@.verdict(
                (laws::Op::ResolveArbitration { id: escrow_id, arbitrator, release_to_worker }),
                old(env).timestamp,
            ),
            final(self)@ == old(self)@.after(
                (laws::Op::ResolveArbitration { id: escrow_id, arbitrator, release_to_worker }),
                old(env).timestamp,
            ),
            r == old(self)@.resolve_verdict(escrow_id@, arbitrator@),
            r is Err ==> final(self)@ == old(self)@ && final(env).did(
                *old(env),
                seq![Call::RequireAuth(arbitrator)],
            ),
            r is Ok ==> {
                let e = old(self)@.escrows[escrow_id@];
                &&& final(self)@ == old(self)@.with_decision(
                    escrow_id@,
                    release_to_worker,
                ).with_resolved(escrow_id@)
                &&& final(env).did(
                    *old(env),
                    resolve_calls(
                        old(env).contract,
                        arbitrator,
                        escrow_id,
                        e,
                        release_to_worker,
                    ),
                )
                &&& release_to_worker ==> pays(
                    final(env).asked_since(*old(env)),
                    e.token@,
                    old(env).contract@,
                    e.to@,
                    e.amount as int,
                )
                &&& !release_to_worker ==> pays(
                    final(env).asked_since(*old(env)),
                    e.token@,
                    old(env).contract@,
                    e.from@,
                    e.amount as int,
                )
            },
    {
        env.require_auth(&arbitrator);
        roles::require_not_paused(self.paused)?;
        match self.arbitrations.get_mut(&escrow_id) {
            None => Err(ContractError::ArbitrationNotFound),
            Some(arbitration) => {
                if !arbitration.arbitrator.same(&arbitrator) {
                    return Err(ContractError::NotAnArbitrator);
                }
                if arbitration.resolved {
                    return Err(ContractError::AlreadyResolved);
                }
                match self.escrows.get_mut(&escrow_id) {
                    None => Err(ContractError::EscrowNotFound),
                    Some(escrow) => {
                        let contract = env.contract.clone();
                        if release_to_worker {
                            env.transfer(&escrow.token, &contract, &escrow.to, escrow.amount);
                            escrow.released = true;
                        } else {
                            env.transfer(&escrow.token, &contract, &escrow.from, escrow.amount);
                            escrow.cancelled = true;
                        }
                        arbitration.resolved = true;
                        env.write(DataKey::Escrow(escrow_id.clone()));
                        env.write(DataKey::Arbitration(escrow_id.clone()));
                        env.publish(
                            Topics::Three(
                                "ArbRes",
                                Val::Symbol(escrow_id),
                                Val::Address(arbitrator),
                            ),
                            Data::One(Val::Bool(release_to_worker)),
                        );
                        proof {
                            let c = old(env).contract;
                            let e = old(self)@.escrows[escrow_id@];
                            payouts::a_decision_pays_the_party_it_names(
                                c,
                                arbitrator,
                                escrow_id,
                                e,
                                release_to_worker,
                            );
                            requests_come_in_order(
                                *old(env),
                                *env,
                                resolve_calls(c, arbitrator, escrow_id, e, release_to_worker),
                            );
                        }
                        Ok(())
                    },
                }
            },
        }
    }

    /// The dispute over the escrow `escrow_id`.
    pub fn get_arbitration(&self, escrow_id: Symbol) -> (r: Result<
        Option<Arbitration>,
        ContractError,
    >)
        ensures
            r == Ok::<Option<Arbitration>, ContractError>(
                if self@.arbitrations.contains_key(escrow_id@) {
                    Some(self@.arbitrations[escrow_id@])
                } else {
                    None
                },
            ),
    {
        match self.arbitrations.get(&escrow_id) {
            Some(arbitration) => Ok(Some(arbitration.clone())),
            None => Ok(None),
        }
    }
}

} // verus!

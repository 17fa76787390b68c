//! Subscriptions of workers.

use vstd::prelude::*;

use super::laws;
use super::{
    DataKey, RegistryContract, RegistryState, SubscriptionTier, WorkerSubscription, WorkerView,
    ROLE_ADMIN_ID,
};
use crate::error::ContractError;
use crate::host::{Call, Data, Env, Topics, Val};
use crate::roles;
use crate::roles::{both, pause_verdict, refuse_if};
use crate::values::{Address, Key, Symbol};

verus! {

/// The tier that a number stands for.
pub open spec fn tier_of(tier: u32) -> Option<SubscriptionTier> {
    if tier == 0 {
        Some(SubscriptionTier::Free)
    } else if tier == 1 {
        Some(SubscriptionTier::Basic)
    } else if tier == 2 {
        Some(SubscriptionTier::Premium)
    } else {
        None
    }
}

impl WorkerView {
    /// The worker with a subscription that was set or renewed at the time `now`.
    pub open spec fn subscribed(
        self,
        tier: SubscriptionTier,
        expires_at: u64,
        now: u64,
    ) -> WorkerView {
        WorkerView {
            subscription: WorkerSubscription { tier, expires_at, last_renewed_at: now },
            ..self
        }
    }
}

impl RegistryState {
    /// What `update_subscription` answers.
    pub open spec fn subscribe_verdict(self, caller: Seq<char>, id: Seq<char>, tier: u32) -> Result<
        (),
        ContractError,
    > {
        both(
            self.managed(ROLE_ADMIN_ID, caller),
            both(
                refuse_if(tier_of(tier) is None, ContractError::InvalidSubscriptionTier),
                self.worker_verdict(id),
            ),
        )
    }

    /// What `renew_subscription` answers at the time `now`.
    pub open spec fn renew_verdict(self, caller: Seq<char>, id: Seq<char>, now: u64) -> Result<
        (),
        ContractError,
    > {
        both(
            pause_verdict(self.paused),
            both(
                self.worker_verdict(id),
                refuse_if(
                    self.workers[id].owner@ != caller && !self.delegated(id, caller, now),
                    ContractError::NotAuthorized,
                ),
            ),
        )
    }
}

impl RegistryContract {
    /// Set a worker's subscription. The caller must hold the admin's role.
    pub fn update_subscription(
        &mut self,
        env: &mut Env<DataKey>,
        admin: Address,
        id: Symbol,
        tier: u32,
        expires_at: u64,
    ) -> (r: Result<(), ContractError>)
        requires
            old(self)@.wf(),
        ensures
            final(self)@.wf(),
            r == old(self)@.verdict(
                (laws::Op::UpdateSubscription { caller: admin, id, tier, expires_at }),
                old(env).timestamp,
                old(env).sequence,
            ),
            final(self)@ == old(self)@.after(
                (laws::Op::UpdateSubscription { caller: admin, id, tier, expires_at }),
                old(env).timestamp,
                old(env).sequence,
            ),
            r == old(self)@.subscribe_verdict(admin@, id@, tier),
            r is Err ==> final(self)@ == old(self)@ && final(env).did(
                *old(env),
                seq![Call::RequireAuth(admin)],
            ),
            r is Ok ==> {
                &&& final(self)@ == old(self)@.with_worker(
                    id@,
                    old(self)@.workers[id@].subscribed(
                        tier_of(tier)->0,
                        expires_at,
                        old(env).timestamp,
                    ),
                )
                &&& final(env).did(
                    *old(env),
                    seq![
                        Call::RequireAuth(admin),
                        Call::Write(DataKey::Worker(id)),
                        Call::Publish {
                            topics: Topics::Two("SubUpd", Val::Symbol(id)),
                            data: Data::Two(Val::U32(tier), Val::U64(expires_at)),
                        },
                    ],
                )
            },
    {
        roles::require_role(env, &self.roles, ROLE_ADMIN_ID, &admin)?;
        roles::require_not_paused(self.paused)?;
        let chosen = if tier == 0 {
            SubscriptionTier::Free
        } else if tier == 1 {
            SubscriptionTier::Basic
        } else if tier == 2 {
            SubscriptionTier::Premium
        } else {
            return Err(ContractError::InvalidSubscriptionTier);
        };
        match self.workers.get_mut(&id) {
            None => Err(ContractError::WorkerNotFound),
            Some(worker) => {
                worker.subscription =
                WorkerSubscription { tier: chosen, expires_at, last_renewed_at: env.timestamp };
                env.write(DataKey::Worker(id.clone()));
                env.publish(
                    Topics::Two("SubUpd", Val::Symbol(id)),
                    Data::Two(Val::U32(tier), Val::U64(expires_at)),
                );
                Ok(())
            },
        }
    }

    /// Set when a worker's subscription ends. The caller must be the owner, or a delegate whose
    /// delegation is in force.
    pub fn renew_subscription(
        &mut self,
        env: &mut Env<DataKey>,
        caller: Address,
        id: Symbol,
        new_expires_at: u64,
    ) -> (r: Result<(), ContractError>)
        requires
            old(self)@.wf(),
        ensures
            final(self)@.wf(),
            r == old(self)@.verdict(
                (laws::Op::RenewSubscription { caller, id, expires_at: new_expires_at }),
                old(env).timestamp,
                old(env).sequence,
            ),
            final(self)@ == old(self)@.after(
                (laws::Op::RenewSubscription { caller, id, expires_at: new_expires_at }),
                old(env).timestamp,
                old(env).sequence,
            ),
            r == old(self)@.renew_verdict(caller@, id@, old(env).timestamp),
            r is Err ==> final(self)@ == old(self)@ && final(env).did(
                *old(env),
                seq![Call::RequireAuth(caller)],
            ),
            r is Ok ==> {
                let w = old(self)@.workers[id@];
                &&& final(self)@ == old(self)@.with_worker(
                    id@,
                    w.subscribed(w.subscription.tier, new_expires_at, old(env).timestamp),
                )
                &&& final(env).did(
                    *old(env),
                    seq![
                        Call::RequireAuth(caller),
                        Call::Write(DataKey::Worker(id)),
                        Call::Publish {
                            topics: Topics::Two("SubRnw", Val::Symbol(id)),
                            data: Data::One(Val::U64(new_expires_at)),
                        },
                    ],
                )
            },
    {
        env.require_auth(&caller);
        roles::require_not_paused(self.paused)?;
        let delegated = self.is_delegated(&id, &caller, env.timestamp);
        match self.workers.get_mut(&id) {
            None => Err(ContractError::WorkerNotFound),
            Some(worker) => {
                if !worker.owner.same(&caller) && !delegated {
                    return Err(ContractError::NotAuthorized);
                }
                worker.subscription.expires_at = new_expires_at;
                worker.subscription.last_renewed_at = env.timestamp;
                env.write(DataKey::Worker(id.clone()));
                env.publish(
                    Topics::Two("SubRnw", Val::Symbol(id)),
                    Data::One(Val::U64(new_expires_at)),
                );
                Ok(())
            },
        }
    }

    /// The subscription of the worker `id`.
    pub fn get_subscription(&self, id: Symbol) -> (r: Result<WorkerSubscription, ContractError>)
        ensures
            r == (if self@.workers.contains_key(id@) {
                Ok(self@.workers[id@].subscription)
            } else {
                Err(ContractError::WorkerNotFound)
            }),
    {
        match self.workers.get(&id) {
            Some(worker) => Ok(worker.subscription.clone()),
            None => Err(ContractError::WorkerNotFound),
        }
    }
}

} // verus!

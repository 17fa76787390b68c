//! Badges of workers.

use vstd::prelude::*;

use super::laws;
use super::{at, list_at, Badge, DataKey, RegistryContract, RegistryState, ROLE_ADMIN_ID};
use crate::error::ContractError;
use crate::host::{Call, Data, Env, Topics, Val};
use crate::list;
use crate::list::{holds, with};
use crate::roles;
use crate::roles::{both, is_member, pause_verdict, refuse_if};
use crate::values::{Address, Key, Pair, Symbol};

verus! {

impl Badge {
    /// Whether the badge counts at the time `now`.
    pub open spec fn valid(self, now: u64) -> bool {
        self.active && (self.expires_at == 0 || self.expires_at > now)
    }
}

impl RegistryState {
    /// Whether `who` holds the admin's role.
    pub open spec fn is_admin(self, who: Seq<char>) -> bool {
        is_member(self.roles, ROLE_ADMIN_ID, who)
    }

    /// What `award_badge` answers.
    pub open spec fn award_verdict(self, issuer: Seq<char>, id: Seq<char>) -> Result<
        (),
        ContractError,
    > {
        both(
            pause_verdict(self.paused),
            both(
                refuse_if(
                    !self.is_admin(issuer) && !self.is_curator(issuer),
                    ContractError::NotAuthorized,
                ),
                self.worker_verdict(id),
            ),
        )
    }

    /// What `revoke_badge` answers.
    pub open spec fn revoke_badge_verdict(
        self,
        caller: Seq<char>,
        key: (Seq<char>, Seq<char>),
    ) -> Result<(), ContractError> {
        both(
            pause_verdict(self.paused),
            both(
                refuse_if(!self.badges.contains_key(key), ContractError::BadgeNotFound),
                refuse_if(
                    !self.is_admin(caller) && self.badges[key].issuer@ != caller,
                    ContractError::NotAuthorized,
                ),
            ),
        )
    }

    /// The state in which the worker `id` has the badge `badge`.
    pub open spec fn awarded(self, id: Seq<char>, badge: Badge) -> RegistryState {
        RegistryState {
            badges: self.badges.insert((id, badge.id@), badge),
            worker_badges: self.worker_badges.insert(id, with(self.badge_ids(id), badge.id)),
            ..self
        }
    }

    /// The state in which a badge is revoked.
    pub open spec fn badge_revoked(self, key: (Seq<char>, Seq<char>)) -> RegistryState {
        RegistryState {
            badges: self.badges.insert(key, Badge { active: false, ..self.badges[key] }),
            ..self
        }
    }

    /// The ids of the badges of the worker `id`.
    pub open spec fn badge_ids(self, id: Seq<char>) -> Seq<Symbol> {
        list_at(self.worker_badges, id)
    }

    /// The badges of the worker `id` that `ids` name.
    pub open spec fn badges_named(self, id: Seq<char>, ids: Seq<Symbol>) -> Seq<Badge> {
        ids.filter(|b: Symbol| self.badges.contains_key((id, b@))).map_values(
            |b: Symbol| self.badges[(id, b@)],
        )
    }
}

/// Where every one of `ids` is the id of a badge of the worker `id`, all of them are named.
pub(super) proof fn lemma_all_named(s: RegistryState, id: Seq<char>, ids: Seq<Symbol>)
    requires
        forall|i: int| 0 <= i < ids.len() ==> s.badges.contains_key((id, (#[trigger] ids[i])@)),
    ensures
        s.badges_named(id, ids).len() == ids.len(),
        forall|i: int|
            0 <= i < ids.len() ==> #[trigger] s.badges_named(id, ids)[i] == s.badges[(
                id,
                ids[i]@,
            )],
    decreases ids.len(),
{
    reveal(Seq::filter);
    if ids.len() > 0 {
        let before = ids.drop_last();
        assert forall|i: int| 0 <= i < before.len() implies s.badges.contains_key(
            (id, (#[trigger] before[i])@),
        ) by {
            assert(before[i] == ids[i]);
        }
        lemma_all_named(s, id, before);
        assert(s.badges.contains_key((id, ids[ids.len() - 1]@)));
        assert(s.badges_named(id, ids) =~= s.badges_named(id, before).push(
            s.badges[(id, ids.last()@)],
        ));
    }
}

impl RegistryContract {
    /// Award a badge to a worker. The caller must hold the admin's role or be a curator.
    pub fn award_badge(
        &mut self,
        env: &mut Env<DataKey>,
        issuer: Address,
        worker_id: Symbol,
        badge_id: Symbol,
        name: String,
        expires_at: u64,
    ) -> (r: Result<(), ContractError>)
        requires
            old(self)@.wf(),
        ensures
            final(self)@.wf(),
            r == old(self)@.verdict(
                (laws::Op::AwardBadge { issuer, id: worker_id, badge_id, name, expires_at }),
                old(env).timestamp,
                old(env).sequence,
            ),
            final(self)@ == old(self)@.after(
                (laws::Op::AwardBadge { issuer, id: worker_id, badge_id, name, expires_at }),
                old(env).timestamp,
                old(env).sequence,
            ),
            r == old(self)@.award_verdict(issuer@, worker_id@),
            r is Err ==> final(self)@ == old(self)@ && final(env).did(
                *old(env),
                seq![Call::RequireAuth(issuer)],
            ),
            r is Ok ==> {
                let ids = old(self)@.badge_ids(worker_id@);
                &&& final(self)@ == old(self)@.awarded(
                    worker_id@,
                    Badge {
                        id: badge_id,
                        name,
                        issuer,
                        awarded_at: old(env).timestamp,
                        expires_at,
                        active: true,
                    },
                )
                &&& final(env).did(
                    *old(env),
                    seq![
                        Call::RequireAuth(issuer),
                        Call::Write(DataKey::Badge(worker_id, badge_id)),
                    ] + (if holds(ids, badge_id@) {
                        seq![]
                    } else {
                        seq![Call::Write(DataKey::WorkerBadges(worker_id))]
                    }) + seq![
                        Call::Publish {
                            topics: Topics::Three(
                                "BdgAwd",
                                Val::Symbol(worker_id),
                                Val::Symbol(badge_id),
                            ),
                            data: Data::Two(Val::Address(issuer), Val::Text(name)),
                        },
                    ],
                )
            },
    {
        env.require_auth(&issuer);
        roles::require_not_paused(self.paused)?;
        if !roles::has_role(&self.roles, ROLE_ADMIN_ID, &issuer) && !list::contains(
            &self.curators,
            &issuer,
        ) {
            return Err(ContractError::NotAuthorized);
        }
        if !self.workers.has(&worker_id) {
            return Err(ContractError::WorkerNotFound);
        }
        let badge = Badge {
            id: badge_id.clone(),
            name: name.clone(),
            issuer: issuer.clone(),
            awarded_at: env.timestamp,
            expires_at,
            active: true,
        };
        self.badges.set(Pair { first: worker_id.clone(), second: badge_id.clone() }, badge);
        env.write(DataKey::Badge(worker_id.clone(), badge_id.clone()));
        let mut ids = match self.worker_badges.get(&worker_id) {
            Some(ids) => list::copy(ids),
            None => Vec::new(),
        };
        if list::insert(&mut ids, badge_id.clone()) {
            self.worker_badges.set(worker_id.clone(), ids);
            env.write(DataKey::WorkerBadges(worker_id.clone()));
        }
        env.publish(
            Topics::Three("BdgAwd", Val::Symbol(worker_id), Val::Symbol(badge_id)),
            Data::Two(Val::Address(issuer), Val::Text(name)),
        );
        Ok(())
    }

    /// Revoke a badge of a worker. The caller must hold the admin's role or have awarded it.
    pub fn revoke_badge(
        &mut self,
        env: &mut Env<DataKey>,
        caller: Address,
        worker_id: Symbol,
        badge_id: Symbol,
    ) -> (r: Result<(), ContractError>)
        requires
            old(self)@.wf(),
        ensures
            final(self)@.wf(),
            r == old(self)@.verdict(
                (laws::Op::RevokeBadge { caller, id: worker_id, badge_id }),
                old(env).timestamp,
                old(env).sequence,
            ),
            final(self)@ == old(self)@.after(
                (laws::Op::RevokeBadge { caller, id: worker_id, badge_id }),
                old(env).timestamp,
                old(env).sequence,
            ),
            r == old(self)@.revoke_badge_verdict(caller@, (worker_id@, badge_id@)),
            r is Err ==> final(self)@ == old(self)@ && final(env).did(
                *old(env),
                seq![Call::RequireAuth(caller)],
            ),
            r is Ok ==> {
                let key = (worker_id@, badge_id@);
                &&& final(self)@ == old(self)@.badge_revoked(key)
                &&& final(env).did(
                    *old(env),
                    seq![
                        Call::RequireAuth(caller),
                        Call::Write(DataKey::Badge(worker_id, badge_id)),
                        Call::Publish {
                            topics: Topics::Three(
                                "BdgRvk",
                                Val::Symbol(worker_id),
                                Val::Symbol(badge_id),
                            ),
                            data: Data::One(Val::Address(caller)),
                        },
                    ],
                )
            },
    {
        env.require_auth(&caller);
        roles::require_not_paused(self.paused)?;
        let is_admin = roles::has_role(&self.roles, ROLE_ADMIN_ID, &caller);
        let key = Pair { first: worker_id.clone(), second: badge_id.clone() };
        match self.badges.get_mut(&key) {
            None => Err(ContractError::BadgeNotFound),
            Some(badge) => {
                if !is_admin && !badge.issuer.same(&caller) {
                    return Err(ContractError::NotAuthorized);
                }
                badge.active = false;
                env.write(DataKey::Badge(worker_id.clone(), badge_id.clone()));
                env.publish(
                    Topics::Three("BdgRvk", Val::Symbol(worker_id), Val::Symbol(badge_id)),
                    Data::One(Val::Address(caller)),
                );
                Ok(())
            },
        }
    }

    /// Whether a worker has a badge that was not revoked and has not expired.
    pub fn verify_badge(&self, env: &Env<DataKey>, worker_id: Symbol, badge_id: Symbol) -> (r:
        Result<bool, ContractError>)
        ensures
            r == Ok::<bool, ContractError>(
                self@.badges.contains_key((worker_id@, badge_id@)) && self@.badges[(
                    worker_id@,
                    badge_id@,
                )].valid(env.timestamp),
            ),
    {
        match self.badges.get(&Pair { first: worker_id, second: badge_id }) {
            Some(badge) => Ok(
                badge.active && (badge.expires_at == 0 || badge.expires_at > env.timestamp),
            ),
            None => Ok(false),
        }
    }

    /// The badges of a worker, in the order in which they were first awarded.
    pub fn get_worker_badges(&self, worker_id: Symbol) -> (r: Result<Vec<Badge>, ContractError>)
        ensures
            r is Ok,
            r->Ok_0@ == self@.badges_named(worker_id@, self@.badge_ids(worker_id@)),
    {
        let mut badges: Vec<Badge> = Vec::new();
        let ids: Vec<Symbol> = match self.worker_badges.get(&worker_id) {
            Some(ids) => list::copy(ids),
            None => Vec::new(),
        };
        let mut i: usize = 0;
        assert(self@.badges_named(worker_id@, ids@.take(0)) =~= Seq::<Badge>::empty()) by {
            reveal(Seq::filter);
        }
        while i < ids.len()
            invariant
                i <= ids.len(),
                badges@ == self@.badges_named(worker_id@, ids@.take(i as int)),
            decreases ids.len() - i,
        {
            proof {
                assert(ids@.take(i + 1).drop_last() =~= ids@.take(i as int));
                reveal(Seq::filter);
            }
            let key = Pair { first: worker_id.clone(), second: ids[i].clone() };
            match self.badges.get(&key) {
                Some(badge) => {
                    badges.push(badge.clone());
                },
                None => {},
            }
            i += 1;
            assert(badges@ =~= self@.badges_named(worker_id@, ids@.take(i as int)));
        }
        assert(ids@.take(i as int) =~= ids@);
        Ok(badges)
    }

    /// A badge of a worker.
    pub fn get_badge(&self, worker_id: Symbol, badge_id: Symbol) -> (r: Result<
        Option<Badge>,
        ContractError,
    >)
        ensures
            r == Ok::<Option<Badge>, ContractError>(at(self@.badges, (worker_id@, badge_id@))),
    {
        match self.badges.get(&Pair { first: worker_id, second: badge_id }) {
            Some(badge) => Ok(Some(badge.clone())),
            None => Ok(None),
        }
    }
}

} // verus!

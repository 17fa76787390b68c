//! What others vouch for: categories, locations, levels and skills; and availability.

use vstd::prelude::*;

use super::laws;
use super::{
    at, list_at, AvailabilityStatus, CategoryVerification, CertifiedSkill, DataKey,
    LocationVerification, RegistryContract, RegistryState, VerificationLevel, WorkerView,
    ROLE_CURATOR_MGR_ID,
};
use crate::error::ContractError;
use crate::host::{Call, Data, Env, Topics, Val};
use crate::list;
use crate::list::{holds, with};
use crate::roles;
use crate::roles::{both, pause_verdict, refuse_if};
use crate::values::{Address, Key, Pair, Symbol};

verus! {

/// Whether `skill` is among `skills`.
pub open spec fn has_skill(skills: Seq<CertifiedSkill>, skill: Seq<char>) -> bool {
    exists|i: int| 0 <= i < skills.len() && #[trigger] skills[i].skill@ == skill
}

/// `skills` with `entry`: in place of what certifies the same skill, else at the end.
pub open spec fn with_skill(skills: Seq<CertifiedSkill>, entry: CertifiedSkill) -> Seq<
    CertifiedSkill,
> {
    if has_skill(skills, entry.skill@) {
        replaced(skills, entry)
    } else {
        skills.push(entry)
    }
}

/// `skills` with `entry` in place of whatever certifies the same skill.
pub open spec fn replaced(skills: Seq<CertifiedSkill>, entry: CertifiedSkill) -> Seq<
    CertifiedSkill,
> {
    skills.map_values(
        |s: CertifiedSkill|
            if s.skill@ == entry.skill@ {
                entry
            } else {
                s
            },
    )
}

/// `skills` without `skill`.
pub open spec fn without_skill(skills: Seq<CertifiedSkill>, skill: Seq<char>) -> Seq<
    CertifiedSkill,
> {
    skills.filter(|s: CertifiedSkill| s.skill@ != skill)
}

impl RegistryState {
    /// What `verify_category` answers.
    pub open spec fn verify_category_verdict(self, curator: Seq<char>, id: Seq<char>) -> Result<
        (),
        ContractError,
    > {
        both(
            pause_verdict(self.paused),
            both(
                refuse_if(!self.is_curator(curator), ContractError::CallerIsNotCurator),
                self.worker_verdict(id),
            ),
        )
    }

    /// What `verify_location` answers.
    pub open spec fn verify_location_verdict(self, id: Seq<char>) -> Result<(), ContractError> {
        both(pause_verdict(self.paused), self.worker_verdict(id))
    }

    /// What an entry point answers that vouches for the worker `id`, to a caller who manages
    /// curators.
    pub open spec fn vouch_verdict(self, caller: Seq<char>, id: Seq<char>) -> Result<
        (),
        ContractError,
    > {
        both(self.managed(ROLE_CURATOR_MGR_ID, caller), self.worker_verdict(id))
    }

    /// What `revoke_certified_skill` answers.
    pub open spec fn revoke_skill_verdict(
        self,
        caller: Seq<char>,
        id: Seq<char>,
        skill: Seq<char>,
    ) -> Result<(), ContractError> {
        both(
            self.managed(ROLE_CURATOR_MGR_ID, caller),
            refuse_if(!has_skill(self.skills_of(id), skill), ContractError::SkillNotFound),
        )
    }

    /// The state in which a category of the worker `id` is verified.
    pub open spec fn category_verified(
        self,
        id: Seq<char>,
        v: CategoryVerification,
    ) -> RegistryState {
        let w = self.workers[id];
        RegistryState {
            category_verifications: self.category_verifications.insert((id, v.category@), v),
            workers: self.workers.insert(
                id,
                WorkerView {
                    verified_categories: with(w.verified_categories, v.category),
                    ..w
                },
            ),
            ..self
        }
    }

    /// The state in which the location of the worker `id` is verified.
    pub open spec fn location_verified(
        self,
        id: Seq<char>,
        v: LocationVerification,
    ) -> RegistryState {
        RegistryState { location_verifications: self.location_verifications.insert(id, v), ..self }
    }

    /// The state in which the availability of the worker `id` is `status`.
    pub open spec fn with_availability(
        self,
        id: Seq<char>,
        status: AvailabilityStatus,
    ) -> RegistryState {
        RegistryState { availability: self.availability.insert(id, status), ..self }
    }

    /// The state in which the worker `id` is verified as far as `level`.
    pub open spec fn with_level(self, id: Seq<char>, level: VerificationLevel) -> RegistryState {
        RegistryState { verification_levels: self.verification_levels.insert(id, level), ..self }
    }

    /// The state in which the worker `id` has the certified skills `skills`.
    pub open spec fn with_skills(self, id: Seq<char>, skills: Seq<CertifiedSkill>) -> RegistryState {
        RegistryState { certified_skills: self.certified_skills.insert(id, skills), ..self }
    }

    /// The certified skills of the worker `id`.
    pub open spec fn skills_of(self, id: Seq<char>) -> Seq<CertifiedSkill> {
        list_at(self.certified_skills, id)
    }

    /// How far the worker `id` has been verified.
    pub open spec fn level_of(self, id: Seq<char>) -> VerificationLevel {
        if self.verification_levels.contains_key(id) {
            self.verification_levels[id]
        } else {
            VerificationLevel::Unverified
        }
    }
}

/// Put `entry` in place of what certifies the same skill, else at the end.
fn put_skill(skills: &mut Vec<CertifiedSkill>, entry: CertifiedSkill)
    ensures
        final(skills)@ == with_skill(old(skills)@, entry),
{
    let mut updated: Vec<CertifiedSkill> = Vec::new();
    let mut found = false;
    let mut i: usize = 0;
    while i < skills.len()
        invariant
            i <= skills.len(),
            skills@ == old(skills)@,
            updated@ == replaced(skills@.take(i as int), entry),
            found == exists|j: int| 0 <= j < i && #[trigger] skills@[j].skill@ == entry.skill@,
        decreases skills.len() - i,
    {
        if skills[i].skill.same(&entry.skill) {
            assert(skills@[i as int].skill@ == entry.skill@);
            updated.push(entry.clone());
            found = true;
        } else {
            updated.push(skills[i].clone());
        }
        i += 1;
        assert(updated@ =~= replaced(skills@.take(i as int), entry));
    }
    assert(skills@.take(i as int) =~= skills@);
    assert(!found ==> updated@ =~= skills@);
    if !found {
        updated.push(entry);
    }
    *skills = updated;
}

/// Take `skill` out of `skills`; whether it was there.
fn drop_skill(skills: &mut Vec<CertifiedSkill>, skill: &Symbol) -> (found: bool)
    ensures
        final(skills)@ == without_skill(old(skills)@, skill@),
        found == has_skill(old(skills)@, skill@),
{
    let mut kept: Vec<CertifiedSkill> = Vec::new();
    let mut found = false;
    let mut i: usize = 0;
    assert(without_skill(skills@.take(0), skill@) =~= Seq::<CertifiedSkill>::empty()) by {
        reveal(Seq::filter);
    }
    while i < skills.len()
        invariant
            i <= skills.len(),
            skills@ == old(skills)@,
            kept@ == without_skill(skills@.take(i as int), skill@),
            found == exists|j: int| 0 <= j < i && #[trigger] skills@[j].skill@ == skill@,
        decreases skills.len() - i,
    {
        proof {
            assert(skills@.take(i + 1).drop_last() =~= skills@.take(i as int));
            reveal(Seq::filter);
        }
        if skills[i].skill.same(skill) {
            assert(skills@[i as int].skill@ == skill@);
            found = true;
        } else {
            kept.push(skills[i].clone());
        }
        i += 1;
    }
    assert(skills@.take(i as int) =~= skills@);
    *skills = kept;
    found
}

impl RegistryContract {
    /// Vouch for a worker's category. The caller must be a curator.
    pub fn verify_category(
        &mut self,
        env: &mut Env<DataKey>,
        curator: Address,
        worker_id: Symbol,
        category: Symbol,
        expires_at: u64,
    ) -> (r: Result<(), ContractError>)
        requires
            old(self)@.wf(),
        ensures
            final(self)@.wf(),
            r == old(self)@.verdict(
                (laws::Op::VerifyCategory { curator, id: worker_id, category, expires_at }),
                old(env).timestamp,
                old(env).sequence,
            ),
            final(self)@ == old(self)@.after(
                (laws::Op::VerifyCategory { curator, id: worker_id, category, expires_at }),
                old(env).timestamp,
                old(env).sequence,
            ),
            r == old(self)@.verify_category_verdict(curator@, worker_id@),
            r is Err ==> final(self)@ == old(self)@ && final(env).did(
                *old(env),
                seq![Call::RequireAuth(curator)],
            ),
            r is Ok ==> {
                let w = old(self)@.workers[worker_id@];
                &&& final(self)@ == old(self)@.category_verified(
                    worker_id@,
                    CategoryVerification { category, curator, expires_at },
                )
                &&& final(env).did(
                    *old(env),
                    seq![Call::RequireAuth(curator)] + (if holds(
                        w.verified_categories,
                        category@,
                    ) {
                        seq![]
                    } else {
                        seq![Call::Write(DataKey::Worker(worker_id))]
                    }) + seq![
                        Call::Write(DataKey::CategoryVerification(worker_id, category)),
                        Call::Publish {
                            topics: Topics::Three(
                                "CatVfy",
                                Val::Symbol(worker_id),
                                Val::Symbol(category),
                            ),
                            data: Data::Two(Val::Address(curator), Val::U64(expires_at)),
                        },
                    ],
                )
            },
    {
        env.require_auth(&curator);
        roles::require_not_paused(self.paused)?;
        if !list::contains(&self.curators, &curator) {
            return Err(ContractError::CallerIsNotCurator);
        }
        match self.workers.get_mut(&worker_id) {
            None => return Err(ContractError::WorkerNotFound),
            Some(worker) => {
                if list::insert(&mut worker.verified_categories, category.clone()) {
                    env.write(DataKey::Worker(worker_id.clone()));
                }
            },
        }
        let verification = CategoryVerification {
            category: category.clone(),
            curator: curator.clone(),
            expires_at,
        };
        self.category_verifications.set(
            Pair { first: worker_id.clone(), second: category.clone() },
            verification,
        );
        env.write(DataKey::CategoryVerification(worker_id.clone(), category.clone()));
        env.publish(
            Topics::Three("CatVfy", Val::Symbol(worker_id), Val::Symbol(category)),
            Data::Two(Val::Address(curator), Val::U64(expires_at)),
        );
        Ok(())
    }

    /// The verification of a worker's category.
    pub fn get_category_verification(&self, worker_id: Symbol, category: Symbol) -> (r: Result<
        Option<CategoryVerification>,
        ContractError,
    >)
        ensures
            r == Ok::<Option<CategoryVerification>, ContractError>(
                at(self@.category_verifications, (worker_id@, category@)),
            ),
    {
        match self.category_verifications.get(&Pair { first: worker_id, second: category }) {
            Some(verification) => Ok(Some(verification.clone())),
            None => Ok(None),
        }
    }

    /// Vouch for a worker's location. Anyone may call.
    pub fn verify_location(
        &mut self,
        env: &mut Env<DataKey>,
        verifier: Address,
        worker_id: Symbol,
        expires_at: u64,
    ) -> (r: Result<(), ContractError>)
        requires
            old(self)@.wf(),
        ensures
            final(self)@.wf(),
            r == old(self)@.verdict(
                (laws::Op::VerifyLocation { verifier, id: worker_id, expires_at }),
                old(env).timestamp,
                old(env).sequence,
            ),
            final(self)@ == old(self)@.after(
                (laws::Op::VerifyLocation { verifier, id: worker_id, expires_at }),
                old(env).timestamp,
                old(env).sequence,
            ),
            r == old(self)@.verify_location_verdict(worker_id@),
            r is Err ==> final(self)@ == old(self)@ && final(env).did(
                *old(env),
                seq![Call::RequireAuth(verifier)],
            ),
            r is Ok ==> {
                let now = old(env).timestamp;
                &&& final(self)@ == old(self)@.location_verified(
                    worker_id@,
                    LocationVerification { verifier, verified_at: now, expires_at },
                )
                &&& final(env).did(
                    *old(env),
                    seq![
                        Call::RequireAuth(verifier),
                        Call::Write(DataKey::LocationVerification(worker_id)),
                        Call::Publish {
                            topics: Topics::Two("LocVfy", Val::Symbol(worker_id)),
                            data: Data::Three(
                                Val::Address(verifier),
                                Val::U64(now),
                                Val::U64(expires_at),
                            ),
                        },
                    ],
                )
            },
    {
        env.require_auth(&verifier);
        roles::require_not_paused(self.paused)?;
        if !self.workers.has(&worker_id) {
            return Err(ContractError::WorkerNotFound);
        }
        let now: u64 = env.timestamp;
        let verification = LocationVerification {
            verifier: verifier.clone(),
            verified_at: now,
            expires_at,
        };
        self.location_verifications.set(worker_id.clone(), verification);
        env.write(DataKey::LocationVerification(worker_id.clone()));
        env.publish(
            Topics::Two("LocVfy", Val::Symbol(worker_id)),
            Data::Three(Val::Address(verifier), Val::U64(now), Val::U64(expires_at)),
        );
        Ok(())
    }

    /// The verification of a worker's location.
    pub fn get_location_verification(&self, worker_id: Symbol) -> (r: Result<
        Option<LocationVerification>,
        ContractError,
    >)
        ensures
            r == Ok::<Option<LocationVerification>, ContractError>(
                at(self@.location_verifications, worker_id@),
            ),
    {
        match self.location_verifications.get(&worker_id) {
            Some(verification) => Ok(Some(verification.clone())),
            None => Ok(None),
        }
    }

    /// Say whether a worker can be hired. Only the owner may call.
    pub fn update_availability(
        &mut self,
        env: &mut Env<DataKey>,
        id: Symbol,
        caller: Address,
        is_available: bool,
        expires_at: u64,
    ) -> (r: Result<(), ContractError>)
        requires
            old(self)@.wf(),
        ensures
            final(self)@.wf(),
            r == old(self)@.verdict(
                (laws::Op::UpdateAvailability { id, caller, is_available, expires_at }),
                old(env).timestamp,
                old(env).sequence,
            ),
            final(self)@ == old(self)@.after(
                (laws::Op::UpdateAvailability { id, caller, is_available, expires_at }),
                old(env).timestamp,
                old(env).sequence,
            ),
            r == old(self)@.owner_unpaused(id@, caller@),
            r is Err ==> final(self)@ == old(self)@ && final(env).did(
                *old(env),
                seq![Call::RequireAuth(caller)],
            ),
            r is Ok ==> {
                let now = old(env).timestamp;
                &&& final(self)@ == old(self)@.with_availability(
                    id@,
                    AvailabilityStatus { is_available, updated_at: now, expires_at },
                )
                &&& final(env).did(
                    *old(env),
                    seq![
                        Call::RequireAuth(caller),
                        Call::Write(DataKey::AvailabilityStatus(id)),
                        Call::Publish {
                            topics: Topics::Two("AvlUpd", Val::Symbol(id)),
                            data: Data::Three(
                                Val::Bool(is_available),
                                Val::U64(now),
                                Val::U64(expires_at),
                            ),
                        },
                    ],
                )
            },
    {
        env.require_auth(&caller);
        roles::require_not_paused(self.paused)?;
        self.require_owner(&id, &caller)?;
        let now: u64 = env.timestamp;
        let status = AvailabilityStatus { is_available, updated_at: now, expires_at };
        self.availability.set(id.clone(), status);
        env.write(DataKey::AvailabilityStatus(id.clone()));
        env.publish(
            Topics::Two("AvlUpd", Val::Symbol(id)),
            Data::Three(Val::Bool(is_available), Val::U64(now), Val::U64(expires_at)),
        );
        Ok(())
    }

    /// Whether a worker can be hired, as last said.
    pub fn get_availability(&self, worker_id: Symbol) -> (r: Result<
        Option<AvailabilityStatus>,
        ContractError,
    >)
        ensures
            r == Ok::<Option<AvailabilityStatus>, ContractError>(
                at(self@.availability, worker_id@),
            ),
    {
        match self.availability.get(&worker_id) {
            Some(status) => Ok(Some(status.clone())),
            None => Ok(None),
        }
    }

    /// Set how far a worker has been verified. The caller must hold the curator manager's role.
    pub fn set_verification_level(
        &mut self,
        env: &mut Env<DataKey>,
        caller: Address,
        worker_id: Symbol,
        level: VerificationLevel,
    ) -> (r: Result<(), ContractError>)
        requires
            old(self)@.wf(),
        ensures
            final(self)@.wf(),
            r == old(self)@.verdict(
                (laws::Op::SetLevel { caller, id: worker_id, level }),
                old(env).timestamp,
                old(env).sequence,
            ),
            final(self)@ == old(self)@.after(
                (laws::Op::SetLevel { caller, id: worker_id, level }),
                old(env).timestamp,
                old(env).sequence,
            ),
            r == old(self)@.vouch_verdict(caller@, worker_id@),
            r is Err ==> final(self)@ == old(self)@ && final(env).did(
                *old(env),
                seq![Call::RequireAuth(caller)],
            ),
            r is Ok ==> {
                &&& final(self)@ == old(self)@.with_level(worker_id@, level)
                &&& final(env).did(
                    *old(env),
                    seq![
                        Call::RequireAuth(caller),
                        Call::Write(DataKey::VerificationLevel(worker_id)),
                        Call::Publish {
                            topics: Topics::Two("VrfLvlSet", Val::Symbol(worker_id)),
                            data: Data::Two(Val::Address(caller), Val::U32(level.number())),
                        },
                    ],
                )
            },
    {
        roles::require_role(env, &self.roles, ROLE_CURATOR_MGR_ID, &caller)?;
        roles::require_not_paused(self.paused)?;
        if !self.workers.has(&worker_id) {
            return Err(ContractError::WorkerNotFound);
        }
        self.verification_levels.set(worker_id.clone(), level);
        env.write(DataKey::VerificationLevel(worker_id.clone()));
        env.publish(
            Topics::Two("VrfLvlSet", Val::Symbol(worker_id)),
            Data::Two(Val::Address(caller), Val::U32(level.to_number())),
        );
        Ok(())
    }

    /// How far a worker has been verified.
    pub fn get_verification_level(&self, worker_id: Symbol) -> (r: Result<
        VerificationLevel,
        ContractError,
    >)
        ensures
            r == Ok::<VerificationLevel, ContractError>(self@.level_of(worker_id@)),
    {
        match self.verification_levels.get(&worker_id) {
            Some(level) => Ok(*level),
            None => Ok(VerificationLevel::Unverified),
        }
    }

    /// Certify a skill of a worker, or certify it anew. The caller must hold the curator
    /// manager's role.
    pub fn add_certified_skill(
        &mut self,
        env: &mut Env<DataKey>,
        caller: Address,
        worker_id: Symbol,
        skill: Symbol,
        expires_at: u64,
    ) -> (r: Result<(), ContractError>)
        requires
            old(self)@.wf(),
        ensures
            final(self)@.wf(),
            r == old(self)@.verdict(
                (laws::Op::AddSkill { caller, id: worker_id, skill, expires_at }),
                old(env).timestamp,
                old(env).sequence,
            ),
            final(self)@ == old(self)@.after(
                (laws::Op::AddSkill { caller, id: worker_id, skill, expires_at }),
                old(env).timestamp,
                old(env).sequence,
            ),
            r == old(self)@.vouch_verdict(caller@, worker_id@),
            r is Err ==> final(self)@ == old(self)@ && final(env).did(
                *old(env),
                seq![Call::RequireAuth(caller)],
            ),
            r is Ok ==> {
                &&& final(self)@ == old(self)@.with_skills(
                    worker_id@,
                    with_skill(
                        old(self)@.skills_of(worker_id@),
                        CertifiedSkill {
                            skill,
                            certified_by: caller,
                            certified_at: old(env).timestamp,
                            expires_at,
                        },
                    ),
                )
                &&& final(env).did(
                    *old(env),
                    seq![
                        Call::RequireAuth(caller),
                        Call::Write(DataKey::CertifiedSkills(worker_id)),
                        Call::Publish {
                            topics: Topics::Three(
                                "SkillCert",
                                Val::Symbol(worker_id),
                                Val::Symbol(skill),
                            ),
                            data: Data::Two(Val::Address(caller), Val::U64(expires_at)),
                        },
                    ],
                )
            },
    {
        roles::require_role(env, &self.roles, ROLE_CURATOR_MGR_ID, &caller)?;
        roles::require_not_paused(self.paused)?;
        if !self.workers.has(&worker_id) {
            return Err(ContractError::WorkerNotFound);
        }
        let entry = CertifiedSkill {
            skill: skill.clone(),
            certified_by: caller.clone(),
            certified_at: env.timestamp,
            expires_at,
        };
        let mut skills = self.skills_list(&worker_id);
        put_skill(&mut skills, entry);
        self.certified_skills.set(worker_id.clone(), skills);
        env.write(DataKey::CertifiedSkills(worker_id.clone()));
        env.publish(
            Topics::Three("SkillCert", Val::Symbol(worker_id), Val::Symbol(skill)),
            Data::Two(Val::Address(caller), Val::U64(expires_at)),
        );
        Ok(())
    }

    /// Withdraw the certificate of a skill. The caller must hold the curator manager's role.
    pub fn revoke_certified_skill(
        &mut self,
        env: &mut Env<DataKey>,
        caller: Address,
        worker_id: Symbol,
        skill: Symbol,
    ) -> (r: Result<(), ContractError>)
        requires
            old(self)@.wf(),
        ensures
            final(self)@.wf(),
            r == old(self)@.verdict(
                (laws::Op::RevokeSkill { caller, id: worker_id, skill }),
                old(env).timestamp,
                old(env).sequence,
            ),
            final(self)@ == old(self)@.after(
                (laws::Op::RevokeSkill { caller, id: worker_id, skill }),
                old(env).timestamp,
                old(env).sequence,
            ),
            r == old(self)@.revoke_skill_verdict(caller@, worker_id@, skill@),
            r is Err ==> final(self)@ == old(self)@ && final(env).did(
                *old(env),
                seq![Call::RequireAuth(caller)],
            ),
            r is Ok ==> {
                &&& final(self)@ == old(self)@.with_skills(
                    worker_id@,
                    without_skill(old(self)@.skills_of(worker_id@), skill@),
                )
                &&& final(env).did(
                    *old(env),
                    seq![
                        Call::RequireAuth(caller),
                        Call::Write(DataKey::CertifiedSkills(worker_id)),
                        Call::Publish {
                            topics: Topics::Three(
                                "SkillRvkd",
                                Val::Symbol(worker_id),
                                Val::Symbol(skill),
                            ),
                            data: Data::One(Val::Address(caller)),
                        },
                    ],
                )
            },
    {
        roles::require_role(env, &self.roles, ROLE_CURATOR_MGR_ID, &caller)?;
        roles::require_not_paused(self.paused)?;
        let mut skills = self.skills_list(&worker_id);
        if !drop_skill(&mut skills, &skill) {
            return Err(ContractError::SkillNotFound);
        }
        self.certified_skills.set(worker_id.clone(), skills);
        env.write(DataKey::CertifiedSkills(worker_id.clone()));
        env.publish(
            Topics::Three("SkillRvkd", Val::Symbol(worker_id), Val::Symbol(skill)),
            Data::One(Val::Address(caller)),
        );
        Ok(())
    }

    /// The certified skills of a worker.
    pub fn get_certified_skills(&self, worker_id: Symbol) -> (r: Result<
        Vec<CertifiedSkill>,
        ContractError,
    >)
        ensures
            r is Ok,
            r->Ok_0@ == self@.skills_of(worker_id@),
    {
        Ok(self.skills_list(&worker_id))
    }

    /// The certified skills of the worker `id`.
    fn skills_list(&self, id: &Symbol) -> (r: Vec<CertifiedSkill>)
        ensures
            r@ == self@.skills_of(id@),
    {
        match self.certified_skills.get(id) {
            Some(skills) => list::copy(skills),
            None => Vec::new(),
        }
    }
}

} // verus!

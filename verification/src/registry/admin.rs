//! Roles, pausing, curators, categories and upgrades of the registry contract.

use vstd::prelude::*;

use super::laws;
use super::{
    role_id, role_to_id, DataKey, PendingUpgrade, RegistryContract, RegistryState, ROLE_ADMIN,
    ROLE_ADMIN_ID, ROLE_CURATOR_MGR_ID, ROLE_PAUSER_ID, ROLE_UPGRADER_ID, VERSION,
};
use crate::error::ContractError;
use crate::host::{Call, Data, Env, Topics, Val};
use crate::list;
use crate::list::{holds, with, without};
use crate::roles;
use crate::roles::{both, is_member, members, pause_verdict, refuse_if, role_verdict};
use crate::values::{Address, Hash32, Symbol};

verus! {

impl RegistryState {
    /// What `initialize` answers.
    pub open spec fn initialize_verdict(self) -> Result<(), ContractError> {
        refuse_if(self.admin is Some, ContractError::AlreadyInitialized)
    }

    /// The state once the admin was set.
    pub open spec fn initialized(self, admin: Address) -> RegistryState {
        RegistryState {
            admin: Some(admin),
            schema_version: Some(1),
            roles: self.roles.insert(ROLE_ADMIN_ID, seq![admin]),
            ..self
        }
    }

    /// The state in which `account` holds `role`.
    pub open spec fn granted(self, role: Seq<char>, account: Address) -> RegistryState {
        let id = role_id(role);
        RegistryState {
            roles: self.roles.insert(id, with(members(self.roles, id), account)),
            ..self
        }
    }

    /// The state in which `account` does not hold `role`.
    pub open spec fn revoked(self, role: Seq<char>, account: Seq<char>) -> RegistryState {
        let id = role_id(role);
        RegistryState {
            roles: self.roles.insert(id, without(members(self.roles, id), account)),
            ..self
        }
    }

    /// The state in which the contract is or is not paused.
    pub open spec fn with_paused(self, paused: bool) -> RegistryState {
        RegistryState { paused, ..self }
    }

    /// The state in which `new_admin` has the admin's place, and holds the role in the place of
    /// who had it.
    pub open spec fn with_admin(self, new_admin: Address) -> RegistryState {
        RegistryState {
            admin: Some(new_admin),
            roles: self.roles.insert(
                ROLE_ADMIN_ID,
                with(without(members(self.roles, ROLE_ADMIN_ID), self.admin->0@), new_admin),
            ),
            ..self
        }
    }

    /// The state in which `curator` is a curator.
    pub open spec fn with_curator(self, curator: Address) -> RegistryState {
        RegistryState { curators: with(self.curators, curator), ..self }
    }

    /// The state in which `curator` is no curator.
    pub open spec fn without_curator(self, curator: Seq<char>) -> RegistryState {
        RegistryState { curators: without(self.curators, curator), ..self }
    }

    /// The state in which the category `name` is allowed.
    pub open spec fn with_category(self, name: Symbol) -> RegistryState {
        RegistryState { categories: with(self.categories, name), ..self }
    }

    /// The state in which the category `name` is not allowed.
    pub open spec fn without_category(self, name: Seq<char>) -> RegistryState {
        RegistryState { categories: without(self.categories, name), ..self }
    }

    /// The state in which `pending` waits for its timelock.
    pub open spec fn with_pending(self, pending: Option<PendingUpgrade>) -> RegistryState {
        RegistryState { pending_upgrade: pending, ..self }
    }

    /// What `revoke_role` answers.
    pub open spec fn revoke_verdict(
        self,
        caller: Seq<char>,
        role: Seq<char>,
        account: Seq<char>,
    ) -> Result<(), ContractError> {
        both(
            self.managed(ROLE_ADMIN_ID, caller),
            refuse_if(
                !is_member(self.roles, role_id(role), account),
                ContractError::AccountDoesNotHoldRole,
            ),
        )
    }

    /// What `upgrade` answers.
    pub open spec fn upgrade_verdict(self) -> Result<(), ContractError> {
        both(
            self.has_admin(),
            role_verdict(self.roles, ROLE_UPGRADER_ID, self.admin->0@),
        )
    }

    /// What `propose_upgrade` answers.
    pub open spec fn propose_verdict(self, caller: Seq<char>) -> Result<(), ContractError> {
        both(
            self.managed(ROLE_UPGRADER_ID, caller),
            refuse_if(self.pending_upgrade is Some, ContractError::UpgradeAlreadyPending),
        )
    }

    /// What `execute_upgrade` answers in the ledger `sequence`.
    pub open spec fn execute_verdict(self, sequence: u32) -> Result<(), ContractError> {
        both(
            pause_verdict(self.paused),
            both(
                refuse_if(self.pending_upgrade is None, ContractError::NoPendingUpgrade),
                refuse_if(
                    sequence < self.pending_upgrade->0.execute_after_ledger,
                    ContractError::TimelockNotExpired,
                ),
            ),
        )
    }

    /// What `cancel_upgrade` answers.
    pub open spec fn cancel_upgrade_verdict(self, caller: Seq<char>) -> Result<
        (),
        ContractError,
    > {
        both(
            self.managed(ROLE_UPGRADER_ID, caller),
            refuse_if(self.pending_upgrade is None, ContractError::NoPendingUpgrade),
        )
    }
}

impl RegistryContract {
    /// Ledgers that a proposed upgrade waits: about two days.
    pub const TIMELOCK_LEDGERS: u32 = 34_560;

    /// Set the admin, once. The admin becomes the first member of [`ROLE_ADMIN`].
    pub fn initialize(&mut self, env: &mut Env<DataKey>, admin: Address) -> (r: Result<
        (),
        ContractError,
    >)
        requires
            old(self)@.wf(),
        ensures
            final(self)@.wf(),
            r == old(self)@.verdict(
                (laws::Op::Initialize { admin }),
                old(env).timestamp,
                old(env).sequence,
            ),
            final(self)@ == old(self)@.after(
                (laws::Op::Initialize { admin }),
                old(env).timestamp,
                old(env).sequence,
            ),
            r == old(self)@.initialize_verdict(),
            r is Err ==> final(self)@ == old(self)@ && final(env).did(*old(env), seq![]),
            r is Ok ==> {
                &&& final(self)@ == old(self)@.initialized(admin)
                &&& final(env).did(
                    *old(env),
                    seq![
                        Call::Write(DataKey::Admin),
                        Call::Write(DataKey::SchemaVersion),
                        Call::Write(DataKey::RoleMembers(ROLE_ADMIN_ID)),
                        Call::Publish {
                            topics: Topics::Three(
                                "RlGrnt",
                                Val::Name(ROLE_ADMIN),
                                Val::Address(admin),
                            ),
                            data: Data::Unit,
                        },
                    ],
                )
            },
    {
        if self.admin.is_some() {
            return Err(ContractError::AlreadyInitialized);
        }
        self.admin = Some(admin.clone());
        env.write(DataKey::Admin);
        self.schema_version = Some(1);
        env.write(DataKey::SchemaVersion);
        let mut members: Vec<Address> = Vec::new();
        members.push(admin.clone());
        assert(members@ =~= seq![admin]);
        self.roles.set(ROLE_ADMIN_ID, members);
        env.write(DataKey::RoleMembers(ROLE_ADMIN_ID));
        env.publish(
            Topics::Three("RlGrnt", Val::Name(ROLE_ADMIN), Val::Address(admin)),
            Data::Unit,
        );
        Ok(())
    }

    /// Make `account` a member of `role`. The caller must hold [`ROLE_ADMIN`].
    pub fn grant_role(
        &mut self,
        env: &mut Env<DataKey>,
        caller: Address,
        role: Symbol,
        account: Address,
    ) -> (r: Result<(), ContractError>)
        requires
            old(self)@.wf(),
        ensures
            final(self)@.wf(),
            r == old(self)@.verdict(
                (laws::Op::GrantRole { caller, role, account }),
                old(env).timestamp,
                old(env).sequence,
            ),
            final(self)@ == old(self)@.after(
                (laws::Op::GrantRole { caller, role, account }),
                old(env).timestamp,
                old(env).sequence,
            ),
            r == old(self)@.managed(ROLE_ADMIN_ID, caller@),
            r is Err ==> final(self)@ == old(self)@ && final(env).did(
                *old(env),
                seq![Call::RequireAuth(caller)],
            ),
            r is Ok ==> {
                let id = role_id(role@);
                &&& final(self)@ == old(self)@.granted(role@, account)
                &&& final(env).did(
                    *old(env),
                    seq![Call::RequireAuth(caller)] + (if is_member(
                        old(self)@.roles,
                        id,
                        account@,
                    ) {
                        seq![]
                    } else {
                        seq![Call::Write(DataKey::RoleMembers(id))]
                    }) + seq![
                        Call::Publish {
                            topics: Topics::Three(
                                "RlGrnt",
                                Val::Symbol(role),
                                Val::Address(account),
                            ),
                            data: Data::Unit,
                        },
                    ],
                )
            },
    {
        roles::require_role(env, &self.roles, ROLE_ADMIN_ID, &caller)?;
        roles::require_not_paused(self.paused)?;
        let id: u64 = role_to_id(&role);
        let mut members = roles::list_members(&self.roles, id);
        if list::insert(&mut members, account.clone()) {
            self.roles.set(id, members);
            env.write(DataKey::RoleMembers(id));
        }
        env.publish(
            Topics::Three("RlGrnt", Val::Symbol(role), Val::Address(account)),
            Data::Unit,
        );
        Ok(())
    }

    /// Take `account` out of `role`. The caller must hold [`ROLE_ADMIN`].
    pub fn revoke_role(
        &mut self,
        env: &mut Env<DataKey>,
        caller: Address,
        role: Symbol,
        account: Address,
    ) -> (r: Result<(), ContractError>)
        requires
            old(self)@.wf(),
        ensures
            final(self)@.wf(),
            r == old(self)@.verdict(
                (laws::Op::RevokeRole { caller, role, account }),
                old(env).timestamp,
                old(env).sequence,
            ),
            final(self)@ == old(self)@.after(
                (laws::Op::RevokeRole { caller, role, account }),
                old(env).timestamp,
                old(env).sequence,
            ),
            r == old(self)@.revoke_verdict(caller@, role@, account@),
            r is Err ==> final(self)@ == old(self)@ && final(env).did(
                *old(env),
                seq![Call::RequireAuth(caller)],
            ),
            r is Ok ==> {
                let id = role_id(role@);
                &&& final(self)@ == old(self)@.revoked(role@, account@)
                &&& final(env).did(
                    *old(env),
                    seq![
                        Call::RequireAuth(caller),
                        Call::Write(DataKey::RoleMembers(id)),
                        Call::Publish {
                            topics: Topics::Three(
                                "RlRvkd",
                                Val::Symbol(role),
                                Val::Address(account),
                            ),
                            data: Data::Unit,
                        },
                    ],
                )
            },
    {
        roles::require_role(env, &self.roles, ROLE_ADMIN_ID, &caller)?;
        roles::require_not_paused(self.paused)?;
        let id: u64 = role_to_id(&role);
        let mut members = roles::list_members(&self.roles, id);
        if !list::remove_all(&mut members, &account) {
            return Err(ContractError::AccountDoesNotHoldRole);
        }
        self.roles.set(id, members);
        env.write(DataKey::RoleMembers(id));
        env.publish(
            Topics::Three("RlRvkd", Val::Symbol(role), Val::Address(account)),
            Data::Unit,
        );
        Ok(())
    }

    /// Whether `account` holds `role`.
    pub fn has_role(&self, role: Symbol, account: Address) -> (r: Result<bool, ContractError>)
        ensures
            r == Ok::<bool, ContractError>(is_member(self@.roles, role_id(role@), account@)),
    {
        Ok(roles::has_role(&self.roles, role_to_id(&role), &account))
    }

    /// The members of `role`.
    pub fn get_role_members_list(&self, role: Symbol) -> (r: Result<Vec<Address>, ContractError>)
        ensures
            r is Ok,
            r->Ok_0@ == members(self@.roles, role_id(role@)),
    {
        Ok(roles::list_members(&self.roles, role_to_id(&role)))
    }

    /// Pause the contract. The caller must hold the pauser's role.
    pub fn pause(&mut self, env: &mut Env<DataKey>, admin: Address) -> (r: Result<
        (),
        ContractError,
    >)
        requires
            old(self)@.wf(),
        ensures
            final(self)@.wf(),
            r == old(self)@.verdict(
                (laws::Op::Pause { caller: admin }),
                old(env).timestamp,
                old(env).sequence,
            ),
            final(self)@ == old(self)@.after(
                (laws::Op::Pause { caller: admin }),
                old(env).timestamp,
                old(env).sequence,
            ),
            r == role_verdict(old(self)@.roles, ROLE_PAUSER_ID, admin@),
            r is Err ==> final(self)@ == old(self)@ && final(env).did(
                *old(env),
                seq![Call::RequireAuth(admin)],
            ),
            r is Ok ==> {
                &&& final(self)@ == old(self)@.with_paused(true)
                &&& final(env).did(
                    *old(env),
                    seq![
                        Call::RequireAuth(admin),
                        Call::Write(DataKey::Paused),
                        Call::Publish {
                            topics: Topics::Two("Paused", Val::Address(admin)),
                            data: Data::Unit,
                        },
                    ],
                )
            },
    {
        roles::require_role(env, &self.roles, ROLE_PAUSER_ID, &admin)?;
        self.paused = true;
        env.write(DataKey::Paused);
        env.publish(Topics::Two("Paused", Val::Address(admin)), Data::Unit);
        Ok(())
    }

    /// Unpause the contract. The caller must hold the pauser's role.
    pub fn unpause(&mut self, env: &mut Env<DataKey>, admin: Address) -> (r: Result<
        (),
        ContractError,
    >)
        requires
            old(self)@.wf(),
        ensures
            final(self)@.wf(),
            r == old(self)@.verdict(
                (laws::Op::Unpause { caller: admin }),
                old(env).timestamp,
                old(env).sequence,
            ),
            final(self)@ == old(self)@.after(
                (laws::Op::Unpause { caller: admin }),
                old(env).timestamp,
                old(env).sequence,
            ),
            r == role_verdict(old(self)@.roles, ROLE_PAUSER_ID, admin@),
            r is Err ==> final(self)@ == old(self)@ && final(env).did(
                *old(env),
                seq![Call::RequireAuth(admin)],
            ),
            r is Ok ==> {
                &&& final(self)@ == old(self)@.with_paused(false)
                &&& final(env).did(
                    *old(env),
                    seq![
                        Call::RequireAuth(admin),
                        Call::Write(DataKey::Paused),
                        Call::Publish {
                            topics: Topics::Two("Unpaused", Val::Address(admin)),
                            data: Data::Unit,
                        },
                    ],
                )
            },
    {
        roles::require_role(env, &self.roles, ROLE_PAUSER_ID, &admin)?;
        self.paused = false;
        env.write(DataKey::Paused);
        env.publish(Topics::Two("Unpaused", Val::Address(admin)), Data::Unit);
        Ok(())
    }

    /// Whether the contract is paused.
    pub fn is_paused(&self) -> (r: Result<bool, ContractError>)
        ensures
            r == Ok::<bool, ContractError>(self@.paused),
    {
        Ok(self.paused)
    }

    /// The admin address.
    pub fn get_admin(&self) -> (r: Result<Address, ContractError>)
        ensures
            r == (match self@.admin {
                Some(admin) => Ok(admin),
                None => Err(ContractError::NotInitialized),
            }),
    {
        match &self.admin {
            Some(admin) => Ok(admin.clone()),
            None => Err(ContractError::NotInitialized),
        }
    }

    /// Hand the admin's place, and the membership of [`ROLE_ADMIN`] that goes with it, to
    /// `new_admin`.
    pub fn set_admin(&mut self, env: &mut Env<DataKey>, new_admin: Address) -> (r: Result<
        (),
        ContractError,
    >)
        requires
            old(self)@.wf(),
        ensures
            final(self)@.wf(),
            r == old(self)@.verdict(
                (laws::Op::SetAdmin { new_admin }),
                old(env).timestamp,
                old(env).sequence,
            ),
            final(self)@ == old(self)@.after(
                (laws::Op::SetAdmin { new_admin }),
                old(env).timestamp,
                old(env).sequence,
            ),
            r == old(self)@.admin_verdict(),
            r is Err ==> final(self)@ == old(self)@ && final(env).did(
                *old(env),
                old(self)@.admin_auth(),
            ),
            r is Ok ==> {
                let current = old(self)@.admin->0;
                &&& final(self)@ == old(self)@.with_admin(new_admin)
                &&& final(env).did(
                    *old(env),
                    seq![
                        Call::RequireAuth(current),
                        Call::Write(DataKey::Admin),
                        Call::Write(DataKey::RoleMembers(ROLE_ADMIN_ID)),
                    ],
                )
            },
    {
        let current = self.get_admin()?;
        env.require_auth(&current);
        roles::require_not_paused(self.paused)?;
        self.admin = Some(new_admin.clone());
        env.write(DataKey::Admin);
        let mut members = roles::list_members(&self.roles, ROLE_ADMIN_ID);
        list::remove_all(&mut members, &current);
        list::insert(&mut members, new_admin);
        self.roles.set(ROLE_ADMIN_ID, members);
        env.write(DataKey::RoleMembers(ROLE_ADMIN_ID));
        Ok(())
    }

    /// The version of the event schema.
    pub fn version(&self) -> (r: Result<u32, ContractError>)
        ensures
            r == Ok::<u32, ContractError>(VERSION),
    {
        Ok(VERSION)
    }

    /// The version of the storage schema.
    pub fn get_schema_version(&self) -> (r: Result<u32, ContractError>)
        ensures
            r == Ok::<u32, ContractError>(self@.version()),
    {
        match self.schema_version {
            Some(v) => Ok(v),
            None => Ok(1),
        }
    }

    /// Replace the contract's code, which keeps all storage, also while the contract is paused. The
    /// admin must hold the upgrader's role.
    pub fn upgrade(&self, env: &mut Env<DataKey>, new_wasm_hash: Hash32) -> (r: Result<
        (),
        ContractError,
    >)
        ensures
            r == self@.upgrade_verdict(),
            r is Err ==> final(env).did(*old(env), self@.admin_auth()),
            r is Ok ==> final(env).did(
                *old(env),
                seq![Call::RequireAuth(self@.admin->0), Call::UpdateWasm(new_wasm_hash)],
            ),
    {
        let admin = self.get_admin()?;
        roles::require_role(env, &self.roles, ROLE_UPGRADER_ID, &admin)?;
        env.update_wasm(new_wasm_hash);
        Ok(())
    }

    /// Whether an admin has been set.
    pub fn is_initialized(&self) -> (r: Result<bool, ContractError>)
        ensures
            r == Ok::<bool, ContractError>(self@.admin is Some),
    {
        Ok(self.admin.is_some())
    }

    /// Approve a curator. The caller must hold the curator manager's role.
    pub fn add_curator(&mut self, env: &mut Env<DataKey>, admin: Address, curator: Address) -> (r:
        Result<(), ContractError>)
        requires
            old(self)@.wf(),
        ensures
            final(self)@.wf(),
            r == old(self)@.verdict(
                (laws::Op::AddCurator { caller: admin, curator }),
                old(env).timestamp,
                old(env).sequence,
            ),
            final(self)@ == old(self)@.after(
                (laws::Op::AddCurator { caller: admin, curator }),
                old(env).timestamp,
                old(env).sequence,
            ),
            r == old(self)@.managed(ROLE_CURATOR_MGR_ID, admin@),
            r is Err ==> final(self)@ == old(self)@ && final(env).did(
                *old(env),
                seq![Call::RequireAuth(admin)],
            ),
            r is Ok ==> {
                &&& final(self)@ == old(self)@.with_curator(curator)
                &&& final(env).did(
                    *old(env),
                    seq![Call::RequireAuth(admin)] + (if old(self)@.is_curator(curator@) {
                        seq![]
                    } else {
                        seq![Call::Write(DataKey::Curators)]
                    }) + seq![
                        Call::Publish {
                            topics: Topics::Three(
                                "CurAdd",
                                Val::Address(admin),
                                Val::Address(curator),
                            ),
                            data: Data::Unit,
                        },
                    ],
                )
            },
    {
        roles::require_role(env, &self.roles, ROLE_CURATOR_MGR_ID, &admin)?;
        roles::require_not_paused(self.paused)?;
        if list::insert(&mut self.curators, curator.clone()) {
            env.write(DataKey::Curators);
        }
        env.publish(
            Topics::Three("CurAdd", Val::Address(admin), Val::Address(curator)),
            Data::Unit,
        );
        Ok(())
    }

    /// Withdraw the approval of a curator. The caller must hold the curator manager's role.
    pub fn remove_curator(
        &mut self,
        env: &mut Env<DataKey>,
        admin: Address,
        curator: Address,
    ) -> (r: Result<(), ContractError>)
        requires
            old(self)@.wf(),
        ensures
            final(self)@.wf(),
            r == old(self)@.verdict(
                (laws::Op::RemoveCurator { caller: admin, curator }),
                old(env).timestamp,
                old(env).sequence,
            ),
            final(self)@ == old(self)@.after(
                (laws::Op::RemoveCurator { caller: admin, curator }),
                old(env).timestamp,
                old(env).sequence,
            ),
            r == old(self)@.managed(ROLE_CURATOR_MGR_ID, admin@),
            r is Err ==> final(self)@ == old(self)@ && final(env).did(
                *old(env),
                seq![Call::RequireAuth(admin)],
            ),
            r is Ok ==> {
                &&& final(self)@ == old(self)@.without_curator(curator@)
                &&& final(env).did(
                    *old(env),
                    seq![
                        Call::RequireAuth(admin),
                        Call::Write(DataKey::Curators),
                        Call::Publish {
                            topics: Topics::Three(
                                "CurRem",
                                Val::Address(admin),
                                Val::Address(curator),
                            ),
                            data: Data::Unit,
                        },
                    ],
                )
            },
    {
        roles::require_role(env, &self.roles, ROLE_CURATOR_MGR_ID, &admin)?;
        roles::require_not_paused(self.paused)?;
        list::remove_all(&mut self.curators, &curator);
        env.write(DataKey::Curators);
        env.publish(
            Topics::Three("CurRem", Val::Address(admin), Val::Address(curator)),
            Data::Unit,
        );
        Ok(())
    }

    /// Whether `addr` is a curator.
    pub fn is_curator(&self, addr: Address) -> (r: Result<bool, ContractError>)
        ensures
            r == Ok::<bool, ContractError>(self@.is_curator(addr@)),
    {
        Ok(list::contains(&self.curators, &addr))
    }

    /// Allow a category. The caller must hold [`ROLE_ADMIN`].
    pub fn add_category(&mut self, env: &mut Env<DataKey>, admin: Address, name: Symbol) -> (r:
        Result<(), ContractError>)
        requires
            old(self)@.wf(),
        ensures
            final(self)@.wf(),
            r == old(self)@.verdict(
                (laws::Op::AddCategory { caller: admin, category: name }),
                old(env).timestamp,
                old(env).sequence,
            ),
            final(self)@ == old(self)@.after(
                (laws::Op::AddCategory { caller: admin, category: name }),
                old(env).timestamp,
                old(env).sequence,
            ),
            r == old(self)@.managed(ROLE_ADMIN_ID, admin@),
            r is Err ==> final(self)@ == old(self)@ && final(env).did(
                *old(env),
                seq![Call::RequireAuth(admin)],
            ),
            r is Ok ==> {
                &&& final(self)@ == old(self)@.with_category(name)
                &&& final(env).did(
                    *old(env),
                    seq![Call::RequireAuth(admin)] + (if holds(
                        old(self)@.categories,
                        name@,
                    ) {
                        seq![]
                    } else {
                        seq![Call::Write(DataKey::Categories)]
                    }) + seq![
                        Call::Publish {
                            topics: Topics::Two("CatAdded", Val::Symbol(name)),
                            data: Data::Unit,
                        },
                    ],
                )
            },
    {
        roles::require_role(env, &self.roles, ROLE_ADMIN_ID, &admin)?;
        roles::require_not_paused(self.paused)?;
        if list::insert(&mut self.categories, name.clone()) {
            env.write(DataKey::Categories);
        }
        env.publish(Topics::Two("CatAdded", Val::Symbol(name)), Data::Unit);
        Ok(())
    }

    /// Disallow a category. The caller must hold [`ROLE_ADMIN`].
    pub fn remove_category(&mut self, env: &mut Env<DataKey>, admin: Address, name: Symbol) -> (r:
        Result<(), ContractError>)
        requires
            old(self)@.wf(),
        ensures
            final(self)@.wf(),
            r == old(self)@.verdict(
                (laws::Op::RemoveCategory { caller: admin, category: name }),
                old(env).timestamp,
                old(env).sequence,
            ),
            final(self)@ == old(self)@.after(
                (laws::Op::RemoveCategory { caller: admin, category: name }),
                old(env).timestamp,
                old(env).sequence,
            ),
            r == old(self)@.managed(ROLE_ADMIN_ID, admin@),
            r is Err ==> final(self)@ == old(self)@ && final(env).did(
                *old(env),
                seq![Call::RequireAuth(admin)],
            ),
            r is Ok ==> {
                &&& final(self)@ == old(self)@.without_category(name@)
                &&& final(env).did(
                    *old(env),
                    seq![
                        Call::RequireAuth(admin),
                        Call::Write(DataKey::Categories),
                        Call::Publish {
                            topics: Topics::Two("CatRemoved", Val::Symbol(name)),
                            data: Data::Unit,
                        },
                    ],
                )
            },
    {
        roles::require_role(env, &self.roles, ROLE_ADMIN_ID, &admin)?;
        roles::require_not_paused(self.paused)?;
        list::remove_all(&mut self.categories, &name);
        env.write(DataKey::Categories);
        env.publish(Topics::Two("CatRemoved", Val::Symbol(name)), Data::Unit);
        Ok(())
    }

    /// The allowed categories.
    pub fn list_categories(&self) -> (r: Result<Vec<Symbol>, ContractError>)
        ensures
            r is Ok,
            r->Ok_0@ == self@.categories,
    {
        Ok(list::copy(&self.categories))
    }

    /// Whether `propose_upgrade` lets `caller` propose new code.
    pub fn check_propose(&self, caller: &Address) -> (r: Result<(), ContractError>)
        ensures
            r == self@.propose_verdict(caller@),
    {
        if !roles::has_role(&self.roles, ROLE_UPGRADER_ID, caller) {
            return Err(ContractError::MissingRole);
        }
        roles::require_not_paused(self.paused)?;
        if self.pending_upgrade.is_some() {
            return Err(ContractError::UpgradeAlreadyPending);
        }
        Ok(())
    }

    /// Propose new code, to be installed once the timelock has passed. The caller must hold the
    /// upgrader's role.
    pub fn propose_upgrade(
        &mut self,
        env: &mut Env<DataKey>,
        admin: Address,
        new_wasm_hash: Hash32,
    ) -> (r: Result<(), ContractError>)
        requires
            old(self)@.wf(),
            old(self)@.propose_verdict(admin@) is Ok ==> old(env).sequence
                + Self::TIMELOCK_LEDGERS <= u32::MAX,
        ensures
            final(self)@.wf(),
            r == old(self)@.verdict(
                (laws::Op::ProposeUpgrade { caller: admin, hash: new_wasm_hash }),
                old(env).timestamp,
                old(env).sequence,
            ),
            final(self)@ == old(self)@.after(
                (laws::Op::ProposeUpgrade { caller: admin, hash: new_wasm_hash }),
                old(env).timestamp,
                old(env).sequence,
            ),
            r == old(self)@.propose_verdict(admin@),
            r is Err ==> final(self)@ == old(self)@ && final(env).did(
                *old(env),
                seq![Call::RequireAuth(admin)],
            ),
            r is Ok ==> {
                let ledger = (old(env).sequence + Self::TIMELOCK_LEDGERS) as u32;
                &&& final(self)@ == old(self)@.with_pending(
                    Some(
                        PendingUpgrade { wasm_hash: new_wasm_hash, execute_after_ledger: ledger },
                    ),
                )
                &&& final(env).did(
                    *old(env),
                    seq![
                        Call::RequireAuth(admin),
                        Call::Write(DataKey::PendingUpgrade),
                        Call::Publish {
                            topics: Topics::Two("UpgPropsd", Val::U32(ledger)),
                            data: Data::Unit,
                        },
                    ],
                )
            },
    {
        env.require_auth(&admin);
        self.check_propose(&admin)?;
        let ledger: u32 = env.sequence + Self::TIMELOCK_LEDGERS;
        self.pending_upgrade =
        Some(PendingUpgrade { wasm_hash: new_wasm_hash, execute_after_ledger: ledger });
        env.write(DataKey::PendingUpgrade);
        env.publish(Topics::Two("UpgPropsd", Val::U32(ledger)), Data::Unit);
        Ok(())
    }

    /// Install the proposed code, once the timelock has passed. Anyone may call.
    pub fn execute_upgrade(&mut self, env: &mut Env<DataKey>) -> (r: Result<(), ContractError>)
        requires
            old(self)@.wf(),
        ensures
            final(self)@.wf(),
            r == old(self)@.verdict(
                (laws::Op::ExecuteUpgrade {  }),
                old(env).timestamp,
                old(env).sequence,
            ),
            final(self)@ == old(self)@.after(
                (laws::Op::ExecuteUpgrade {  }),
                old(env).timestamp,
                old(env).sequence,
            ),
            r == old(self)@.execute_verdict(old(env).sequence),
            r is Err ==> final(self)@ == old(self)@ && final(env).did(*old(env), seq![]),
            r is Ok ==> {
                &&& final(self)@ == old(self)@.with_pending(None)
                &&& final(env).did(
                    *old(env),
                    seq![
                        Call::Remove(DataKey::PendingUpgrade),
                        Call::Publish { topics: Topics::One("UpgExecd"), data: Data::Unit },
                        Call::UpdateWasm(old(self)@.pending_upgrade->0.wasm_hash),
                    ],
                )
            },
    {
        roles::require_not_paused(self.paused)?;
        let hash = match &self.pending_upgrade {
            None => return Err(ContractError::NoPendingUpgrade),
            Some(pending) => {
                if env.sequence < pending.execute_after_ledger {
                    return Err(ContractError::TimelockNotExpired);
                }
                pending.wasm_hash
            },
        };
        self.pending_upgrade = None;
        env.remove(DataKey::PendingUpgrade);
        env.publish(Topics::One("UpgExecd"), Data::Unit);
        env.update_wasm(hash);
        Ok(())
    }

    /// Withdraw the proposed code. The caller must hold the upgrader's role.
    pub fn cancel_upgrade(&mut self, env: &mut Env<DataKey>, admin: Address) -> (r: Result<
        (),
        ContractError,
    >)
        requires
            old(self)@.wf(),
        ensures
            final(self)@.wf(),
            r == old(self)@.verdict(
                (laws::Op::CancelUpgrade { caller: admin }),
                old(env).timestamp,
                old(env).sequence,
            ),
            final(self)@ == old(self)@.after(
                (laws::Op::CancelUpgrade { caller: admin }),
                old(env).timestamp,
                old(env).sequence,
            ),
            r == old(self)@.cancel_upgrade_verdict(admin@),
            r is Err ==> final(self)@ == old(self)@ && final(env).did(
                *old(env),
                seq![Call::RequireAuth(admin)],
            ),
            r is Ok ==> {
                &&& final(self)@ == old(self)@.with_pending(None)
                &&& final(env).did(
                    *old(env),
                    seq![
                        Call::RequireAuth(admin),
                        Call::Remove(DataKey::PendingUpgrade),
                        Call::Publish { topics: Topics::One("UpgCancld"), data: Data::Unit },
                    ],
                )
            },
    {
        roles::require_role(env, &self.roles, ROLE_UPGRADER_ID, &admin)?;
        roles::require_not_paused(self.paused)?;
        if self.pending_upgrade.is_none() {
            return Err(ContractError::NoPendingUpgrade);
        }
        self.pending_upgrade = None;
        env.remove(DataKey::PendingUpgrade);
        env.publish(Topics::One("UpgCancld"), Data::Unit);
        Ok(())
    }

    /// The proposed code, where there is any.
    pub fn get_pending_upgrade(&self) -> (r: Result<Option<PendingUpgrade>, ContractError>)
        ensures
            r == Ok::<Option<PendingUpgrade>, ContractError>(self@.pending_upgrade),
    {
        match &self.pending_upgrade {
            Some(pending) => Ok(Some(pending.clone())),
            None => Ok(None),
        }
    }
}

} // verus!

//! Configuration, roles, pausing and upgrades of the market contract.

use vstd::prelude::*;

use super::laws;
use super::{
    role_id, role_to_id, Config, DataKey, MarketContract, MarketState, MAX_FEE_BPS, ROLE_ADMIN,
    ROLE_ADMIN_ID, ROLE_FEE_MANAGER_ID, ROLE_PAUSER_ID, ROLE_UPGRADER_ID, VERSION,
};
use crate::error::ContractError;
use crate::host::{Call, Data, Env, Topics, Val};
use crate::list;
use crate::list::{with, without};
use crate::roles;
use crate::roles::{both, is_member, members, pause_verdict, refuse_if, role_verdict};
use crate::values::{Address, Hash32, Symbol};

verus! {

impl MarketState {
    /// What `initialize` answers.
    pub open spec fn initialize_verdict(self, fee_bps: u32) -> Result<(), ContractError> {
        both(
            refuse_if(self.config is Some, ContractError::AlreadyInitialized),
            refuse_if(fee_bps > MAX_FEE_BPS, ContractError::FeeBpsExceedsMaximum),
        )
    }

    /// What `set_treasury` answers.
    pub open spec fn set_treasury_verdict(self, caller: Seq<char>) -> Result<(), ContractError> {
        both(self.grant_verdict(caller), self.configured())
    }

    /// The state once the admin, the fee and its recipient were set.
    pub open spec fn initialized(
        self,
        admin: Address,
        fee_bps: u32,
        fee_recipient: Address,
    ) -> MarketState {
        MarketState {
            config: Some(Config { fee_bps, fee_recipient }),
            admin: Some(admin),
            schema_version: Some(1),
            roles: self.roles.insert(ROLE_ADMIN_ID, seq![admin]),
            ..self
        }
    }

    /// The state in which `account` holds `role`.
    pub open spec fn granted(self, role: Seq<char>, account: Address) -> MarketState {
        let id = role_id(role);
        MarketState {
            roles: self.roles.insert(id, with(members(self.roles, id), account)),
            ..self
        }
    }

    /// The state in which `account` does not hold `role`.
    pub open spec fn revoked(self, role: Seq<char>, account: Seq<char>) -> MarketState {
        let id = role_id(role);
        MarketState {
            roles: self.roles.insert(id, without(members(self.roles, id), account)),
            ..self
        }
    }

    /// The state in which the fee is `fee_bps`.
    pub open spec fn with_fee(self, fee_bps: u32) -> MarketState {
        MarketState { config: Some(Config { fee_bps, ..self.config->0 }), ..self }
    }

    /// The state in which fees go to `fee_recipient`.
    pub open spec fn with_treasury(self, fee_recipient: Address) -> MarketState {
        MarketState { config: Some(Config { fee_recipient, ..self.config->0 }), ..self }
    }

    /// The state in which the contract is or is not paused.
    pub open spec fn with_paused(self, paused: bool) -> MarketState {
        MarketState { paused, ..self }
    }

    /// The state in which `new_admin` has the admin's place, and holds the role in the place of
    /// who had it.
    pub open spec fn with_admin(self, new_admin: Address) -> MarketState {
        MarketState {
            admin: Some(new_admin),
            roles: self.roles.insert(
                ROLE_ADMIN_ID,
                with(without(members(self.roles, ROLE_ADMIN_ID), self.admin->0@), new_admin),
            ),
            ..self
        }
    }

    /// The state in which the storage schema has the version `version`.
    pub open spec fn with_version(self, version: u32) -> MarketState {
        MarketState { schema_version: Some(version), ..self }
    }

    /// What `update_fee` answers.
    pub open spec fn update_fee_verdict(self, fee_bps: u32) -> Result<(), ContractError> {
        both(
            self.has_admin(),
            both(
                role_verdict(self.roles, ROLE_FEE_MANAGER_ID, self.admin->0@),
                both(
                    pause_verdict(self.paused),
                    both(
                        refuse_if(fee_bps > MAX_FEE_BPS, ContractError::FeeBpsExceedsMaximum),
                        self.configured(),
                    ),
                ),
            ),
        )
    }

    /// What `grant_role` answers.
    pub open spec fn grant_verdict(self, caller: Seq<char>) -> Result<(), ContractError> {
        both(role_verdict(self.roles, ROLE_ADMIN_ID, caller), pause_verdict(self.paused))
    }

    /// What `revoke_role` answers.
    pub open spec fn revoke_verdict(
        self,
        caller: Seq<char>,
        role: Seq<char>,
        account: Seq<char>,
    ) -> Result<(), ContractError> {
        both(
            self.grant_verdict(caller),
            refuse_if(
                !is_member(self.roles, role_id(role), account),
                ContractError::AccountDoesNotHoldRole,
            ),
        )
    }

    /// What `migrate` answers.
    pub open spec fn migrate_verdict(self, caller: Seq<char>, expected_version: u32) -> Result<
        (),
        ContractError,
    > {
        both(
            self.grant_verdict(caller),
            refuse_if(self.version() != expected_version, ContractError::WrongSchemaVersion),
        )
    }

    /// What `upgrade` answers.
    pub open spec fn upgrade_verdict(self) -> Result<(), ContractError> {
        both(
            self.has_admin(),
            role_verdict(self.roles, ROLE_UPGRADER_ID, self.admin->0@),
        )
    }
}

impl MarketContract {
    /// Set the admin, the fee and its recipient, once. The admin becomes the first member of
    /// [`ROLE_ADMIN`].
    pub fn initialize(
        &mut self,
        env: &mut Env<DataKey>,
        admin: Address,
        fee_bps: u32,
        fee_recipient: Address,
    ) -> (r: Result<(), ContractError>)
        requires
            old(self)@.wf(),
        ensures
            final(self)@.wf(),
            r == old(self)@.verdict(
                (laws::Op::Initialize { admin, fee_bps, fee_recipient }),
                old(env).timestamp,
            ),
            final(self)@ == old(self)@.after(
                (laws::Op::Initialize { admin, fee_bps, fee_recipient }),
                old(env).timestamp,
            ),
            r == old(self)@.initialize_verdict(fee_bps),
            r is Err ==> final(self)@ == old(self)@ && final(env).did(*old(env), seq![]),
            r is Ok ==> {
                &&& final(self)@ == old(self)@.initialized(admin, fee_bps, fee_recipient)
                &&& final(env).did(
                    *old(env),
                    seq![
                        Call::Write(DataKey::Admin),
                        Call::Write(DataKey::SchemaVersion),
                        Call::Write(DataKey::Config),
                        Call::Write(DataKey::RoleMembers(ROLE_ADMIN_ID)),
                        Call::Publish {
                            topics: Topics::Three(
                                "RlGrnt",
                                Val::Name(ROLE_ADMIN),
                                Val::Address(admin),
                            ),
                            data: Data::Unit,
                        },
                    ],
                )
            },
    {
        if self.config.is_some() {
            return Err(ContractError::AlreadyInitialized);
        }
        if fee_bps > MAX_FEE_BPS {
            return Err(ContractError::FeeBpsExceedsMaximum);
        }
        self.admin = Some(admin.clone());
        env.write(DataKey::Admin);
        self.schema_version = Some(1);
        env.write(DataKey::SchemaVersion);
        self.config = Some(Config { fee_bps, fee_recipient });
        env.write(DataKey::Config);
        let mut members: Vec<Address> = Vec::new();
        members.push(admin.clone());
        assert(members@ =~= seq![admin]);
        self.roles.set(ROLE_ADMIN_ID, members);
        env.write(DataKey::RoleMembers(ROLE_ADMIN_ID));
        env.publish(
            Topics::Three("RlGrnt", Val::Name(ROLE_ADMIN), Val::Address(admin)),
            Data::Unit,
        );
        Ok(())
    }

    /// Set the protocol fee. The admin must hold the fee manager's role.
    pub fn update_fee(&mut self, env: &mut Env<DataKey>, new_fee_bps: u32) -> (r: Result<
        (),
        ContractError,
    >)
        requires
            old(self)@.wf(),
        ensures
            final(self)@.wf(),
            r == old(self)@.verdict(
                (laws::Op::UpdateFee { fee_bps: new_fee_bps }),
                old(env).timestamp,
            ),
            final(self)@ == old(self)@.after(
                (laws::Op::UpdateFee { fee_bps: new_fee_bps }),
                old(env).timestamp,
            ),
            r == old(self)@.update_fee_verdict(new_fee_bps),
            r is Err ==> final(self)@ == old(self)@ && final(env).did(
                *old(env),
                old(self)@.admin_auth(),
            ),
            r is Ok ==> {
                &&& final(self)@ == old(self)@.with_fee(new_fee_bps)
                &&& final(env).did(
                    *old(env),
                    seq![Call::RequireAuth(old(self)@.admin->0), Call::Write(DataKey::Config)],
                )
            },
    {
        let admin = self.get_admin()?;
        roles::require_role(env, &self.roles, ROLE_FEE_MANAGER_ID, &admin)?;
        roles::require_not_paused(self.paused)?;
        if new_fee_bps > MAX_FEE_BPS {
            return Err(ContractError::FeeBpsExceedsMaximum);
        }
        match &mut self.config {
            None => return Err(ContractError::NotInitialized),
            Some(config) => {
                config.fee_bps = new_fee_bps;
            },
        }
        env.write(DataKey::Config);
        Ok(())
    }

    /// Set the recipient of the fee. The caller must hold [`ROLE_ADMIN`].
    pub fn set_treasury(
        &mut self,
        env: &mut Env<DataKey>,
        caller: Address,
        new_treasury: Address,
    ) -> (r: Result<(), ContractError>)
        requires
            old(self)@.wf(),
        ensures
            final(self)@.wf(),
            r == old(self)@.verdict(
                (laws::Op::SetTreasury { caller, treasury: new_treasury }),
                old(env).timestamp,
            ),
            final(self)@ == old(self)@.after(
                (laws::Op::SetTreasury { caller, treasury: new_treasury }),
                old(env).timestamp,
            ),
            r == old(self)@.set_treasury_verdict(caller@),
            r is Err ==> final(self)@ == old(self)@ && final(env).did(
                *old(env),
                seq![Call::RequireAuth(caller)],
            ),
            r is Ok ==> {
                &&& final(self)@ == old(self)@.with_treasury(new_treasury)
                &&& final(env).did(
                    *old(env),
                    seq![
                        Call::RequireAuth(caller),
                        Call::Write(DataKey::Config),
                        Call::Publish {
                            topics: Topics::Two("TrsSet", Val::Address(caller)),
                            data: Data::One(Val::Address(new_treasury)),
                        },
                    ],
                )
            },
    {
        roles::require_role(env, &self.roles, ROLE_ADMIN_ID, &caller)?;
        roles::require_not_paused(self.paused)?;
        match &mut self.config {
            None => return Err(ContractError::NotInitialized),
            Some(config) => {
                config.fee_recipient = new_treasury.clone();
            },
        }
        env.write(DataKey::Config);
        env.publish(
            Topics::Two("TrsSet", Val::Address(caller)),
            Data::One(Val::Address(new_treasury)),
        );
        Ok(())
    }

    /// Make `account` a member of `role`. The caller must hold [`ROLE_ADMIN`].
    pub fn grant_role(
        &mut self,
        env: &mut Env<DataKey>,
        caller: Address,
        role: Symbol,
        account: Address,
    ) -> (r: Result<(), ContractError>)
        requires
            old(self)@.wf(),
        ensures
            final(self)@.wf(),
            r == old(self)@.verdict(
                (laws::Op::GrantRole { caller, role, account }),
                old(env).timestamp,
            ),
            final(self)@ == old(self)@.after(
                (laws::Op::GrantRole { caller, role, account }),
                old(env).timestamp,
            ),
            r == old(self)@.grant_verdict(caller@),
            r is Err ==> final(self)@ == old(self)@ && final(env).did(
                *old(env),
                seq![Call::RequireAuth(caller)],
            ),
            r is Ok ==> {
                let id = role_id(role@);
                &&& final(self)@ == old(self)@.granted(role@, account)
                &&& final(env).did(
                    *old(env),
                    seq![Call::RequireAuth(caller)] + (if is_member(
                        old(self)@.roles,
                        id,
                        account@,
                    ) {
                        seq![]
                    } else {
                        seq![Call::Write(DataKey::RoleMembers(id))]
                    }) + seq![
                        Call::Publish {
                            topics: Topics::Three(
                                "RlGrnt",
                                Val::Symbol(role),
                                Val::Address(account),
                            ),
                            data: Data::Unit,
                        },
                    ],
                )
            },
    {
        roles::require_role(env, &self.roles, ROLE_ADMIN_ID, &caller)?;
        roles::require_not_paused(self.paused)?;
        let id: u64 = role_to_id(&role);
        let mut members = roles::list_members(&self.roles, id);
        if list::insert(&mut members, account.clone()) {
            self.roles.set(id, members);
            env.write(DataKey::RoleMembers(id));
        }
        env.publish(
            Topics::Three("RlGrnt", Val::Symbol(role), Val::Address(account)),
            Data::Unit,
        );
        Ok(())
    }

    /// Take `account` out of `role`. The caller must hold [`ROLE_ADMIN`].
    pub fn revoke_role(
        &mut self,
        env: &mut Env<DataKey>,
        caller: Address,
        role: Symbol,
        account: Address,
    ) -> (r: Result<(), ContractError>)
        requires
            old(self)@.wf(),
        ensures
            final(self)@.wf(),
            r == old(self)@.verdict(
                (laws::Op::RevokeRole { caller, role, account }),
                old(env).timestamp,
            ),
            final(self)@ == old(self)@.after(
                (laws::Op::RevokeRole { caller, role, account }),
                old(env).timestamp,
            ),
            r == old(self)@.revoke_verdict(caller@, role@, account@),
            r is Err ==> final(self)@ == old(self)@ && final(env).did(
                *old(env),
                seq![Call::RequireAuth(caller)],
            ),
            r is Ok ==> {
                let id = role_id(role@);
                &&& final(self)@ == old(self)@.revoked(role@, account@)
                &&& final(env).did(
                    *old(env),
                    seq![
                        Call::RequireAuth(caller),
                        Call::Write(DataKey::RoleMembers(id)),
                        Call::Publish {
                            topics: Topics::Three(
                                "RlRvkd",
                                Val::Symbol(role),
                                Val::Address(account),
                            ),
                            data: Data::Unit,
                        },
                    ],
                )
            },
    {
        roles::require_role(env, &self.roles, ROLE_ADMIN_ID, &caller)?;
        roles::require_not_paused(self.paused)?;
        let id: u64 = role_to_id(&role);
        let mut members = roles::list_members(&self.roles, id);
        if !list::remove_all(&mut members, &account) {
            return Err(ContractError::AccountDoesNotHoldRole);
        }
        self.roles.set(id, members);
        env.write(DataKey::RoleMembers(id));
        env.publish(
            Topics::Three("RlRvkd", Val::Symbol(role), Val::Address(account)),
            Data::Unit,
        );
        Ok(())
    }

    /// Whether `account` holds `role`.
    pub fn has_role(&self, role: Symbol, account: Address) -> (r: Result<bool, ContractError>)
        ensures
            r == Ok::<bool, ContractError>(is_member(self@.roles, role_id(role@), account@)),
    {
        Ok(roles::has_role(&self.roles, role_to_id(&role), &account))
    }

    /// The members of `role`.
    pub fn get_role_members_list(&self, role: Symbol) -> (r: Result<Vec<Address>, ContractError>)
        ensures
            r is Ok,
            r->Ok_0@ == members(self@.roles, role_id(role@)),
    {
        Ok(roles::list_members(&self.roles, role_to_id(&role)))
    }

    /// Pause the contract. The caller must hold the pauser's role.
    pub fn pause(&mut self, env: &mut Env<DataKey>, admin: Address) -> (r: Result<
        (),
        ContractError,
    >)
        requires
            old(self)@.wf(),
        ensures
            final(self)@.wf(),
            r == old(self)@.verdict((laws::Op::Pause { caller: admin }), old(env).timestamp),
            final(self)@ == old(self)@.after(
                (laws::Op::Pause { caller: admin }),
                old(env).timestamp,
            ),
            r == role_verdict(old(self)@.roles, ROLE_PAUSER_ID, admin@),
            r is Err ==> final(self)@ == old(self)@ && final(env).did(
                *old(env),
                seq![Call::RequireAuth(admin)],
            ),
            r is Ok ==> {
                &&& final(self)@ == old(self)@.with_paused(true)
                &&& final(env).did(
                    *old(env),
                    seq![
                        Call::RequireAuth(admin),
                        Call::Write(DataKey::Paused),
                        Call::Publish {
                            topics: Topics::Two("Paused", Val::Address(admin)),
                            data: Data::Unit,
                        },
                    ],
                )
            },
    {
        roles::require_role(env, &self.roles, ROLE_PAUSER_ID, &admin)?;
        self.paused = true;
        env.write(DataKey::Paused);
        env.publish(Topics::Two("Paused", Val::Address(admin)), Data::Unit);
        Ok(())
    }

    /// Unpause the contract. The caller must hold the pauser's role.
    pub fn unpause(&mut self, env: &mut Env<DataKey>, admin: Address) -> (r: Result<
        (),
        ContractError,
    >)
        requires
            old(self)@.wf(),
        ensures
            final(self)@.wf(),
            r == old(self)@.verdict((laws::Op::Unpause { caller: admin }), old(env).timestamp),
            final(self)@ == old(self)@.after(
                (laws::Op::Unpause { caller: admin }),
                old(env).timestamp,
            ),
            r == role_verdict(old(self)@.roles, ROLE_PAUSER_ID, admin@),
            r is Err ==> final(self)@ == old(self)@ && final(env).did(
                *old(env),
                seq![Call::RequireAuth(admin)],
            ),
            r is Ok ==> {
                &&& final(self)@ == old(self)@.with_paused(false)
                &&& final(env).did(
                    *old(env),
                    seq![
                        Call::RequireAuth(admin),
                        Call::Write(DataKey::Paused),
                        Call::Publish {
                            topics: Topics::Two("Unpaused", Val::Address(admin)),
                            data: Data::Unit,
                        },
                    ],
                )
            },
    {
        roles::require_role(env, &self.roles, ROLE_PAUSER_ID, &admin)?;
        self.paused = false;
        env.write(DataKey::Paused);
        env.publish(Topics::Two("Unpaused", Val::Address(admin)), Data::Unit);
        Ok(())
    }

    /// Whether the contract is paused.
    pub fn is_paused(&self) -> (r: Result<bool, ContractError>)
        ensures
            r == Ok::<bool, ContractError>(self@.paused),
    {
        Ok(self.paused)
    }

    /// The admin address.
    pub fn get_admin(&self) -> (r: Result<Address, ContractError>)
        ensures
            r == (match self@.admin {
                Some(admin) => Ok(admin),
                None => Err(ContractError::NotInitialized),
            }),
    {
        match &self.admin {
            Some(admin) => Ok(admin.clone()),
            None => Err(ContractError::NotInitialized),
        }
    }

    /// Hand the admin's place, and the membership of [`ROLE_ADMIN`] that goes with it, to
    /// `new_admin`.
    pub fn set_admin(&mut self, env: &mut Env<DataKey>, new_admin: Address) -> (r: Result<
        (),
        ContractError,
    >)
        requires
            old(self)@.wf(),
        ensures
            final(self)@.wf(),
            r == old(self)@.verdict((laws::Op::SetAdmin { new_admin }), old(env).timestamp),
            final(self)@ == old(self)@.after(
                (laws::Op::SetAdmin { new_admin }),
                old(env).timestamp,
            ),
            r == old(self)@.admin_verdict(),
            r is Err ==> final(self)@ == old(self)@ && final(env).did(
                *old(env),
                old(self)@.admin_auth(),
            ),
            r is Ok ==> {
                let current = old(self)@.admin->0;
                &&& final(self)@ == old(self)@.with_admin(new_admin)
                &&& final(env).did(
                    *old(env),
                    seq![
                        Call::RequireAuth(current),
                        Call::Write(DataKey::Admin),
                        Call::Write(DataKey::RoleMembers(ROLE_ADMIN_ID)),
                    ],
                )
            },
    {
        let current = self.get_admin()?;
        env.require_auth(&current);
        roles::require_not_paused(self.paused)?;
        self.admin = Some(new_admin.clone());
        env.write(DataKey::Admin);
        let mut members = roles::list_members(&self.roles, ROLE_ADMIN_ID);
        list::remove_all(&mut members, &current);
        list::insert(&mut members, new_admin);
        self.roles.set(ROLE_ADMIN_ID, members);
        env.write(DataKey::RoleMembers(ROLE_ADMIN_ID));
        Ok(())
    }

    /// The protocol configuration.
    pub fn get_config(&self) -> (r: Result<Config, ContractError>)
        ensures
            r == (match self@.config {
                Some(config) => Ok(config),
                None => Err(ContractError::NotInitialized),
            }),
    {
        match &self.config {
            Some(config) => Ok(config.clone()),
            None => Err(ContractError::NotInitialized),
        }
    }

    /// The version of the event schema.
    pub fn version(&self) -> (r: Result<u32, ContractError>)
        ensures
            r == Ok::<u32, ContractError>(VERSION),
    {
        Ok(VERSION)
    }

    /// The version of the storage schema.
    pub fn get_schema_version(&self) -> (r: Result<u32, ContractError>)
        ensures
            r == Ok::<u32, ContractError>(self@.version()),
    {
        match self.schema_version {
            Some(v) => Ok(v),
            None => Ok(1),
        }
    }

    /// Whether `migrate` lets `caller` move the storage schema from `expected_version` on.
    pub fn check_migrate(&self, caller: &Address, expected_version: u32) -> (r: Result<
        (),
        ContractError,
    >)
        ensures
            r == self@.migrate_verdict(caller@, expected_version),
    {
        if !roles::has_role(&self.roles, ROLE_ADMIN_ID, caller) {
            return Err(ContractError::MissingRole);
        }
        roles::require_not_paused(self.paused)?;
        let current: u32 = self.get_schema_version()?;
        if current != expected_version {
            return Err(ContractError::WrongSchemaVersion);
        }
        Ok(())
    }

    /// Move the storage schema from `expected_version` to the next. The caller must hold
    /// [`ROLE_ADMIN`].
    pub fn migrate(
        &mut self,
        env: &mut Env<DataKey>,
        admin: Address,
        expected_version: u32,
    ) -> (r: Result<(), ContractError>)
        requires
            old(self)@.wf(),
            old(self)@.migrate_verdict(admin@, expected_version) is Ok ==> expected_version
                < u32::MAX,
        ensures
            final(self)@.wf(),
            r == old(self)@.verdict(
                (laws::Op::Migrate { caller: admin, expected_version }),
                old(env).timestamp,
            ),
            final(self)@ == old(self)@.after(
                (laws::Op::Migrate { caller: admin, expected_version }),
                old(env).timestamp,
            ),
            r == old(self)@.migrate_verdict(admin@, expected_version),
            r is Err ==> final(self)@ == old(self)@ && final(env).did(
                *old(env),
                seq![Call::RequireAuth(admin)],
            ),
            r is Ok ==> {
                let next = (expected_version + 1) as u32;
                &&& final(self)@ == old(self)@.with_version(next)
                &&& final(env).did(
                    *old(env),
                    seq![
                        Call::RequireAuth(admin),
                        Call::Write(DataKey::SchemaVersion),
                        Call::Publish {
                            topics: Topics::One("Migrated"),
                            data: Data::Two(Val::U32(expected_version), Val::U32(next)),
                        },
                    ],
                )
            },
    {
        env.require_auth(&admin);
        self.check_migrate(&admin, expected_version)?;
        let next: u32 = expected_version + 1;
        self.schema_version = Some(next);
        env.write(DataKey::SchemaVersion);
        env.publish(
            Topics::One("Migrated"),
            Data::Two(Val::U32(expected_version), Val::U32(next)),
        );
        Ok(())
    }

    /// Replace the contract's code, which keeps all storage, also while the contract is paused. The
    /// admin must hold the upgrader's role.
    pub fn upgrade(&self, env: &mut Env<DataKey>, new_wasm_hash: Hash32) -> (r: Result<
        (),
        ContractError,
    >)
        ensures
            r == self@.upgrade_verdict(),
            r is Err ==> final(env).did(*old(env), self@.admin_auth()),
            r is Ok ==> final(env).did(
                *old(env),
                seq![Call::RequireAuth(self@.admin->0), Call::UpdateWasm(new_wasm_hash)],
            ),
    {
        let admin = self.get_admin()?;
        roles::require_role(env, &self.roles, ROLE_UPGRADER_ID, &admin)?;
        env.update_wasm(new_wasm_hash);
        Ok(())
    }
}

} // verus!

//! The payment contract: direct payments, and payments locked for a job milestone.
//!
//! - [`PaymentContract::pay`]: a direct payment, less the protocol fee.
//! - [`PaymentContract::lock_payment`]: lock funds for a milestone.
//! - [`PaymentContract::release_payment`]: pay locked funds to the worker (client or admin).
//! - [`PaymentContract::refund_payment`]: pay them back to the client (admin, or the client
//!   once the payment has expired).
//!
//! Every entry point checks first, then writes its entries, and only then has tokens moved.

use vstd::prelude::*;

use crate::error::ContractError;
use crate::fees;
use crate::fees::{fee_of, net_of};
use crate::host::{requests_come_in_order, Call, Data, Env, Topics, Val};
use crate::ledger::{flow, pays, share};
use crate::list;
use crate::list::{with, without};
use crate::roles;
use crate::roles::{both, is_member, members, pause_verdict, refuse_if, role_verdict, Roles};
use crate::table::Table;
use crate::values::{Address, Hash32, Symbol};

pub mod answers;
pub mod laws;
pub mod payouts;

verus! {

/// Highest protocol fee: 500 basis points, 5 %.
pub const MAX_FEE_BPS: u32 = 500;

/// Version of the event schema.
pub const VERSION: u32 = 1;

/// How long an entry is kept alive: about a year of ledgers.
pub const TTL_EXTEND_TO: u32 = 535_000;

/// An entry is kept alive once less than this is left: about six months of ledgers.
pub const TTL_THRESHOLD: u32 = 267_500;

/// Grants and revokes roles.
pub const ROLE_ADMIN: &'static str = "admin";

/// Sets the protocol fee.
pub const ROLE_FEE_MGR: &'static str = "fee_mgr";

/// Pauses and unpauses.
pub const ROLE_PAUSER: &'static str = "pauser";

/// Replaces the contract's code.
pub const ROLE_UPGRADER: &'static str = "upgrader";

pub const ROLE_ADMIN_ID: u64 = 0;

pub const ROLE_FEE_MGR_ID: u64 = 1;

pub const ROLE_PAUSER_ID: u64 = 2;

pub const ROLE_UPGRADER_ID: u64 = 3;

/// The id under which the members of a role are kept. Unknown roles share one id.
pub open spec fn role_id(role: Seq<char>) -> u64 {
    if role == ROLE_ADMIN@ {
        ROLE_ADMIN_ID
    } else if role == ROLE_FEE_MGR@ {
        ROLE_FEE_MGR_ID
    } else if role == ROLE_PAUSER@ {
        ROLE_PAUSER_ID
    } else if role == ROLE_UPGRADER@ {
        ROLE_UPGRADER_ID
    } else {
        u64::MAX
    }
}

/// The id under which the members of `role` are kept.
pub fn role_to_id(role: &Symbol) -> (r: u64)
    ensures
        r == role_id(role@),
{
    if role.is(ROLE_ADMIN) {
        ROLE_ADMIN_ID
    } else if role.is(ROLE_FEE_MGR) {
        ROLE_FEE_MGR_ID
    } else if role.is(ROLE_PAUSER) {
        ROLE_PAUSER_ID
    } else if role.is(ROLE_UPGRADER) {
        ROLE_UPGRADER_ID
    } else {
        u64::MAX
    }
}

/// Protocol configuration.
#[derive(Debug, PartialEq, Eq)]
pub struct Config {
    /// Protocol fee in basis points, at most [`MAX_FEE_BPS`].
    pub fee_bps: u32,
    /// Who receives the protocol fee.
    pub fee_recipient: Address,
}

impl Clone for Config {
    fn clone(&self) -> (r: Self)
        ensures
            r == *self,
    {
        Config { fee_bps: self.fee_bps, fee_recipient: self.fee_recipient.clone() }
    }
}

/// Status of a locked payment.
#[derive(Debug, Clone, Copy, PartialEq, Eq, Structural)]
pub enum PaymentStatus {
    /// Funds are locked and wait for release or refund.
    Locked,
    /// Funds went to the worker.
    Released,
    /// Funds went back to the client.
    Refunded,
}

/// A payment whose funds are locked in the contract.
#[derive(Debug, PartialEq, Eq)]
pub struct LockedPayment {
    /// Identifier, chosen by the caller.
    pub id: Symbol,
    /// Who locked the funds.
    pub client: Address,
    /// Who receives them on release.
    pub worker: Address,
    /// Token contract.
    pub token: Address,
    /// Amount in the token's smallest unit.
    pub amount: i128,
    /// Time from which the client may take the funds back without the admin.
    pub expiry: u64,
    /// Current status.
    pub status: PaymentStatus,
}

impl Clone for LockedPayment {
    fn clone(&self) -> (r: Self)
        ensures
            r == *self,
    {
        LockedPayment {
            id: self.id.clone(),
            client: self.client.clone(),
            worker: self.worker.clone(),
            token: self.token.clone(),
            amount: self.amount,
            expiry: self.expiry,
            status: self.status,
        }
    }
}

impl View for LockedPayment {
    type V = LockedPayment;

    open spec fn view(&self) -> LockedPayment {
        *self
    }
}

/// Entries of the contract's storage.
#[derive(Debug, PartialEq, Eq)]
pub enum DataKey {
    /// Configuration.
    Config,
    /// Paused flag.
    Paused,
    /// Admin address.
    Admin,
    /// Members of a role.
    RoleMembers(u64),
    /// A locked payment.
    Payment(Symbol),
    /// Version of the storage schema.
    SchemaVersion,
}

/// The payment contract, with what it keeps in storage.
#[derive(Debug)]
pub struct PaymentContract {
    pub config: Option<Config>,
    pub paused: bool,
    pub admin: Option<Address>,
    pub roles: Roles,
    pub payments: Table<Symbol, LockedPayment>,
    pub schema_version: Option<u32>,
}

/// What a [`PaymentContract`] stands for.
#[verifier::ext_equal]
pub struct PaymentState {
    pub config: Option<Config>,
    pub paused: bool,
    pub admin: Option<Address>,
    pub roles: Map<u64, Seq<Address>>,
    pub payments: Map<Seq<char>, LockedPayment>,
    pub schema_version: Option<u32>,
}

impl View for PaymentContract {
    type V = PaymentState;

    open spec fn view(&self) -> PaymentState {
        PaymentState {
            config: self.config,
            paused: self.paused,
            admin: self.admin,
            roles: self.roles@,
            payments: self.payments@,
            schema_version: self.schema_version,
        }
    }
}

impl PaymentState {
    /// The fee never exceeds [`MAX_FEE_BPS`], every payment is kept under its own id, and its
    /// amount is positive.
    pub open spec fn wf(self) -> bool {
        &&& self.config matches Some(c) ==> c.fee_bps <= MAX_FEE_BPS
        &&& self.payments.dom().finite()
        &&& forall|id: Seq<char>| #[trigger]
            self.payments.contains_key(id) ==> self.payments[id].id@ == id
                && self.payments[id].amount > 0
    }

    /// What `initialize` answers.
    pub open spec fn initialize_verdict(self, fee_bps: u32) -> Result<(), ContractError> {
        both(
            refuse_if(self.config is Some, ContractError::AlreadyInitialized),
            refuse_if(fee_bps > MAX_FEE_BPS, ContractError::FeeBpsExceedsMaximum),
        )
    }

    /// What an entry point answers that needs nothing but the configuration.
    pub open spec fn configured(self) -> Result<(), ContractError> {
        refuse_if(self.config is None, ContractError::NotInitialized)
    }

    /// What `update_fee` answers.
    pub open spec fn update_fee_verdict(self, caller: Seq<char>, fee_bps: u32) -> Result<
        (),
        ContractError,
    > {
        both(
            role_verdict(self.roles, ROLE_FEE_MGR_ID, caller),
            both(
                refuse_if(fee_bps > MAX_FEE_BPS, ContractError::FeeBpsExceedsMaximum),
                self.configured(),
            ),
        )
    }

    /// What `pay` answers.
    pub open spec fn pay_verdict(self, amount: i128) -> Result<(), ContractError> {
        both(
            pause_verdict(self.paused),
            both(
                refuse_if(amount <= 0, ContractError::AmountMustBePositive),
                self.configured(),
            ),
        )
    }

    /// What `lock_payment` answers at the time `now`.
    pub open spec fn lock_verdict(
        self,
        id: Seq<char>,
        amount: i128,
        expiry: u64,
        now: u64,
    ) -> Result<(), ContractError> {
        both(
            pause_verdict(self.paused),
            both(
                refuse_if(amount <= 0, ContractError::AmountMustBePositive),
                both(
                    refuse_if(expiry <= now, ContractError::ExpiryMustBeInFuture),
                    refuse_if(self.payments.contains_key(id), ContractError::AlreadyExists),
                ),
            ),
        )
    }

    /// Whether `who` is an admin.
    pub open spec fn is_admin(self, who: Seq<char>) -> bool {
        is_member(self.roles, ROLE_ADMIN_ID, who)
    }

    /// What `release_payment` answers.
    pub open spec fn release_verdict(self, caller: Seq<char>, id: Seq<char>) -> Result<
        (),
        ContractError,
    > {
        let p = self.payments[id];
        both(
            pause_verdict(self.paused),
            both(
                refuse_if(!self.payments.contains_key(id), ContractError::PaymentNotFound),
                both(
                    refuse_if(
                        p.client@ != caller && !self.is_admin(caller),
                        ContractError::NotAuthorized,
                    ),
                    refuse_if(p.status != PaymentStatus::Locked, ContractError::PaymentNotLocked),
                ),
            ),
        )
    }

    /// What `refund_payment` answers at the time `now`.
    pub open spec fn refund_verdict(self, caller: Seq<char>, id: Seq<char>, now: u64) -> Result<
        (),
        ContractError,
    > {
        let p = self.payments[id];
        both(
            pause_verdict(self.paused),
            both(
                refuse_if(!self.payments.contains_key(id), ContractError::PaymentNotFound),
                both(
                    refuse_if(p.status != PaymentStatus::Locked, ContractError::PaymentNotLocked),
                    refuse_if(
                        !self.is_admin(caller) && !(p.client@ == caller && now >= p.expiry),
                        ContractError::NotAuthorized,
                    ),
                ),
            ),
        )
    }

    /// What `set_treasury` answers.
    pub open spec fn set_treasury_verdict(self, caller: Seq<char>) -> Result<(), ContractError> {
        both(role_verdict(self.roles, ROLE_ADMIN_ID, caller), self.configured())
    }

    /// The state once the admin, the fee and its recipient were set.
    pub open spec fn initialized(
        self,
        admin: Address,
        fee_bps: u32,
        fee_recipient: Address,
    ) -> PaymentState {
        PaymentState {
            config: Some(Config { fee_bps, fee_recipient }),
            admin: Some(admin),
            schema_version: Some(1),
            roles: self.roles.insert(ROLE_ADMIN_ID, seq![admin]),
            ..self
        }
    }

    /// The state in which `account` holds `role`.
    pub open spec fn granted(self, role: Seq<char>, account: Address) -> PaymentState {
        let id = role_id(role);
        PaymentState {
            roles: self.roles.insert(id, with(members(self.roles, id), account)),
            ..self
        }
    }

    /// The state in which `account` does not hold `role`.
    pub open spec fn revoked(self, role: Seq<char>, account: Seq<char>) -> PaymentState {
        let id = role_id(role);
        PaymentState {
            roles: self.roles.insert(id, without(members(self.roles, id), account)),
            ..self
        }
    }

    /// The state in which the fee is `fee_bps`.
    pub open spec fn with_fee(self, fee_bps: u32) -> PaymentState {
        PaymentState { config: Some(Config { fee_bps, ..self.config->0 }), ..self }
    }

    /// The state in which fees go to `fee_recipient`.
    pub open spec fn with_treasury(self, fee_recipient: Address) -> PaymentState {
        PaymentState { config: Some(Config { fee_recipient, ..self.config->0 }), ..self }
    }

    /// The state in which the contract is or is not paused.
    pub open spec fn with_paused(self, paused: bool) -> PaymentState {
        PaymentState { paused, ..self }
    }

    /// The state in which `p` is kept.
    pub open spec fn with_payment(self, p: LockedPayment) -> PaymentState {
        PaymentState { payments: self.payments.insert(p.id@, p), ..self }
    }

    /// The state in which the payment `id` has the status `status`.
    pub open spec fn with_status(self, id: Seq<char>, status: PaymentStatus) -> PaymentState {
        PaymentState {
            payments: self.payments.insert(id, LockedPayment { status, ..self.payments[id] }),
            ..self
        }
    }
}

/// The authorisation that is demanded of `who` unless the contract is paused.
pub open spec fn auth_unless(paused: bool, who: Address) -> Seq<Call<DataKey>> {
    if paused {
        seq![]
    } else {
        seq![Call::RequireAuth(who)]
    }
}

/// What is asked of the host for a direct payment.
pub open spec fn pay_calls(
    from: Address,
    to: Address,
    token: Address,
    amount: i128,
    config: Config,
) -> Seq<Call<DataKey>> {
    let fee = fee_of(amount as int, config.fee_bps as int);
    let net = net_of(amount as int, config.fee_bps as int);
    seq![
        Call::RequireAuth(from),
        Call::Transfer { token, from, to, amount: net as i128 },
    ] + (if fee > 0 {
        seq![Call::Transfer { token, from, to: config.fee_recipient, amount: fee as i128 }]
    } else {
        seq![]
    }) + seq![
        Call::Publish {
            topics: Topics::Three("Pay", Val::Address(from), Val::Address(to)),
            data: Data::Three(Val::Address(token), Val::I128(amount), Val::I128(fee as i128)),
        },
    ]
}

/// What is asked of the host when `p` is locked: the entry is written, then the amount comes in.
pub open spec fn lock_calls(contract: Address, p: LockedPayment) -> Seq<Call<DataKey>> {
    seq![
        Call::RequireAuth(p.client),
        Call::Write(DataKey::Payment(p.id)),
        extend_payment(p.id),
        Call::Transfer { token: p.token, from: p.client, to: contract, amount: p.amount },
        Call::Publish {
            topics: Topics::Two("Locked", Val::Symbol(p.id)),
            data: Data::Three(
                Val::Address(p.client),
                Val::Address(p.worker),
                Val::I128(p.amount),
            ),
        },
    ]
}

/// What is asked of the host when a locked payment is settled: the entry is written, then the
/// amount goes to `to`.
pub open spec fn settle_calls(
    name: &'static str,
    contract: Address,
    caller: Address,
    id: Symbol,
    p: LockedPayment,
    to: Address,
) -> Seq<Call<DataKey>> {
    seq![
        Call::RequireAuth(caller),
        Call::Write(DataKey::Payment(id)),
        extend_payment(id),
        Call::Transfer { token: p.token, from: contract, to, amount: p.amount },
        Call::Publish {
            topics: Topics::Two(name, Val::Symbol(id)),
            data: Data::Three(Val::Address(caller), Val::Address(to), Val::I128(p.amount)),
        },
    ]
}

/// The request to keep the payment `id` alive.
pub open spec fn extend_payment(id: Symbol) -> Call<DataKey> {
    Call::ExtendTtl {
        key: DataKey::Payment(id),
        threshold: TTL_THRESHOLD,
        extend_to: TTL_EXTEND_TO,
    }
}

impl PaymentContract {
    /// The contract as it is deployed.
    pub fn new() -> (r: Self)
        ensures
            r@.wf(),
            r@ == (PaymentState {
                config: None,
                paused: false,
                admin: None,
                roles: Map::empty(),
                payments: Map::empty(),
                schema_version: None,
            }),
    {
        PaymentContract {
            config: None,
            paused: false,
            admin: None,
            roles: Table::new(),
            payments: Table::new(),
            schema_version: None,
        }
    }

    /// Set the admin, the fee and its recipient, once. The admin becomes the first member of
    /// [`ROLE_ADMIN`].
    pub fn initialize(
        &mut self,
        env: &mut Env<DataKey>,
        admin: Address,
        fee_bps: u32,
        fee_recipient: Address,
    ) -> (r: Result<(), ContractError>)
        requires
            old(self)@.wf(),
        ensures
            final(self)@.wf(),
            r == old(self)@.verdict(
                (laws::Op::Initialize { admin, fee_bps, fee_recipient }),
                old(env).timestamp,
            ),
            final(self)@ == old(self)@.after(
                (laws::Op::Initialize { admin, fee_bps, fee_recipient }),
                old(env).timestamp,
            ),
            r == old(self)@.initialize_verdict(fee_bps),
            r is Err ==> final(self)@ == old(self)@ && final(env).did(*old(env), seq![]),
            r is Ok ==> {
                &&& final(self)@ == old(self)@.initialized(admin, fee_bps, fee_recipient)
                &&& final(env).did(
                    *old(env),
                    seq![
                        Call::Write(DataKey::Config),
                        Call::Write(DataKey::Admin),
                        Call::Write(DataKey::SchemaVersion),
                        Call::Write(DataKey::RoleMembers(ROLE_ADMIN_ID)),
                        Call::Publish {
                            topics: Topics::Two("Init", Val::Address(admin)),
                            data: Data::One(Val::U32(VERSION)),
                        },
                    ],
                )
            },
    {
        if self.config.is_some() {
            return Err(ContractError::AlreadyInitialized);
        }
        if fee_bps > MAX_FEE_BPS {
            return Err(ContractError::FeeBpsExceedsMaximum);
        }
        self.config = Some(Config { fee_bps, fee_recipient });
        env.write(DataKey::Config);
        self.admin = Some(admin.clone());
        env.write(DataKey::Admin);
        self.schema_version = Some(1);
        env.write(DataKey::SchemaVersion);
        let mut members: Vec<Address> = Vec::new();
        members.push(admin.clone());
        assert(members@ =~= seq![admin]);
        self.roles.set(ROLE_ADMIN_ID, members);
        env.write(DataKey::RoleMembers(ROLE_ADMIN_ID));
        env.publish(Topics::Two("Init", Val::Address(admin)), Data::One(Val::U32(VERSION)));
        Ok(())
    }

    /// Make `account` a member of `role`. The caller must hold [`ROLE_ADMIN`].
    pub fn grant_role(
        &mut self,
        env: &mut Env<DataKey>,
        caller: Address,
        role: Symbol,
        account: Address,
    ) -> (r: Result<(), ContractError>)
        requires
            old(self)@.wf(),
        ensures
            final(self)@.wf(),
            r == old(self)@.verdict(
                (laws::Op::GrantRole { caller, role, account }),
                old(env).timestamp,
            ),
            final(self)@ == old(self)@.after(
                (laws::Op::GrantRole { caller, role, account }),
                old(env).timestamp,
            ),
            r == role_verdict(old(self)@.roles, ROLE_ADMIN_ID, caller@),
            r is Err ==> final(self)@ == old(self)@ && final(env).did(
                *old(env),
                seq![Call::RequireAuth(caller)],
            ),
            r is Ok ==> {
                let id = role_id(role@);
                &&& final(self)@ == old(self)@.granted(role@, account)
                &&& final(env).did(
                    *old(env),
                    seq![
                        Call::RequireAuth(caller),
                        Call::Write(DataKey::RoleMembers(id)),
                        Call::Publish {
                            topics: Topics::Two("RlGrnt", Val::Symbol(role)),
                            data: Data::One(Val::Address(account)),
                        },
                    ],
                )
            },
    {
        roles::require_role(env, &self.roles, ROLE_ADMIN_ID, &caller)?;
        let id: u64 = role_to_id(&role);
        let mut members = roles::list_members(&self.roles, id);
        list::insert(&mut members, account.clone());
        self.roles.set(id, members);
        env.write(DataKey::RoleMembers(id));
        env.publish(
            Topics::Two("RlGrnt", Val::Symbol(role)),
            Data::One(Val::Address(account)),
        );
        Ok(())
    }

    /// Take `account` out of `role`. The caller must hold [`ROLE_ADMIN`].
    pub fn revoke_role(
        &mut self,
        env: &mut Env<DataKey>,
        caller: Address,
        role: Symbol,
        account: Address,
    ) -> (r: Result<(), ContractError>)
        requires
            old(self)@.wf(),
        ensures
            final(self)@.wf(),
            r == old(self)@.verdict(
                (laws::Op::RevokeRole { caller, role, account }),
                old(env).timestamp,
            ),
            final(self)@ == old(self)@.after(
                (laws::Op::RevokeRole { caller, role, account }),
                old(env).timestamp,
            ),
            r == role_verdict(old(self)@.roles, ROLE_ADMIN_ID, caller@),
            r is Err ==> final(self)@ == old(self)@ && final(env).did(
                *old(env),
                seq![Call::RequireAuth(caller)],
            ),
            r is Ok ==> {
                let id = role_id(role@);
                &&& final(self)@ == old(self)@.revoked(role@, account@)
                &&& final(env).did(
                    *old(env),
                    seq![
                        Call::RequireAuth(caller),
                        Call::Write(DataKey::RoleMembers(id)),
                        Call::Publish {
                            topics: Topics::Two("RlRevk", Val::Symbol(role)),
                            data: Data::One(Val::Address(account)),
                        },
                    ],
                )
            },
    {
        roles::require_role(env, &self.roles, ROLE_ADMIN_ID, &caller)?;
        let id: u64 = role_to_id(&role);
        let mut members = roles::list_members(&self.roles, id);
        list::remove_all(&mut members, &account);
        self.roles.set(id, members);
        env.write(DataKey::RoleMembers(id));
        env.publish(
            Topics::Two("RlRevk", Val::Symbol(role)),
            Data::One(Val::Address(account)),
        );
        Ok(())
    }

    /// Whether `account` holds `role`.
    pub fn has_role(&self, role: Symbol, account: Address) -> (r: Result<bool, ContractError>)
        ensures
            r == Ok::<bool, ContractError>(is_member(self@.roles, role_id(role@), account@)),
    {
        Ok(roles::has_role(&self.roles, role_to_id(&role), &account))
    }

    /// Set the protocol fee. The caller must hold [`ROLE_FEE_MGR`].
    pub fn update_fee(
        &mut self,
        env: &mut Env<DataKey>,
        caller: Address,
        new_fee_bps: u32,
    ) -> (r: Result<(), ContractError>)
        requires
            old(self)@.wf(),
        ensures
            final(self)@.wf(),
            r == old(self)@.verdict(
                (laws::Op::UpdateFee { caller, fee_bps: new_fee_bps }),
                old(env).timestamp,
            ),
            final(self)@ == old(self)@.after(
                (laws::Op::UpdateFee { caller, fee_bps: new_fee_bps }),
                old(env).timestamp,
            ),
            r == old(self)@.update_fee_verdict(caller@, new_fee_bps),
            r is Err ==> final(self)@ == old(self)@ && final(env).did(
                *old(env),
                seq![Call::RequireAuth(caller)],
            ),
            r is Ok ==> {
                &&& final(self)@ == old(self)@.with_fee(new_fee_bps)
                &&& final(env).did(
                    *old(env),
                    seq![
                        Call::RequireAuth(caller),
                        Call::Write(DataKey::Config),
                        Call::Publish {
                            topics: Topics::Two("FeeUpd", Val::Address(caller)),
                            data: Data::One(Val::U32(new_fee_bps)),
                        },
                    ],
                )
            },
    {
        roles::require_role(env, &self.roles, ROLE_FEE_MGR_ID, &caller)?;
        if new_fee_bps > MAX_FEE_BPS {
            return Err(ContractError::FeeBpsExceedsMaximum);
        }
        match &mut self.config {
            None => return Err(ContractError::NotInitialized),
            Some(config) => {
                config.fee_bps = new_fee_bps;
            },
        }
        env.write(DataKey::Config);
        env.publish(
            Topics::Two("FeeUpd", Val::Address(caller)),
            Data::One(Val::U32(new_fee_bps)),
        );
        Ok(())
    }

    /// Set the recipient of the fee. The caller must hold [`ROLE_ADMIN`].
    pub fn set_treasury(
        &mut self,
        env: &mut Env<DataKey>,
        caller: Address,
        new_treasury: Address,
    ) -> (r: Result<(), ContractError>)
        requires
            old(self)@.wf(),
        ensures
            final(self)@.wf(),
            r == old(self)@.verdict(
                (laws::Op::SetTreasury { caller, treasury: new_treasury }),
                old(env).timestamp,
            ),
            final(self)@ == old(self)@.after(
                (laws::Op::SetTreasury { caller, treasury: new_treasury }),
                old(env).timestamp,
            ),
            r == old(self)@.set_treasury_verdict(caller@),
            r is Err ==> final(self)@ == old(self)@ && final(env).did(
                *old(env),
                seq![Call::RequireAuth(caller)],
            ),
            r is Ok ==> {
                &&& final(self)@ == old(self)@.with_treasury(new_treasury)
                &&& final(env).did(
                    *old(env),
                    seq![
                        Call::RequireAuth(caller),
                        Call::Write(DataKey::Config),
                        Call::Publish {
                            topics: Topics::Two("TrsSet", Val::Address(caller)),
                            data: Data::One(Val::Address(new_treasury)),
                        },
                    ],
                )
            },
    {
        roles::require_role(env, &self.roles, ROLE_ADMIN_ID, &caller)?;
        match &mut self.config {
            None => return Err(ContractError::NotInitialized),
            Some(config) => {
                config.fee_recipient = new_treasury.clone();
            },
        }
        env.write(DataKey::Config);
        env.publish(
            Topics::Two("TrsSet", Val::Address(caller)),
            Data::One(Val::Address(new_treasury)),
        );
        Ok(())
    }

    /// Pause the contract. The caller must hold [`ROLE_PAUSER`].
    pub fn pause(&mut self, env: &mut Env<DataKey>, caller: Address) -> (r: Result<
        (),
        ContractError,
    >)
        requires
            old(self)@.wf(),
        ensures
            final(self)@.wf(),
            r == old(self)@.verdict((laws::Op::Pause { caller }), old(env).timestamp),
            final(self)@ == old(self)@.after((laws::Op::Pause { caller }), old(env).timestamp),
            r == role_verdict(old(self)@.roles, ROLE_PAUSER_ID, caller@),
            r is Err ==> final(self)@ == old(self)@ && final(env).did(
                *old(env),
                seq![Call::RequireAuth(caller)],
            ),
            r is Ok ==> {
                &&& final(self)@ == old(self)@.with_paused(true)
                &&& final(env).did(
                    *old(env),
                    seq![
                        Call::RequireAuth(caller),
                        Call::Write(DataKey::Paused),
                        Call::Publish {
                            topics: Topics::Two("Paused", Val::Address(caller)),
                            data: Data::Unit,
                        },
                    ],
                )
            },
    {
        roles::require_role(env, &self.roles, ROLE_PAUSER_ID, &caller)?;
        self.paused = true;
        env.write(DataKey::Paused);
        env.publish(Topics::Two("Paused", Val::Address(caller)), Data::Unit);
        Ok(())
    }

    /// Unpause the contract. The caller must hold [`ROLE_PAUSER`].
    pub fn unpause(&mut self, env: &mut Env<DataKey>, caller: Address) -> (r: Result<
        (),
        ContractError,
    >)
        requires
            old(self)@.wf(),
        ensures
            final(self)@.wf(),
            r == old(self)@.verdict((laws::Op::Unpause { caller }), old(env).timestamp),
            final(self)@ == old(self)@.after((laws::Op::Unpause { caller }), old(env).timestamp),
            r == role_verdict(old(self)@.roles, ROLE_PAUSER_ID, caller@),
            r is Err ==> final(self)@ == old(self)@ && final(env).did(
                *old(env),
                seq![Call::RequireAuth(caller)],
            ),
            r is Ok ==> {
                &&& final(self)@ == old(self)@.with_paused(false)
                &&& final(env).did(
                    *old(env),
                    seq![
                        Call::RequireAuth(caller),
                        Call::Write(DataKey::Paused),
                        Call::Publish {
                            topics: Topics::Two("Unpaused", Val::Address(caller)),
                            data: Data::Unit,
                        },
                    ],
                )
            },
    {
        roles::require_role(env, &self.roles, ROLE_PAUSER_ID, &caller)?;
        self.paused = false;
        env.write(DataKey::Paused);
        env.publish(Topics::Two("Unpaused", Val::Address(caller)), Data::Unit);
        Ok(())
    }

    /// Whether the contract is paused.
    pub fn is_paused(&self) -> (r: Result<bool, ContractError>)
        ensures
            r == Ok::<bool, ContractError>(self@.paused),
    {
        Ok(self.paused)
    }

    /// The admin address.
    pub fn get_admin(&self) -> (r: Result<Address, ContractError>)
        ensures
            r == (match self@.admin {
                Some(admin) => Ok(admin),
                None => Err(ContractError::NotInitialized),
            }),
    {
        match &self.admin {
            Some(admin) => Ok(admin.clone()),
            None => Err(ContractError::NotInitialized),
        }
    }

    /// The protocol configuration.
    pub fn get_config_view(&self) -> (r: Result<Config, ContractError>)
        ensures
            r == (match self@.config {
                Some(config) => Ok(config),
                None => Err(ContractError::NotInitialized),
            }),
    {
        match &self.config {
            Some(config) => Ok(config.clone()),
            None => Err(ContractError::NotInitialized),
        }
    }

    /// The version of the event schema.
    pub fn version(&self) -> (r: Result<u32, ContractError>)
        ensures
            r == Ok::<u32, ContractError>(VERSION),
    {
        Ok(VERSION)
    }

    /// Pay `amount` from `from` to `to`, less the protocol fee.
    pub fn pay(
        &mut self,
        env: &mut Env<DataKey>,
        from: Address,
        to: Address,
        token_addr: Address,
        amount: i128,
    ) -> (r: Result<(), ContractError>)
        requires
            old(self)@.wf(),
        ensures
            final(self)@ == old(self)@,
            r == old(self)@.pay_verdict(amount),
            r == old(self)@.verdict(
                (laws::Op::Pay { from, to, token: token_addr, amount }),
                old(env).timestamp,
            ),
            r is Err ==> final(env).did(*old(env), auth_unless(old(self)@.paused, from)),
            r is Ok ==> final(env).did(
                *old(env),
                pay_calls(from, to, token_addr, amount, old(self)@.config->0),
            ),
            r is Ok ==> forall|t: Seq<char>, who: Seq<char>| #[trigger]
                flow(final(env).asked_since(*old(env)), t, who) == share(
                    token_addr@,
                    from@,
                    to@,
                    old(self)@.config->0.fee_recipient@,
                    amount as int,
                    fee_of(amount as int, old(self)@.config->0.fee_bps as int),
                    t,
                    who,
                ),
    {
        roles::require_not_paused(self.paused)?;
        env.require_auth(&from);
        if amount <= 0 {
            return Err(ContractError::AmountMustBePositive);
        }
        match &self.config {
            None => Err(ContractError::NotInitialized),
            Some(config) => {
                let (fee, net) = fees::split_fee(amount, config.fee_bps);
                env.transfer(&token_addr, &from, &to, net);
                if fee > 0 {
                    env.transfer(&token_addr, &from, &config.fee_recipient, fee);
                }
                env.publish(
                    Topics::Three("Pay", Val::Address(from), Val::Address(to)),
                    Data::Three(Val::Address(token_addr), Val::I128(amount), Val::I128(fee)),
                );
                proof {
                    let calls = pay_calls(from, to, token_addr, amount, *config);
                    requests_come_in_order(*old(env), *env, calls);
                    assert forall|t: Seq<char>, who: Seq<char>| #[trigger]
                        flow(calls, t, who) == share(
                            token_addr@,
                            from@,
                            to@,
                            config.fee_recipient@,
                            amount as int,
                            fee_of(amount as int, config.fee_bps as int),
                            t,
                            who,
                        ) by {
                        payouts::a_payment_pays_payee_and_treasury(
                            from,
                            to,
                            token_addr,
                            amount,
                            *config,
                            t,
                            who,
                        );
                    }
                }
                Ok(())
            },
        }
    }

    /// Lock `amount` for a job milestone, under an `id` that is not in use.
    pub fn lock_payment(
        &mut self,
        env: &mut Env<DataKey>,
        from: Address,
        to: Address,
        token_addr: Address,
        id: Symbol,
        amount: i128,
        expiry: u64,
    ) -> (r: Result<(), ContractError>)
        requires
            old(self)@.wf(),
        ensures
            final(self)@.wf(),
            r == old(self)@.verdict(
                (laws::Op::Lock { from, to, token: token_addr, id, amount, expiry }),
                old(env).timestamp,
            ),
            final(self)@ == old(self)@.after(
                (laws::Op::Lock { from, to, token: token_addr, id, amount, expiry }),
                old(env).timestamp,
            ),
            r == old(self)@.lock_verdict(id@, amount, expiry, old(env).timestamp),
            r is Err ==> final(self)@ == old(self)@ && final(env).did(
                *old(env),
                auth_unless(old(self)@.paused, from),
            ),
            r is Ok ==> {
                let p = LockedPayment {
                    id,
                    client: from,
                    worker: to,
                    token: token_addr,
                    amount,
                    expiry,
                    status: PaymentStatus::Locked,
                };
                &&& final(self)@ == old(self)@.with_payment(p)
                &&& final(env).did(*old(env), lock_calls(old(env).contract, p))
                &&& pays(
                    final(env).asked_since(*old(env)),
                    token_addr@,
                    from@,
                    old(env).contract@,
                    amount as int,
                )
            },
    {
        roles::require_not_paused(self.paused)?;
        env.require_auth(&from);
        if amount <= 0 {
            return Err(ContractError::AmountMustBePositive);
        }
        if expiry <= env.timestamp {
            return Err(ContractError::ExpiryMustBeInFuture);
        }
        if self.payments.has(&id) {
            return Err(ContractError::AlreadyExists);
        }
        let record = LockedPayment {
            id: id.clone(),
            client: from.clone(),
            worker: to.clone(),
            token: token_addr.clone(),
            amount,
            expiry,
            status: PaymentStatus::Locked,
        };
        self.payments.set(id.clone(), record);
        env.write(DataKey::Payment(id.clone()));
        env.extend_ttl(DataKey::Payment(id.clone()), TTL_THRESHOLD, TTL_EXTEND_TO);
        let contract = env.contract.clone();
        env.transfer(&token_addr, &from, &contract, amount);
        env.publish(
            Topics::Two("Locked", Val::Symbol(id)),
            Data::Three(Val::Address(from), Val::Address(to), Val::I128(amount)),
        );
        proof {
            let p = self@.payments[id@];
            payouts::locking_takes_the_amount_from_the_client(old(env).contract, p);
            requests_come_in_order(*old(env), *env, lock_calls(old(env).contract, p));
        }
        Ok(())
    }

    /// Pay a locked payment to the worker. The caller must be its client or an admin.
    pub fn release_payment(
        &mut self,
        env: &mut Env<DataKey>,
        caller: Address,
        id: Symbol,
    ) -> (r: Result<(), ContractError>)
        requires
            old(self)@.wf(),
        ensures
            final(self)@.wf(),
            r == old(self)@.verdict((laws::Op::Release { caller, id }), old(env).timestamp),
            final(self)@ == old(self)@.after(
                (laws::Op::Release { caller, id }),
                old(env).timestamp,
            ),
            r == old(self)@.release_verdict(caller@, id@),
            r is Err ==> final(self)@ == old(self)@ && final(env).did(
                *old(env),
                auth_unless(old(self)@.paused, caller),
            ),
            r is Ok ==> {
                let p = old(self)@.payments[id@];
                &&& final(self)@ == old(self)@.with_status(id@, PaymentStatus::Released)
                &&& final(env).did(
                    *old(env),
                    settle_calls("Released", old(env).contract, caller, id, p, p.worker),
                )
                &&& pays(
                    final(env).asked_since(*old(env)),
                    p.token@,
                    old(env).contract@,
                    p.worker@,
                    p.amount as int,
                )
            },
    {
        roles::require_not_paused(self.paused)?;
        env.require_auth(&caller);
        let is_admin = roles::has_role(&self.roles, ROLE_ADMIN_ID, &caller);
        match self.payments.get_mut(&id) {
            None => Err(ContractError::PaymentNotFound),
            Some(record) => {
                if record.client.text != caller.text && !is_admin {
                    return Err(ContractError::NotAuthorized);
                }
                if record.status != PaymentStatus::Locked {
                    return Err(ContractError::PaymentNotLocked);
                }
                record.status = PaymentStatus::Released;
                env.write(DataKey::Payment(id.clone()));
                env.extend_ttl(DataKey::Payment(id.clone()), TTL_THRESHOLD, TTL_EXTEND_TO);
                let contract = env.contract.clone();
                env.transfer(&record.token, &contract, &record.worker, record.amount);
                env.publish(
                    Topics::Two("Released", Val::Symbol(id)),
                    Data::Three(
                        Val::Address(caller),
                        Val::Address(record.worker.clone()),
                        Val::I128(record.amount),
                    ),
                );
                proof {
                    let p = old(self)@.payments[id@];
                    let c = old(env).contract;
                    payouts::settling_pays_the_party_named("Released", c, caller, id, p, p.worker);
                    requests_come_in_order(
                        *old(env),
                        *env,
                        settle_calls("Released", c, caller, id, p, p.worker),
                    );
                }
                Ok(())
            },
        }
    }

    /// Pay a locked payment back to its client. The caller must be an admin, or the client once
    /// the payment has expired.
    pub fn refund_payment(
        &mut self,
        env: &mut Env<DataKey>,
        caller: Address,
        id: Symbol,
    ) -> (r: Result<(), ContractError>)
        requires
            old(self)@.wf(),
        ensures
            final(self)@.wf(),
            r == old(self)@.verdict((laws::Op::Refund { caller, id }), old(env).timestamp),
            final(self)@ == old(self)@.after((laws::Op::Refund { caller, id }), old(env).timestamp),
            r == old(self)@.refund_verdict(caller@, id@, old(env).timestamp),
            r is Err ==> final(self)@ == old(self)@ && final(env).did(
                *old(env),
                auth_unless(old(self)@.paused, caller),
            ),
            r is Ok ==> {
                let p = old(self)@.payments[id@];
                &&& final(self)@ == old(self)@.with_status(id@, PaymentStatus::Refunded)
                &&& final(env).did(
                    *old(env),
                    settle_calls("Refunded", old(env).contract, caller, id, p, p.client),
                )
                &&& pays(
                    final(env).asked_since(*old(env)),
                    p.token@,
                    old(env).contract@,
                    p.client@,
                    p.amount as int,
                )
            },
    {
        roles::require_not_paused(self.paused)?;
        env.require_auth(&caller);
        let is_admin = roles::has_role(&self.roles, ROLE_ADMIN_ID, &caller);
        match self.payments.get_mut(&id) {
            None => Err(ContractError::PaymentNotFound),
            Some(record) => {
                if record.status != PaymentStatus::Locked {
                    return Err(ContractError::PaymentNotLocked);
                }
                let is_expired_client = record.client.text == caller.text && env.timestamp
                    >= record.expiry;
                if !is_admin && !is_expired_client {
                    return Err(ContractError::NotAuthorized);
                }
                record.status = PaymentStatus::Refunded;
                env.write(DataKey::Payment(id.clone()));
                env.extend_ttl(DataKey::Payment(id.clone()), TTL_THRESHOLD, TTL_EXTEND_TO);
                let contract = env.contract.clone();
                env.transfer(&record.token, &contract, &record.client, record.amount);
                env.publish(
                    Topics::Two("Refunded", Val::Symbol(id)),
                    Data::Three(
                        Val::Address(caller),
                        Val::Address(record.client.clone()),
                        Val::I128(record.amount),
                    ),
                );
                proof {
                    let p = old(self)@.payments[id@];
                    let c = old(env).contract;
                    payouts::settling_pays_the_party_named("Refunded", c, caller, id, p, p.client);
                    requests_come_in_order(
                        *old(env),
                        *env,
                        settle_calls("Refunded", c, caller, id, p, p.client),
                    );
                }
                Ok(())
            },
        }
    }

    /// The payment kept under `id`.
    pub fn get_payment(&self, id: Symbol) -> (r: Result<LockedPayment, ContractError>)
        ensures
            r == (if self@.payments.contains_key(id@) {
                Ok(self@.payments[id@])
            } else {
                Err(ContractError::PaymentNotFound)
            }),
    {
        match self.payments.get(&id) {
            Some(record) => Ok(record.clone()),
            None => Err(ContractError::PaymentNotFound),
        }
    }

    /// Keep a payment alive. Anyone may ask for it.
    pub fn extend_payment_ttl_pub(&self, env: &mut Env<DataKey>, id: Symbol) -> (r: Result<
        (),
        ContractError,
    >)
        ensures
            r is Ok,
            final(env).did(*old(env), seq![extend_payment(id)]),
    {
        env.extend_ttl(DataKey::Payment(id), TTL_THRESHOLD, TTL_EXTEND_TO);
        Ok(())
    }

    /// Replace the contract's code. The caller must hold [`ROLE_UPGRADER`].
    pub fn upgrade(
        &self,
        env: &mut Env<DataKey>,
        caller: Address,
        new_wasm_hash: Hash32,
    ) -> (r: Result<(), ContractError>)
        ensures
            r == role_verdict(self@.roles, ROLE_UPGRADER_ID, caller@),
            r is Err ==> final(env).did(*old(env), seq![Call::RequireAuth(caller)]),
            r is Ok ==> final(env).did(
                *old(env),
                seq![Call::RequireAuth(caller), Call::UpdateWasm(new_wasm_hash)],
            ),
    {
        roles::require_role(env, &self.roles, ROLE_UPGRADER_ID, &caller)?;
        env.update_wasm(new_wasm_hash);
        Ok(())
    }
}

} // verus!

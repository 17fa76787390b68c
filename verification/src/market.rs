//! The market contract: tips, escrows, multi-signature escrows and arbitration.
//!
//! - Direct tips: [`MarketContract::tip`] moves tokens at once, less the protocol fee.
//! - Escrows: [`MarketContract::create_escrow`] locks funds, [`MarketContract::release_escrow`]
//!   pays them to the worker, [`MarketContract::cancel_escrow`] pays them back after expiry.
//! - Multi-signature escrows: funds are released once enough signers have approved.
//! - Arbitration: an approved arbitrator decides who gets the funds of a disputed escrow.
//!
//! A protocol fee in basis points is taken from tips and from escrows released one by one. It
//! never exceeds [`MAX_FEE_BPS`], and goes to the configured recipient.

use vstd::prelude::*;

use crate::error::ContractError;
use crate::fees::{fee_of, net_of};
use crate::host::{fee_taken, Call};
use crate::list;
use crate::list::holds;
use crate::roles::{both, pause_verdict, refuse_if, Roles};
use crate::table::Table;
use crate::values::{Address, Symbol};

pub mod admin;
pub mod answers;
pub mod arbitration;
pub mod changes;
pub mod escrow;
pub mod laws;
pub mod multisig;
pub mod payouts;

verus! {

/// Highest protocol fee: 500 basis points, 5 %.
pub const MAX_FEE_BPS: u32 = 500;

/// Version of the event schema.
pub const VERSION: u32 = 1;

/// Most escrows that one call releases.
pub const MAX_BATCH: usize = 20;

/// Grants and revokes roles.
pub const ROLE_ADMIN: &'static str = "admin";

/// Pauses and unpauses.
pub const ROLE_PAUSER: &'static str = "pauser";

/// Sets the protocol fee.
pub const ROLE_FEE_MANAGER: &'static str = "fee_mgr";

/// Resolves disputed milestones.
pub const ROLE_DISPUTE_MGR: &'static str = "dispute_mgr";

/// Replaces the contract's code.
pub const ROLE_UPGRADER: &'static str = "upgrader";

pub const ROLE_ADMIN_ID: u64 = 0;

pub const ROLE_PAUSER_ID: u64 = 1;

pub const ROLE_FEE_MANAGER_ID: u64 = 2;

pub const ROLE_DISPUTE_MGR_ID: u64 = 3;

pub const ROLE_UPGRADER_ID: u64 = 4;

/// The id under which the members of a role are kept. Unknown roles share one id.
pub open spec fn role_id(role: Seq<char>) -> u64 {
    if role == ROLE_ADMIN@ {
        ROLE_ADMIN_ID
    } else if role == ROLE_PAUSER@ {
        ROLE_PAUSER_ID
    } else if role == ROLE_FEE_MANAGER@ {
        ROLE_FEE_MANAGER_ID
    } else if role == ROLE_DISPUTE_MGR@ {
        ROLE_DISPUTE_MGR_ID
    } else if role == ROLE_UPGRADER@ {
        ROLE_UPGRADER_ID
    } else {
        u64::MAX
    }
}

/// The id under which the members of `role` are kept.
pub fn role_to_id(role: &Symbol) -> (r: u64)
    ensures
        r == role_id(role@),
{
    if role.is(ROLE_ADMIN) {
        ROLE_ADMIN_ID
    } else if role.is(ROLE_PAUSER) {
        ROLE_PAUSER_ID
    } else if role.is(ROLE_FEE_MANAGER) {
        ROLE_FEE_MANAGER_ID
    } else if role.is(ROLE_DISPUTE_MGR) {
        ROLE_DISPUTE_MGR_ID
    } else if role.is(ROLE_UPGRADER) {
        ROLE_UPGRADER_ID
    } else {
        u64::MAX
    }
}

/// Protocol configuration.
#[derive(Debug, PartialEq, Eq)]
pub struct Config {
    /// Protocol fee in basis points, at most [`MAX_FEE_BPS`].
    pub fee_bps: u32,
    /// Who receives the protocol fee.
    pub fee_recipient: Address,
}

impl Clone for Config {
    fn clone(&self) -> (r: Self)
        ensures
            r == *self,
    {
        Config { fee_bps: self.fee_bps, fee_recipient: self.fee_recipient.clone() }
    }
}

/// Funds locked until they are released or paid back.
#[derive(Debug, PartialEq, Eq)]
pub struct Escrow {
    /// Who funded the escrow (the payer).
    pub from: Address,
    /// Who receives the funds on release (the worker).
    pub to: Address,
    /// Token contract.
    pub token: Address,
    /// Amount in the token's smallest unit.
    pub amount: i128,
    /// Time from which the payer may cancel.
    pub expiry: u64,
    /// Whether the funds went to `to`.
    pub released: bool,
    /// Whether the funds went back to `from`.
    pub cancelled: bool,
    /// Whether arbitration has been requested.
    pub arbitration_requested: bool,
}

impl Clone for Escrow {
    fn clone(&self) -> (r: Self)
        ensures
            r == *self,
    {
        Escrow {
            from: self.from.clone(),
            to: self.to.clone(),
            token: self.token.clone(),
            amount: self.amount,
            expiry: self.expiry,
            released: self.released,
            cancelled: self.cancelled,
            arbitration_requested: self.arbitration_requested,
        }
    }
}

impl View for Escrow {
    type V = Escrow;

    open spec fn view(&self) -> Escrow {
        *self
    }
}

/// A dispute over an escrow.
#[derive(Debug, PartialEq, Eq)]
pub struct Arbitration {
    /// The disputed escrow.
    pub escrow_id: Symbol,
    /// Who requested arbitration.
    pub requester: Address,
    /// Who decides.
    pub arbitrator: Address,
    /// Fee that the requester paid.
    pub fee: i128,
    /// Whether the arbitrator has decided.
    pub resolved: bool,
}

impl Clone for Arbitration {
    fn clone(&self) -> (r: Self)
        ensures
            r == *self,
    {
        Arbitration {
            escrow_id: self.escrow_id.clone(),
            requester: self.requester.clone(),
            arbitrator: self.arbitrator.clone(),
            fee: self.fee,
            resolved: self.resolved,
        }
    }
}

impl View for Arbitration {
    type V = Arbitration;

    open spec fn view(&self) -> Arbitration {
        *self
    }
}

/// Funds locked until `threshold` of the signers have approved their release.
#[derive(Debug, PartialEq, Eq)]
pub struct MultiSigEscrow {
    /// Who funded the escrow.
    pub from: Address,
    /// Who receives the funds on release.
    pub to: Address,
    /// Token contract.
    pub token: Address,
    /// Amount in the token's smallest unit.
    pub amount: i128,
    /// Time from which `from` may cancel.
    pub expiry: u64,
    /// Who may approve the release.
    pub signers: Vec<Address>,
    /// Number of approvals that release the funds.
    pub threshold: u32,
    /// Who has approved.
    pub approvals: Vec<Address>,
    /// Whether the funds went to `to`.
    pub released: bool,
    /// Whether the funds went back to `from`.
    pub cancelled: bool,
}

/// What a [`MultiSigEscrow`] stands for.
#[verifier::ext_equal]
pub struct MultiSigView {
    pub from: Address,
    pub to: Address,
    pub token: Address,
    pub amount: i128,
    pub expiry: u64,
    pub signers: Seq<Address>,
    pub threshold: u32,
    pub approvals: Seq<Address>,
    pub released: bool,
    pub cancelled: bool,
}

impl View for MultiSigEscrow {
    type V = MultiSigView;

    open spec fn view(&self) -> MultiSigView {
        MultiSigView {
            from: self.from,
            to: self.to,
            token: self.token,
            amount: self.amount,
            expiry: self.expiry,
            signers: self.signers@,
            threshold: self.threshold,
            approvals: self.approvals@,
            released: self.released,
            cancelled: self.cancelled,
        }
    }
}

impl Clone for MultiSigEscrow {
    fn clone(&self) -> (r: Self)
        ensures
            r@ == self@,
    {
        MultiSigEscrow {
            from: self.from.clone(),
            to: self.to.clone(),
            token: self.token.clone(),
            amount: self.amount,
            expiry: self.expiry,
            signers: list::copy(&self.signers),
            threshold: self.threshold,
            approvals: list::copy(&self.approvals),
            released: self.released,
            cancelled: self.cancelled,
        }
    }
}

impl MultiSigView {
    /// Whether the funds are still locked.
    pub open spec fn active(self) -> bool {
        !self.released && !self.cancelled
    }

    /// Only signers have approved, each at most once; funds that were not released lack an
    /// approval.
    pub open spec fn wf(self) -> bool {
        &&& self.amount > 0
        &&& 0 < self.threshold <= self.signers.len()
        &&& self.approvals.len() <= self.threshold
        &&& !self.released ==> self.approvals.len() < self.threshold
        &&& forall|i: int|
            0 <= i < self.approvals.len() ==> holds(self.signers, #[trigger] self.approvals[i]@)
        &&& forall|i: int, j: int|
            0 <= i < j < self.approvals.len() ==> #[trigger] self.approvals[i]@
                != #[trigger] self.approvals[j]@
    }
}

/// Entries of the contract's storage.
#[derive(Debug, PartialEq, Eq)]
pub enum DataKey {
    /// Configuration.
    Config,
    /// Paused flag.
    Paused,
    /// Admin address.
    Admin,
    /// Members of a role.
    RoleMembers(u64),
    /// An escrow.
    Escrow(Symbol),
    /// A multi-signature escrow.
    MultiSigEscrow(Symbol),
    /// A dispute, under the id of the escrow.
    Arbitration(Symbol),
    /// Approved arbitrators.
    Arbitrators,
    /// Version of the storage schema.
    SchemaVersion,
}

/// The market contract, with what it keeps in storage.
#[derive(Debug)]
pub struct MarketContract {
    pub config: Option<Config>,
    pub paused: bool,
    pub admin: Option<Address>,
    pub roles: Roles,
    pub escrows: Table<Symbol, Escrow>,
    pub multisig: Table<Symbol, MultiSigEscrow>,
    pub arbitrations: Table<Symbol, Arbitration>,
    pub arbitrators: Vec<Address>,
    pub schema_version: Option<u32>,
}

/// What a [`MarketContract`] stands for.
#[verifier::ext_equal]
pub struct MarketState {
    pub config: Option<Config>,
    pub paused: bool,
    pub admin: Option<Address>,
    pub roles: Map<u64, Seq<Address>>,
    pub escrows: Map<Seq<char>, Escrow>,
    pub multisig: Map<Seq<char>, MultiSigView>,
    pub arbitrations: Map<Seq<char>, Arbitration>,
    pub arbitrators: Seq<Address>,
    pub schema_version: Option<u32>,
}

impl View for MarketContract {
    type V = MarketState;

    open spec fn view(&self) -> MarketState {
        MarketState {
            config: self.config,
            paused: self.paused,
            admin: self.admin,
            roles: self.roles@,
            escrows: self.escrows@,
            multisig: self.multisig@,
            arbitrations: self.arbitrations@,
            arbitrators: self.arbitrators@,
            schema_version: self.schema_version,
        }
    }
}

impl Escrow {
    /// Whether the funds are still locked.
    pub open spec fn active(self) -> bool {
        !self.released && !self.cancelled
    }

    /// Whether `who` is the payer or the worker.
    pub open spec fn is_party(self, who: Seq<char>) -> bool {
        self.from@ == who || self.to@ == who
    }
}

impl MarketState {
    /// The fee never exceeds [`MAX_FEE_BPS`], locked amounts are positive, and multi-signature
    /// escrows are well-formed.
    pub open spec fn wf(self) -> bool {
        &&& self.config matches Some(c) ==> c.fee_bps <= MAX_FEE_BPS
        &&& self.escrows.dom().finite()
        &&& self.multisig.dom().finite()
        &&& forall|id: Seq<char>| #[trigger]
            self.escrows.contains_key(id) ==> self.escrows[id].amount > 0
        &&& forall|id: Seq<char>| #[trigger]
            self.multisig.contains_key(id) ==> self.multisig[id].wf()
    }

    /// What an entry point answers that needs nothing but the configuration.
    pub open spec fn configured(self) -> Result<(), ContractError> {
        refuse_if(self.config is None, ContractError::NotInitialized)
    }

    /// What an entry point answers that needs nothing but an admin.
    pub open spec fn has_admin(self) -> Result<(), ContractError> {
        refuse_if(self.admin is None, ContractError::NotInitialized)
    }

    /// What an entry point answers that needs nothing but an admin, and is refused while paused.
    pub open spec fn admin_verdict(self) -> Result<(), ContractError> {
        both(self.has_admin(), pause_verdict(self.paused))
    }

    /// The authorisation that is demanded of the admin, where there is one.
    pub open spec fn admin_auth(self) -> Seq<Call<DataKey>> {
        match self.admin {
            Some(admin) => seq![Call::RequireAuth(admin)],
            None => seq![],
        }
    }

    /// The version of the storage schema; the first, where none was written.
    pub open spec fn version(self) -> u32 {
        match self.schema_version {
            Some(v) => v,
            None => 1,
        }
    }
}

/// The fee's transfer and its event, where a fee is due.
pub open spec fn fee_calls(token: Address, from: Address, config: Config, amount: i128) -> Seq<
    Call<DataKey>,
> {
    let fee = fee_of(amount as int, config.fee_bps as int);
    if fee > 0 {
        seq![
            Call::Transfer { token, from, to: config.fee_recipient, amount: fee as i128 },
            fee_taken(config.fee_recipient, fee),
        ]
    } else {
        seq![]
    }
}

/// The transfers of `amount` from `from`: what is left of it goes to `to`, the fee to its
/// recipient.
pub open spec fn split_calls(
    token: Address,
    from: Address,
    to: Address,
    config: Config,
    amount: i128,
) -> Seq<Call<DataKey>> {
    let net = net_of(amount as int, config.fee_bps as int);
    seq![Call::Transfer { token, from, to, amount: net as i128 }] + fee_calls(
        token,
        from,
        config,
        amount,
    )
}

impl MarketContract {
    /// The contract as it is deployed.
    pub fn new() -> (r: Self)
        ensures
            r@.wf(),
            r@ == (MarketState {
                config: None,
                paused: false,
                admin: None,
                roles: Map::empty(),
                escrows: Map::empty(),
                multisig: Map::empty(),
                arbitrations: Map::empty(),
                arbitrators: seq![],
                schema_version: None,
            }),
    {
        MarketContract {
            config: None,
            paused: false,
            admin: None,
            roles: Table::new(),
            escrows: Table::new(),
            multisig: Table::new(),
            arbitrations: Table::new(),
            arbitrators: Vec::new(),
            schema_version: None,
        }
    }
}

} // verus!

//! What holds of the market contract whatever is asked of it.
//!
//! [`Op`] lists the entry points that can change the state or move tokens. [`MarketState::after`]
//! and [`MarketState::moves`] put together what their contracts say.

use vstd::prelude::*;

use super::arbitration::{request_calls, resolve_calls};
use super::escrow::{create_calls, new_escrow, refund_calls, release_calls, tip_calls};
use super::multisig::{
    approve_calls, cancel_multisig_calls, create_multisig_calls, request_multisig_calls,
    resolve_multisig_calls,
};
use super::{
    role_id, split_calls, Config, DataKey, Escrow, MarketState, MultiSigView, MAX_FEE_BPS,
    ROLE_ADMIN, ROLE_ADMIN_ID, ROLE_DISPUTE_MGR, ROLE_FEE_MANAGER, ROLE_PAUSER, ROLE_PAUSER_ID,
    ROLE_UPGRADER,
};
use crate::error::ContractError;
use crate::fees::{fee_of, lemma_fee_bounds, net_of};
use crate::host::Call;
use crate::ledger::{
    flow, lemma_flow_concat, lemma_flow_none, lemma_flow_one, lemma_total_insert, total,
};
use crate::list::{holds, lemma_with_holds, lemma_without_keeps, lemma_without_removes};
use crate::roles::{is_member, members, role_verdict};
use crate::values::{Address, Symbol};

verus! {

/// A call of an entry point that can change the state or move tokens.
pub ghost enum Op {
    Initialize { admin: Address, fee_bps: u32, fee_recipient: Address },
    UpdateFee { fee_bps: u32 },
    SetTreasury { caller: Address, treasury: Address },
    GrantRole { caller: Address, role: Symbol, account: Address },
    RevokeRole { caller: Address, role: Symbol, account: Address },
    Pause { caller: Address },
    Unpause { caller: Address },
    SetAdmin { new_admin: Address },
    Migrate { caller: Address, expected_version: u32 },
    Tip { from: Address, to: Address, token: Address, amount: i128 },
    CreateEscrow {
        id: Symbol,
        from: Address,
        to: Address,
        token: Address,
        amount: i128,
        expiry: u64,
    },
    ReleaseEscrow { id: Symbol, caller: Address },
    CancelEscrow { id: Symbol, caller: Address },
    CancelExpiredEscrow { id: Symbol },
    BatchRelease { caller: Address, ids: Seq<Symbol> },
    CreateMultiSig {
        id: Symbol,
        from: Address,
        to: Address,
        token: Address,
        amount: i128,
        expiry: u64,
        signers: Seq<Address>,
        threshold: u32,
    },
    ApproveMultiSig { id: Symbol, caller: Address },
    CancelMultiSig { id: Symbol, caller: Address },
    RequestMultiSigArbitration {
        id: Symbol,
        caller: Address,
        arbitrator: Address,
        fee: i128,
    },
    ResolveMultiSigArbitration { id: Symbol, arbitrator: Address, release_to_worker: bool },
    AddArbitrator { arbitrator: Address },
    RemoveArbitrator { arbitrator: Address },
    RequestArbitration { id: Symbol, caller: Address, arbitrator: Address, fee: i128 },
    ResolveArbitration { id: Symbol, arbitrator: Address, release_to_worker: bool },
}

/// The multi-signature escrow that is put in place.
pub open spec fn new_multisig(
    from: Address,
    to: Address,
    token: Address,
    amount: i128,
    expiry: u64,
    signers: Seq<Address>,
    threshold: u32,
) -> MultiSigView {
    MultiSigView {
        from,
        to,
        token,
        amount,
        expiry,
        signers,
        threshold,
        approvals: seq![],
        released: false,
        cancelled: false,
    }
}

impl MarketState {
    /// What the call `op` is answered at the time `now`.
    pub open spec fn verdict(self, op: Op, now: u64) -> Result<(), ContractError> {
        match op {
            Op::Initialize { fee_bps, .. } => self.initialize_verdict(fee_bps),
            Op::UpdateFee { fee_bps } => self.update_fee_verdict(fee_bps),
            Op::SetTreasury { caller, .. } => self.set_treasury_verdict(caller@),
            Op::GrantRole { caller, .. } => self.grant_verdict(caller@),
            Op::RevokeRole { caller, role, account } => self.revoke_verdict(
                caller@,
                role@,
                account@,
            ),
            Op::Pause { caller } => role_verdict(self.roles, ROLE_PAUSER_ID, caller@),
            Op::Unpause { caller } => role_verdict(self.roles, ROLE_PAUSER_ID, caller@),
            Op::SetAdmin { .. } => self.admin_verdict(),
            Op::Migrate { caller, expected_version } => self.migrate_verdict(
                caller@,
                expected_version,
            ),
            Op::Tip { amount, .. } => self.tip_verdict(amount),
            Op::CreateEscrow { id, amount, .. } => self.create_verdict(id@, amount),
            Op::ReleaseEscrow { id, caller } => self.release_verdict(id@, caller@),
            Op::CancelEscrow { id, caller } => self.cancel_verdict(id@, caller@, now),
            Op::CancelExpiredEscrow { id } => self.cancel_expired_verdict(id@, now),
            Op::BatchRelease { ids, .. } => self.batch_verdict(ids.len()),
            Op::CreateMultiSig { id, amount, signers, threshold, .. } =>
                self.create_multisig_verdict(id@, amount, signers.len(), threshold),
            Op::ApproveMultiSig { id, caller } => self.approve_verdict(id@, caller@),
            Op::CancelMultiSig { id, caller } => self.cancel_multisig_verdict(id@, caller@, now),
            Op::RequestMultiSigArbitration { id, caller, arbitrator, .. } =>
                self.request_multisig_verdict(id@, caller@, arbitrator@),
            Op::ResolveMultiSigArbitration { id, arbitrator, .. } =>
                self.resolve_multisig_verdict(id@, arbitrator@),
            Op::AddArbitrator { .. } => self.admin_verdict(),
            Op::RemoveArbitrator { .. } => self.admin_verdict(),
            Op::RequestArbitration { id, caller, arbitrator, .. } => self.request_verdict(
                id@,
                caller@,
                arbitrator@,
            ),
            Op::ResolveArbitration { id, arbitrator, .. } => self.resolve_verdict(
                id@,
                arbitrator@,
            ),
        }
    }

    /// The state after the call `op` at the time `now`.
    pub open spec fn after(self, op: Op, now: u64) -> MarketState {
        if self.verdict(op, now) is Err {
            self
        } else {
            match op {
                Op::Initialize { admin, fee_bps, fee_recipient } => self.initialized(
                    admin,
                    fee_bps,
                    fee_recipient,
                ),
                Op::UpdateFee { fee_bps } => self.with_fee(fee_bps),
                Op::SetTreasury { treasury, .. } => self.with_treasury(treasury),
                Op::GrantRole { role, account, .. } => self.granted(role@, account),
                Op::RevokeRole { role, account, .. } => self.revoked(role@, account@),
                Op::Pause { .. } => self.with_paused(true),
                Op::Unpause { .. } => self.with_paused(false),
                Op::SetAdmin { new_admin } => self.with_admin(new_admin),
                Op::Migrate { expected_version, .. } => self.with_version(
                    (expected_version + 1) as u32,
                ),
                Op::Tip { .. } => self,
                Op::CreateEscrow { id, from, to, token, amount, expiry } => self.with_escrow(
                    id@,
                    new_escrow(from, to, token, amount, expiry),
                ),
                Op::ReleaseEscrow { id, .. } => self.with_released(id@),
                Op::CancelEscrow { id, .. } => self.with_cancelled(id@),
                Op::CancelExpiredEscrow { id } => self.with_cancelled(id@),
                Op::BatchRelease { caller, ids } => self.batch_released(caller@, ids),
                Op::CreateMultiSig { id, from, to, token, amount, expiry, signers, threshold } =>
                    self.with_multisig(
                        id@,
                        new_multisig(from, to, token, amount, expiry, signers, threshold),
                    ),
                Op::ApproveMultiSig { id, caller } => self.with_multisig(
                    id@,
                    self.multisig[id@].approved_by(caller),
                ),
                Op::CancelMultiSig { id, .. } => self.with_multisig(
                    id@,
                    self.multisig[id@].decided(false),
                ),
                Op::RequestMultiSigArbitration { id, caller, arbitrator, fee } =>
                    self.with_dispute(id, caller, arbitrator, fee),
                Op::ResolveMultiSigArbitration { id, release_to_worker, .. } =>
                    self.with_multisig(
                        id@,
                        self.multisig[id@].decided(release_to_worker),
                    ).with_resolved(id@),
                Op::AddArbitrator { arbitrator } => self.with_arbitrator(arbitrator),
                Op::RemoveArbitrator { arbitrator } => self.without_arbitrator(arbitrator@),
                Op::RequestArbitration { id, caller, arbitrator, fee } => self.with_escrow(
                    id@,
                    Escrow { arbitration_requested: true, ..self.escrows[id@] },
                ).with_dispute(id, caller, arbitrator, fee),
                Op::ResolveArbitration { id, release_to_worker, .. } => self.with_decision(
                    id@,
                    release_to_worker,
                ).with_resolved(id@),
            }
        }
    }

    /// What the call `op` asks of the host where tokens move; nothing, where none do.
    pub open spec fn moves(self, op: Op, now: u64, contract: Address) -> Seq<Call<DataKey>> {
        if self.verdict(op, now) is Err {
            seq![]
        } else {
            match op {
                Op::Tip { from, to, token, amount } => tip_calls(
                    from,
                    to,
                    token,
                    amount,
                    self.config->0,
                ),
                Op::CreateEscrow { id, from, to, token, amount, expiry } => create_calls(
                    contract,
                    id,
                    new_escrow(from, to, token, amount, expiry),
                ),
                Op::ReleaseEscrow { id, caller } => release_calls(
                    contract,
                    caller,
                    id,
                    self.escrows[id@],
                    self.config->0,
                ),
                Op::CancelEscrow { id, caller } => seq![Call::RequireAuth(caller)] + refund_calls(
                    "EscCnl",
                    contract,
                    id,
                    self.escrows[id@],
                ),
                Op::CancelExpiredEscrow { id } => refund_calls(
                    "EscExp",
                    contract,
                    id,
                    self.escrows[id@],
                ),
                Op::BatchRelease { caller, ids } => seq![Call::RequireAuth(caller)]
                    + self.batch_calls(contract, self.due(caller@, ids)),
                Op::CreateMultiSig { id, from, to, token, amount, expiry, signers, threshold } =>
                    create_multisig_calls(
                        contract,
                        id,
                        new_multisig(from, to, token, amount, expiry, signers, threshold),
                    ),
                Op::ApproveMultiSig { id, caller } => approve_calls(
                    contract,
                    caller,
                    id,
                    self.multisig[id@],
                ),
                Op::CancelMultiSig { id, caller } => cancel_multisig_calls(
                    contract,
                    caller,
                    id,
                    self.multisig[id@],
                ),
                Op::RequestMultiSigArbitration { id, caller, arbitrator, fee } =>
                    request_multisig_calls(
                        caller,
                        arbitrator,
                        id,
                        self.multisig[id@].token,
                        fee,
                    ),
                Op::ResolveMultiSigArbitration { id, arbitrator, release_to_worker } =>
                    resolve_multisig_calls(
                        contract,
                        arbitrator,
                        id,
                        self.multisig[id@],
                        release_to_worker,
                    ),
                Op::RequestArbitration { id, caller, arbitrator, fee } => request_calls(
                    caller,
                    arbitrator,
                    id,
                    self.escrows[id@].token,
                    fee,
                ),
                Op::ResolveArbitration { id, arbitrator, release_to_worker } => resolve_calls(
                    contract,
                    arbitrator,
                    id,
                    self.escrows[id@],
                    release_to_worker,
                ),
                _ => seq![],
            }
        }
    }

    /// What is locked in the contract of `token`.
    pub open spec fn locked(self, token: Seq<char>) -> int {
        total(self.escrows, claim(token)) + total(self.multisig, multisig_claim(token))
    }
}

/// What an escrow claims of `token`: its amount, while it is active.
pub open spec fn claim(token: Seq<char>) -> spec_fn(Escrow) -> int {
    |e: Escrow|
        if e.token@ == token && e.active() {
            e.amount as int
        } else {
            0
        }
}

/// What a multi-signature escrow claims of `token`: its amount, while it is active.
pub open spec fn multisig_claim(token: Seq<char>) -> spec_fn(MultiSigView) -> int {
    |e: MultiSigView|
        if e.token@ == token && e.active() {
            e.amount as int
        } else {
            0
        }
}

/// Whether the contract's own account pays for `op`.
pub open spec fn paid_by_contract(op: Op, contract: Address) -> bool {
    match op {
        Op::Tip { from, .. } => from@ == contract@,
        Op::CreateEscrow { from, .. } => from@ == contract@,
        Op::CreateMultiSig { from, .. } => from@ == contract@,
        Op::RequestArbitration { caller, .. } => caller@ == contract@,
        Op::RequestMultiSigArbitration { caller, .. } => caller@ == contract@,
        _ => false,
    }
}

/// Whether `op` asks for a transfer of a negative amount, which tokens refuse.
pub open spec fn moves_negative(op: Op) -> bool {
    match op {
        Op::RequestArbitration { fee, .. } => fee < 0,
        _ => false,
    }
}

/// Whether `op` decides a dispute over the escrow `id`.
pub open spec fn decides(op: Op, id: Seq<char>) -> bool {
    match op {
        Op::ResolveArbitration { id: decided, .. } => decided@ == id,
        _ => false,
    }
}

/// Whether `op` decides a dispute over an escrow whose funds have already gone.
pub open spec fn decides_late(s: MarketState, op: Op) -> bool {
    match op {
        Op::ResolveArbitration { id, .. } => !s.escrows[id@].active(),
        _ => false,
    }
}

/// No call takes the state out of its bounds: the fee stays at or below the cap, locked amounts
/// are positive, and only signers of a multi-signature escrow have approved, each once.
pub proof fn every_call_keeps_the_bounds(s: MarketState, op: Op, now: u64)
    requires
        s.wf(),
    ensures
        s.after(op, now).wf(),
{
    let t = s.after(op, now);
    if s.verdict(op, now) is Ok {
        match op {
            Op::BatchRelease { caller, ids } => {
                assert(t.escrows.dom() =~= s.escrows.dom());
            },
            Op::ApproveMultiSig { id, caller } => {
                let e = s.multisig[id@];
                let f = e.approved_by(caller);
                assert(e.wf());
                assert forall|i: int, j: int| 0 <= i < j < f.approvals.len() implies #[trigger]
                f.approvals[i]@ != #[trigger] f.approvals[j]@ by {
                    assert(f.approvals[i] == e.approvals[i]);
                    if j < e.approvals.len() {
                        assert(f.approvals[j] == e.approvals[j]);
                    } else {
                        assert(f.approvals[j] == caller);
                    }
                }
                assert(f.wf());
            },
            _ => {},
        }
    }
}

/// Once initialised, the contract stays so: no later call removes the configuration or the
/// admin, and none is allowed to initialise again.
pub proof fn initialised_once(s: MarketState, op: Op, now: u64)
    requires
        s.config is Some,
        s.admin is Some,
    ensures
        s.after(op, now).config is Some,
        s.after(op, now).admin is Some,
        op is Initialize ==> s.verdict(op, now) == Err::<(), ContractError>(
            ContractError::AlreadyInitialized,
        ),
{
}

/// Initialising makes the given address the admin, and a member of the admin's role.
pub proof fn initialising_gives_the_admin_role(
    s: MarketState,
    admin: Address,
    fee_bps: u32,
    fee_recipient: Address,
)
    ensures
        s.initialized(admin, fee_bps, fee_recipient).admin == Some(admin),
        is_member(
            s.initialized(admin, fee_bps, fee_recipient).roles,
            ROLE_ADMIN_ID,
            admin@,
        ),
{
    let m = members(s.initialized(admin, fee_bps, fee_recipient).roles, ROLE_ADMIN_ID);
    assert(m[0]@ == admin@);
}

/// The terms of an escrow never change: no call changes its parties, token, amount or expiry, or
/// deletes it.
pub proof fn escrow_terms_never_change(s: MarketState, op: Op, now: u64, id: Seq<char>)
    requires
        s.escrows.contains_key(id),
    ensures
        s.after(op, now).escrows.contains_key(id),
        ({
            let e = s.after(op, now).escrows[id];
            e == (Escrow {
                released: e.released,
                cancelled: e.cancelled,
                arbitration_requested: e.arbitration_requested,
                ..s.escrows[id]
            })
        }),
{
}

/// An escrow whose funds have gone stays as it is, whatever is called, unless an arbitrator
/// decides a dispute over it.
pub proof fn escrow_is_final(s: MarketState, op: Op, now: u64, id: Seq<char>)
    requires
        s.escrows.contains_key(id),
        !s.escrows[id].active(),
        !decides(op, id),
    ensures
        s.after(op, now).escrows.contains_key(id),
        s.after(op, now).escrows[id] == s.escrows[id],
{
}

/// An escrow whose funds have gone is not released, cancelled or batch-released again.
pub proof fn gone_funds_are_not_paid_again(s: MarketState, id: Seq<char>, now: u64)
    requires
        s.escrows.contains_key(id),
        !s.escrows[id].active(),
    ensures
        forall|caller: Seq<char>| #[trigger] s.release_verdict(id, caller) is Err,
        forall|caller: Seq<char>| #[trigger] s.cancel_verdict(id, caller, now) is Err,
        s.cancel_expired_verdict(id, now) is Err,
        forall|caller: Seq<char>| !#[trigger] s.releasable(caller, id),
        forall|caller: Seq<char>, arbitrator: Seq<char>|
            #[trigger] s.request_verdict(id, caller, arbitrator) is Err,
{
}

/// A multi-signature escrow whose funds have gone never changes again, whatever is called.
pub proof fn multisig_is_final(s: MarketState, op: Op, now: u64, id: Seq<char>)
    requires
        s.multisig.contains_key(id),
        !s.multisig[id].active(),
    ensures
        s.after(op, now).multisig.contains_key(id),
        s.after(op, now).multisig[id] == s.multisig[id],
{
}

/// The terms of a multi-signature escrow never change: no call changes its parties, token,
/// amount, expiry, signers or threshold, withdraws an approval, or deletes it.
pub proof fn multisig_terms_never_change(s: MarketState, op: Op, now: u64, id: Seq<char>)
    requires
        s.multisig.contains_key(id),
    ensures
        s.after(op, now).multisig.contains_key(id),
        ({
            let e = s.multisig[id];
            let f = s.after(op, now).multisig[id];
            &&& f == (MultiSigView {
                approvals: f.approvals,
                released: f.released,
                cancelled: f.cancelled,
                ..e
            })
            &&& e.approvals.is_prefix_of(f.approvals)
        }),
{
}

/// Approvals release a multi-signature escrow exactly when their number reaches the threshold:
/// one fewer never does.
pub proof fn released_at_the_threshold(s: MarketState, id: Seq<char>, caller: Address)
    requires
        s.wf(),
        s.approve_verdict(id, caller@) is Ok,
    ensures
        ({
            let e = s.multisig[id];
            let f = e.approved_by(caller);
            &&& f.approvals.len() == e.approvals.len() + 1
            &&& f.released <==> f.approvals.len() == f.threshold
        }),
{
    assert(s.multisig[id].wf());
}

/// Who is no signer, or has approved already, is refused.
pub proof fn only_signers_approve_once(s: MarketState, id: Seq<char>, caller: Seq<char>)
    requires
        s.multisig.contains_key(id),
    ensures
        !holds(s.multisig[id].signers, caller) || holds(s.multisig[id].approvals, caller)
            ==> s.approve_verdict(id, caller) is Err,
{
}

/// Funds are never stuck: while the contract is not paused and is configured, payer and worker
/// can release an active escrow at any time, the payer can cancel it once it has expired, and
/// then anyone can have it paid back.
pub proof fn active_escrow_can_be_settled(s: MarketState, id: Seq<char>, who: Seq<char>, now: u64)
    requires
        !s.paused,
        s.config is Some,
        s.escrows.contains_key(id),
        s.escrows[id].active(),
    ensures
        s.release_verdict(id, who) is Ok <==> s.escrows[id].is_party(who),
        s.cancel_verdict(id, who, now) is Ok <==> (who == s.escrows[id].from@ && now
            >= s.escrows[id].expiry),
        s.cancel_expired_verdict(id, now) is Ok <==> now >= s.escrows[id].expiry,
{
}

/// While the contract is paused, every call that changes the state, but initialising, pausing and
/// unpausing, is refused and changes nothing. Whoever needs no role for it is told that the
/// contract is paused.
pub proof fn paused_refuses(s: MarketState, op: Op, now: u64)
    requires
        s.paused,
    ensures
        !(op is Initialize || op is Pause || op is Unpause) ==> s.verdict(op, now) is Err && s.after(
            op,
            now,
        ) == s,
        op is Tip || op is CreateEscrow || op is ReleaseEscrow || op is CancelEscrow
            || op is CancelExpiredEscrow || op is BatchRelease || op is CreateMultiSig
            || op is ApproveMultiSig || op is CancelMultiSig || op is RequestMultiSigArbitration
            || op is ResolveMultiSigArbitration || op is RequestArbitration
            || op is ResolveArbitration ==> s.verdict(op, now) == Err::<(), ContractError>(
            ContractError::ContractIsPaused,
        ),
{
}

/// A granted role is held, and nobody else's membership of any role changes.
pub proof fn granting_gives_the_role(s: MarketState, role: Seq<char>, account: Address)
    ensures
        is_member(s.granted(role, account).roles, role_id(role), account@),
        forall|id: u64, who: Seq<char>|
            id != role_id(role) || who != account@ ==> #[trigger] is_member(
                s.granted(role, account).roles,
                id,
                who,
            ) == is_member(s.roles, id, who),
{
    let m = members(s.roles, role_id(role));
    lemma_with_holds(m, account, account@);
    assert forall|id: u64, who: Seq<char>| id != role_id(role) || who != account@ implies #[trigger]
    is_member(s.granted(role, account).roles, id, who) == is_member(s.roles, id, who) by {
        lemma_with_holds(m, account, who);
    }
}

/// A revoked role is not held, and nobody else's membership of any role changes.
pub proof fn revoking_takes_the_role(s: MarketState, role: Seq<char>, account: Seq<char>)
    ensures
        !is_member(s.revoked(role, account).roles, role_id(role), account),
        forall|id: u64, who: Seq<char>|
            id != role_id(role) || who != account ==> #[trigger] is_member(
                s.revoked(role, account).roles,
                id,
                who,
            ) == is_member(s.roles, id, who),
{
    let m = members(s.roles, role_id(role));
    lemma_without_removes(m, account);
    assert forall|id: u64, who: Seq<char>| id != role_id(role) || who != account implies #[trigger]
    is_member(s.revoked(role, account).roles, id, who) == is_member(s.roles, id, who) by {
        if id == role_id(role) {
            lemma_without_keeps(m, account, who);
        }
    }
}

/// Handing on the admin's place hands on the role: the new admin holds it, the old one, unless
/// the same, does not, and nobody else's membership changes.
pub proof fn admin_role_follows_the_admin(s: MarketState, new_admin: Address)
    requires
        s.admin is Some,
    ensures
        s.with_admin(new_admin).admin == Some(new_admin),
        is_member(s.with_admin(new_admin).roles, ROLE_ADMIN_ID, new_admin@),
        s.admin->0@ != new_admin@ ==> !is_member(
            s.with_admin(new_admin).roles,
            ROLE_ADMIN_ID,
            s.admin->0@,
        ),
        forall|id: u64, who: Seq<char>|
            id != ROLE_ADMIN_ID || (who != new_admin@ && who != s.admin->0@) ==> #[trigger]
            is_member(s.with_admin(new_admin).roles, id, who) == is_member(s.roles, id, who),
{
    let m = members(s.roles, ROLE_ADMIN_ID);
    let old_admin = s.admin->0@;
    let w = crate::list::without(m, old_admin);
    lemma_without_removes(m, old_admin);
    lemma_with_holds(w, new_admin, new_admin@);
    lemma_with_holds(w, new_admin, old_admin);
    assert forall|id: u64, who: Seq<char>|
        id != ROLE_ADMIN_ID || (who != new_admin@ && who != old_admin) implies #[trigger] is_member(
        s.with_admin(new_admin).roles,
        id,
        who,
    ) == is_member(s.roles, id, who) by {
        if id == ROLE_ADMIN_ID {
            lemma_with_holds(w, new_admin, who);
            lemma_without_keeps(m, old_admin, who);
        }
    }
}

/// The roles have ids of their own; no other name shares one of these.
pub proof fn role_ids_are_distinct(name: Seq<char>)
    ensures
        role_id(ROLE_ADMIN@) == super::ROLE_ADMIN_ID,
        role_id(ROLE_PAUSER@) == super::ROLE_PAUSER_ID,
        role_id(ROLE_FEE_MANAGER@) == super::ROLE_FEE_MANAGER_ID,
        role_id(ROLE_DISPUTE_MGR@) == super::ROLE_DISPUTE_MGR_ID,
        role_id(ROLE_UPGRADER@) == super::ROLE_UPGRADER_ID,
        name != ROLE_ADMIN@ && name != ROLE_PAUSER@ && name != ROLE_FEE_MANAGER@ && name
            != ROLE_DISPUTE_MGR@ && name != ROLE_UPGRADER@ <==> role_id(name) == u64::MAX,
        ROLE_ADMIN@ == "admin"@,
        ROLE_PAUSER@ == "pauser"@,
        ROLE_FEE_MANAGER@ == "fee_mgr"@,
        ROLE_DISPUTE_MGR@ == "dispute_mgr"@,
        ROLE_UPGRADER@ == "upgrader"@,
        super::ROLE_ADMIN_ID != super::ROLE_PAUSER_ID,
        super::ROLE_ADMIN_ID != super::ROLE_FEE_MANAGER_ID,
        super::ROLE_ADMIN_ID != super::ROLE_DISPUTE_MGR_ID,
        super::ROLE_ADMIN_ID != super::ROLE_UPGRADER_ID,
        super::ROLE_PAUSER_ID != super::ROLE_FEE_MANAGER_ID,
        super::ROLE_PAUSER_ID != super::ROLE_DISPUTE_MGR_ID,
        super::ROLE_PAUSER_ID != super::ROLE_UPGRADER_ID,
        super::ROLE_FEE_MANAGER_ID != super::ROLE_DISPUTE_MGR_ID,
        super::ROLE_FEE_MANAGER_ID != super::ROLE_UPGRADER_ID,
        super::ROLE_DISPUTE_MGR_ID != super::ROLE_UPGRADER_ID,
{
    reveal_strlit("admin");
    reveal_strlit("pauser");
    reveal_strlit("fee_mgr");
    reveal_strlit("dispute_mgr");
    reveal_strlit("upgrader");
    assert(ROLE_ADMIN@.len() == 5);
    assert(ROLE_PAUSER@.len() == 6);
    assert(ROLE_FEE_MANAGER@.len() == 7);
    assert(ROLE_DISPUTE_MGR@.len() == 11);
    assert(ROLE_UPGRADER@.len() == 8);
}

/// A migration moves the schema on by one version, changes nothing else, and cannot be run
/// again from the same version.
pub proof fn migrating_bumps_the_version(s: MarketState, caller: Seq<char>, version: u32)
    requires
        s.migrate_verdict(caller, version) is Ok,
        version < u32::MAX,
    ensures
        ({
            let t = s.with_version((version + 1) as u32);
            &&& t.version() == s.version() + 1
            &&& t == (MarketState { schema_version: t.schema_version, ..s })
            &&& t.migrate_verdict(caller, version) == Err::<(), ContractError>(
                ContractError::WrongSchemaVersion,
            )
        }),
{
}

/// An approved arbitrator can be chosen, a dismissed one cannot, and nobody else is affected.
pub proof fn arbitrators_are_approved_and_dismissed(
    s: MarketState,
    arbitrator: Address,
    who: Seq<char>,
)
    ensures
        holds(s.with_arbitrator(arbitrator).arbitrators, arbitrator@),
        !holds(s.without_arbitrator(arbitrator@).arbitrators, arbitrator@),
        who != arbitrator@ ==> holds(s.with_arbitrator(arbitrator).arbitrators, who) == holds(
            s.arbitrators,
            who,
        ) && holds(s.without_arbitrator(arbitrator@).arbitrators, who) == holds(
            s.arbitrators,
            who,
        ),
        s.with_arbitrator(arbitrator).with_arbitrator(arbitrator) == s.with_arbitrator(arbitrator),
{
    lemma_with_holds(s.arbitrators, arbitrator, arbitrator@);
    lemma_with_holds(s.arbitrators, arbitrator, who);
    lemma_without_removes(s.arbitrators, arbitrator@);
    if who != arbitrator@ {
        lemma_without_keeps(s.arbitrators, arbitrator@, who);
    }
    assert(s.with_arbitrator(arbitrator).with_arbitrator(arbitrator) =~= s.with_arbitrator(
        arbitrator,
    ));
}

/// A dispute is decided once: when it is, no further decision is let in, and no call but a new
/// request changes it.
pub proof fn dispute_is_decided_once(s: MarketState, op: Op, now: u64, id: Seq<char>)
    requires
        s.arbitrations.contains_key(id),
        s.arbitrations[id].resolved,
    ensures
        forall|who: Seq<char>| #[trigger] s.resolve_verdict(id, who) is Err,
        forall|who: Seq<char>| #[trigger] s.resolve_multisig_verdict(id, who) is Err,
        !(op is RequestArbitration && op->RequestArbitration_id@ == id) ==> {
            &&& s.after(op, now).arbitrations.contains_key(id)
            &&& s.after(op, now).arbitrations[id] == s.arbitrations[id]
        },
{
}

/// A batch pays each escrow at most once: a second batch of the same ids releases nothing.
pub proof fn batch_again_releases_nothing(s: MarketState, caller: Seq<char>, ids: Seq<Symbol>)
    ensures
        s.batch_released(caller, ids).due(caller, ids) == Seq::<Symbol>::empty(),
{
    lemma_none_due(s.batch_released(caller, ids), caller, ids, ids, s);
}

proof fn lemma_none_due(
    t: MarketState,
    caller: Seq<char>,
    part: Seq<Symbol>,
    ids: Seq<Symbol>,
    s: MarketState,
)
    requires
        t == s.batch_released(caller, ids),
        part.is_prefix_of(ids),
    ensures
        t.due(caller, part) == Seq::<Symbol>::empty(),
    decreases part.len(),
{
    if part.len() > 0 {
        let before = part.drop_last();
        assert(before =~= ids.take(before.len() as int));
        lemma_none_due(t, caller, before, ids, s);
        let id = part.last();
        assert(ids[part.len() - 1] == id);
        assert(holds(ids, id@)) by {
            assert(ids[part.len() - 1]@ == id@);
        }
        assert(!t.releasable(caller, id@));
    }
}

/// A batch releases just the escrows that its caller could release one by one, and leaves all
/// others alone.
pub proof fn batch_releases_what_can_be_released(
    s: MarketState,
    caller: Seq<char>,
    ids: Seq<Symbol>,
    id: Seq<char>,
)
    requires
        !s.paused,
        s.config is Some,
        s.escrows.contains_key(id),
    ensures
        ({
            let t = s.batch_released(caller, ids);
            if holds(ids, id) && s.release_verdict(id, caller) is Ok {
                t.escrows[id] == s.with_released(id).escrows[id]
            } else {
                t.escrows[id] == s.escrows[id]
            }
        }),
{
}

/// The parts of a tip add up: the sender is out the amount, of which the fee is at most one
/// twentieth and the worker gets the rest.
pub proof fn tipping_splits_the_amount(
    s: MarketState,
    from: Address,
    to: Address,
    token: Address,
    amount: i128,
)
    requires
        s.wf(),
        s.tip_verdict(amount) is Ok,
        from@ != to@,
        from@ != s.config->0.fee_recipient@,
        to@ != s.config->0.fee_recipient@,
    ensures
        ({
            let calls = tip_calls(from, to, token, amount, s.config->0);
            let fee = fee_of(amount as int, s.config->0.fee_bps as int);
            &&& flow(calls, token@, from@) == -amount
            &&& flow(calls, token@, to@) == amount - fee
            &&& flow(calls, token@, s.config->0.fee_recipient@) == fee
            &&& 0 <= fee * 20 <= amount
            &&& amount - fee > 0
        }),
{
    let c = s.config->0;
    lemma_fee_bounds(amount as int, c.fee_bps as int);
    lemma_tip_flow(from, to, token, amount, c, token@, from@);
    lemma_tip_flow(from, to, token, amount, c, token@, to@);
    lemma_tip_flow(from, to, token, amount, c, token@, c.fee_recipient@);
    assert(amount * c.fee_bps <= amount * 500) by (nonlinear_arith)
        requires
            amount > 0,
            c.fee_bps <= 500,
    ;
}

/// What a transfer in two parts gives `who`.
pub open spec fn split_gain(
    token: Address,
    from: Address,
    to: Address,
    c: Config,
    amount: i128,
    t: Seq<char>,
    who: Seq<char>,
) -> int {
    let fee = fee_of(amount as int, c.fee_bps as int);
    let net = net_of(amount as int, c.fee_bps as int);
    if token@ == t {
        (if to@ == who {
            net
        } else {
            0
        }) + (if c.fee_recipient@ == who {
            fee
        } else {
            0
        }) - (if from@ == who {
            amount as int
        } else {
            0
        })
    } else {
        0
    }
}

proof fn lemma_split_flow(
    token: Address,
    from: Address,
    to: Address,
    c: Config,
    amount: i128,
    t: Seq<char>,
    who: Seq<char>,
)
    requires
        amount > 0,
        c.fee_bps <= MAX_FEE_BPS,
    ensures
        flow(split_calls(token, from, to, c, amount), t, who) == split_gain(
            token,
            from,
            to,
            c,
            amount,
            t,
            who,
        ),
{
    lemma_fee_bounds(amount as int, c.fee_bps as int);
    let calls = split_calls(token, from, to, c, amount);
    reveal_with_fuel(flow, 4);
    if fee_of(amount as int, c.fee_bps as int) > 0 {
        assert(calls.len() == 3);
        assert(calls.drop_last().drop_last().drop_last() =~= Seq::empty());
    } else {
        assert(calls.len() == 1);
        assert(calls.drop_last() =~= Seq::empty());
    }
}

proof fn lemma_tip_flow(
    from: Address,
    to: Address,
    token: Address,
    amount: i128,
    c: Config,
    t: Seq<char>,
    who: Seq<char>,
)
    requires
        amount > 0,
        c.fee_bps <= MAX_FEE_BPS,
    ensures
        flow(tip_calls(from, to, token, amount, c), t, who) == split_gain(
            token,
            from,
            to,
            c,
            amount,
            t,
            who,
        ),
{
    let a: Seq<Call<DataKey>> = seq![Call::RequireAuth(from)];
    let b = split_calls(token, from, to, c, amount);
    let calls = tip_calls(from, to, token, amount, c);
    assert(calls.drop_last() =~= a + b);
    lemma_flow_concat(a, b, t, who);
    lemma_split_flow(token, from, to, c, amount, t, who);
    lemma_flow_none(a, t, who);
}

proof fn lemma_release_flow(
    contract: Address,
    caller: Address,
    id: Symbol,
    e: Escrow,
    c: Config,
    t: Seq<char>,
    who: Seq<char>,
)
    requires
        e.amount > 0,
        c.fee_bps <= MAX_FEE_BPS,
    ensures
        flow(release_calls(contract, caller, id, e, c), t, who) == split_gain(
            e.token,
            contract,
            e.to,
            c,
            e.amount,
            t,
            who,
        ),
{
    let a: Seq<Call<DataKey>> = seq![Call::RequireAuth(caller)];
    let b = split_calls(e.token, contract, e.to, c, e.amount);
    let calls = release_calls(contract, caller, id, e, c);
    assert(calls.drop_last().drop_last() =~= a + b);
    lemma_flow_concat(a, b, t, who);
    lemma_split_flow(e.token, contract, e.to, c, e.amount, t, who);
    lemma_flow_none(a, t, who);
    reveal_with_fuel(flow, 3);
}

/// Releasing an escrow pays it out in full: the worker gets the amount less the fee, the fee's
/// recipient the fee.
pub proof fn releasing_splits_the_amount(
    s: MarketState,
    contract: Address,
    caller: Address,
    id: Symbol,
)
    requires
        s.wf(),
        s.release_verdict(id@, caller@) is Ok,
        contract@ != s.escrows[id@].to@,
        contract@ != s.config->0.fee_recipient@,
        s.escrows[id@].to@ != s.config->0.fee_recipient@,
    ensures
        ({
            let e = s.escrows[id@];
            let calls = release_calls(contract, caller, id, e, s.config->0);
            let fee = fee_of(e.amount as int, s.config->0.fee_bps as int);
            &&& flow(calls, e.token@, contract@) == -e.amount
            &&& flow(calls, e.token@, e.to@) == e.amount - fee
            &&& flow(calls, e.token@, s.config->0.fee_recipient@) == fee
        }),
{
    let e = s.escrows[id@];
    let c = s.config->0;
    lemma_release_flow(contract, caller, id, e, c, e.token@, contract@);
    lemma_release_flow(contract, caller, id, e, c, e.token@, e.to@);
    lemma_release_flow(contract, caller, id, e, c, e.token@, c.fee_recipient@);
}

/// What a batch pays out is no more than what it unlocks.
proof fn lemma_batch_covered(
    s: MarketState,
    caller: Seq<char>,
    ids: Seq<Symbol>,
    contract: Address,
    token: Seq<char>,
)
    requires
        s.wf(),
    ensures
        s.batch_escrows(caller, ids).dom().finite(),
        total(s.batch_escrows(caller, ids), claim(token)) - total(s.escrows, claim(token)) <= flow(
            s.batch_calls(contract, s.due(caller, ids)),
            token,
            contract@,
        ),
    decreases ids.len(),
{
    assert(s.batch_escrows(caller, ids).dom() =~= s.escrows.dom());
    if ids.len() == 0 {
        assert(s.batch_escrows(caller, ids) =~= s.escrows);
    } else {
        let before = ids.drop_last();
        let id = ids.last();
        lemma_batch_covered(s, caller, before, contract, token);
        let m0 = s.batch_escrows(caller, before);
        let m1 = s.batch_escrows(caller, ids);
        assert forall|k: Seq<char>| #[trigger] holds(ids, k) == (holds(before, k) || k == id@) by {
            if holds(before, k) {
                let j = choose|j: int| 0 <= j < before.len() && #[trigger] before[j]@ == k;
                assert(ids[j]@ == k);
            }
            if k == id@ {
                assert(ids[ids.len() - 1]@ == k);
            }
            if holds(ids, k) {
                let j = choose|j: int| 0 <= j < ids.len() && #[trigger] ids[j]@ == k;
                if j < before.len() {
                    assert(before[j]@ == k);
                }
            }
        }
        if s.releasable(caller, id@) && !holds(before, id@) {
            let e = s.escrows[id@];
            let released = Escrow { released: true, ..e };
            assert(m1 =~= m0.insert(id@, released));
            assert(m0[id@] == e);
            lemma_total_insert(m0, claim(token), id@, released);
            let due0 = s.due(caller, before);
            let due1 = s.due(caller, ids);
            assert(due1 == due0.push(id));
            assert(due1.drop_last() =~= due0);
            let c0 = s.batch_calls(contract, due0);
            let c1 = s.batch_calls(contract, due1);
            assert(c1.drop_last().drop_last().drop_last() =~= c0);
            reveal_with_fuel(flow, 4);
        } else {
            assert(m1 =~= m0);
        }
    }
}

/// The contract's holdings cover what is locked: no call that the contract's own account does
/// not pay for raises what is locked by more than the contract receives, or pays out more than
/// is unlocked. Left out are transfers of negative amounts, and the decision of a dispute over
/// an escrow whose funds have already gone.
pub proof fn locked_funds_are_covered(
    s: MarketState,
    op: Op,
    now: u64,
    contract: Address,
    token: Seq<char>,
)
    requires
        s.wf(),
        !paid_by_contract(op, contract),
        !moves_negative(op),
        !decides_late(s, op),
    ensures
        s.after(op, now).locked(token) - s.locked(token) <= flow(
            s.moves(op, now, contract),
            token,
            contract@,
        ),
{
    if s.verdict(op, now) is Ok {
        let calls = s.moves(op, now, contract);
        match op {
            Op::Tip { from, to, token: t, amount } => {
                lemma_fee_bounds(amount as int, s.config->0.fee_bps as int);
                lemma_tip_flow(from, to, t, amount, s.config->0, token, contract@);
            },
            Op::CreateEscrow { id, from, to, token: t, amount, expiry } => {
                let e = new_escrow(from, to, t, amount, expiry);
                lemma_total_insert(s.escrows, claim(token), id@, e);
                lemma_flow_one(calls, 1, token, contract@);
            },
            Op::ReleaseEscrow { id, caller } => {
                let e = s.escrows[id@];
                lemma_fee_bounds(e.amount as int, s.config->0.fee_bps as int);
                lemma_total_insert(s.escrows, claim(token), id@, Escrow { released: true, ..e });
                lemma_release_flow(contract, caller, id, e, s.config->0, token, contract@);
            },
            Op::CancelEscrow { id, .. } => {
                let e = s.escrows[id@];
                lemma_total_insert(s.escrows, claim(token), id@, Escrow { cancelled: true, ..e });
                lemma_flow_one(calls, 1, token, contract@);
            },
            Op::CancelExpiredEscrow { id } => {
                let e = s.escrows[id@];
                lemma_total_insert(s.escrows, claim(token), id@, Escrow { cancelled: true, ..e });
                lemma_flow_one(calls, 0, token, contract@);
            },
            Op::BatchRelease { caller, ids } => {
                lemma_batch_covered(s, caller@, ids, contract, token);
                let a: Seq<Call<DataKey>> = seq![Call::RequireAuth(caller)];
                let b = s.batch_calls(contract, s.due(caller@, ids));
                lemma_flow_concat(a, b, token, contract@);
                lemma_flow_none(a, token, contract@);
            },
            Op::CreateMultiSig { id, from, to, token: t, amount, expiry, signers, threshold } => {
                let e = new_multisig(from, to, t, amount, expiry, signers, threshold);
                lemma_total_insert(s.multisig, multisig_claim(token), id@, e);
                lemma_flow_one(calls, 1, token, contract@);
            },
            Op::ApproveMultiSig { id, caller } => {
                let e = s.multisig[id@];
                assert(e.wf());
                lemma_total_insert(s.multisig, multisig_claim(token), id@, e.approved_by(caller));
                if e.last_approval() {
                    lemma_flow_one(calls, 2, token, contract@);
                } else {
                    lemma_flow_none(calls, token, contract@);
                }
            },
            Op::CancelMultiSig { id, .. } => {
                let e = s.multisig[id@];
                lemma_total_insert(s.multisig, multisig_claim(token), id@, e.decided(false));
                lemma_flow_one(calls, 1, token, contract@);
            },
            Op::RequestMultiSigArbitration { fee, .. } => {
                if fee > 0 {
                    lemma_flow_one(calls, 1, token, contract@);
                } else {
                    lemma_flow_none(calls, token, contract@);
                }
            },
            Op::ResolveMultiSigArbitration { id, release_to_worker, .. } => {
                let e = s.multisig[id@];
                let f = e.decided(release_to_worker);
                assert(e.wf());
                lemma_total_insert(s.multisig, multisig_claim(token), id@, f);
                lemma_flow_one(calls, 1, token, contract@);
            },
            Op::RequestArbitration { id, .. } => {
                let f = Escrow { arbitration_requested: true, ..s.escrows[id@] };
                lemma_total_insert(s.escrows, claim(token), id@, f);
                lemma_flow_one(calls, 1, token, contract@);
            },
            Op::ResolveArbitration { id, .. } => {
                let e = s.escrows[id@];
                lemma_total_insert(s.escrows, claim(token), id@, Escrow { released: true, ..e });
                lemma_total_insert(s.escrows, claim(token), id@, Escrow { cancelled: true, ..e });
                lemma_flow_one(calls, 1, token, contract@);
            },
            _ => {},
        }
    }
}

/// The contract as it is deployed.
pub open spec fn deployed() -> MarketState {
    MarketState {
        config: None,
        paused: false,
        admin: None,
        roles: Map::empty(),
        escrows: Map::empty(),
        multisig: Map::empty(),
        arbitrations: Map::empty(),
        arbitrators: seq![],
        schema_version: None,
    }
}

/// The state after the calls in `ops`, each with its time, one after the other.
pub open spec fn run(ops: Seq<(Op, u64)>) -> MarketState
    decreases ops.len(),
{
    if ops.len() == 0 {
        deployed()
    } else {
        run(ops.drop_last()).after(ops.last().0, ops.last().1)
    }
}

/// What the calls in `ops` have brought the contract of `token`, all in all.
pub open spec fn received(ops: Seq<(Op, u64)>, contract: Address, token: Seq<char>) -> int
    decreases ops.len(),
{
    if ops.len() == 0 {
        0
    } else {
        received(ops.drop_last(), contract, token) + flow(
            run(ops.drop_last()).moves(ops.last().0, ops.last().1, contract),
            token,
            contract@,
        )
    }
}

/// Whether [`locked_funds_are_covered`] speaks of every call in `ops`.
pub open spec fn covered_calls(ops: Seq<(Op, u64)>, contract: Address) -> bool
    decreases ops.len(),
{
    ops.len() > 0 ==> {
        &&& covered_calls(ops.drop_last(), contract)
        &&& !paid_by_contract(ops.last().0, contract)
        &&& !moves_negative(ops.last().0)
        &&& !decides_late(run(ops.drop_last()), ops.last().0)
    }
}

/// Whatever has been called since the contract was deployed, the state is in its bounds.
pub proof fn every_history_keeps_the_bounds(ops: Seq<(Op, u64)>)
    ensures
        run(ops).wf(),
    decreases ops.len(),
{
    if ops.len() > 0 {
        every_history_keeps_the_bounds(ops.drop_last());
        every_call_keeps_the_bounds(run(ops.drop_last()), ops.last().0, ops.last().1);
    }
}

/// Whatever has been called since the contract was deployed, what is locked is covered by what
/// the contract has received, with the exceptions of [`locked_funds_are_covered`].
pub proof fn every_history_is_covered(ops: Seq<(Op, u64)>, contract: Address, token: Seq<char>)
    requires
        covered_calls(ops, contract),
    ensures
        run(ops).locked(token) <= received(ops, contract, token),
    decreases ops.len(),
{
    if ops.len() > 0 {
        every_history_is_covered(ops.drop_last(), contract, token);
        every_history_keeps_the_bounds(ops.drop_last());
        locked_funds_are_covered(
            run(ops.drop_last()),
            ops.last().0,
            ops.last().1,
            contract,
            token,
        );
    }
}

} // verus!

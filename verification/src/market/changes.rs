//! What is kept: how the calls of the market contract change its state, and what they leave alone.

use vstd::prelude::*;

use super::escrow::new_escrow;
use super::laws;
use super::laws::Op;
use super::{role_id, Config, Escrow, MarketState, MultiSigView, ROLE_ADMIN_ID};
use crate::list::holds;
use crate::roles::{is_member, members};
use crate::values::{Address, Symbol};

verus! {

/// Whether `s` and `t` differ in nothing but the escrow `id`.
pub open spec fn differ_in_escrow(s: MarketState, t: MarketState, id: Seq<char>) -> bool {
    &&& t == (MarketState { escrows: t.escrows, ..s })
    &&& t.escrows.contains_key(id)
    &&& forall|k: Seq<char>|
        k != id ==> #[trigger] t.escrows.contains_key(k) == s.escrows.contains_key(k)
            && t.escrows[k] == s.escrows[k]
}

/// Whether `s` and `t` differ in nothing but the multi-signature escrow `id`.
pub open spec fn differ_in_multisig(s: MarketState, t: MarketState, id: Seq<char>) -> bool {
    &&& t == (MarketState { multisig: t.multisig, ..s })
    &&& t.multisig.contains_key(id)
    &&& forall|k: Seq<char>|
        k != id ==> #[trigger] t.multisig.contains_key(k) == s.multisig.contains_key(k)
            && t.multisig[k] == s.multisig[k]
}

/// Whether `s` and `t` differ in nothing but the dispute over `id`.
pub open spec fn differ_in_dispute(s: MarketState, t: MarketState, id: Seq<char>) -> bool {
    &&& t == (MarketState { arbitrations: t.arbitrations, ..s })
    &&& t.arbitrations.contains_key(id)
    &&& forall|k: Seq<char>|
        k != id ==> #[trigger] t.arbitrations.contains_key(k) == s.arbitrations.contains_key(k)
            && t.arbitrations[k] == s.arbitrations[k]
}

/// An escrow is kept as it was asked for, with its funds locked and no dispute over it.
pub proof fn an_escrow_is_kept_as_asked_for(
    s: MarketState,
    id: Seq<char>,
    from: Address,
    to: Address,
    token: Address,
    amount: i128,
    expiry: u64,
)
    ensures
        ({
            let t = s.with_escrow(id, new_escrow(from, to, token, amount, expiry));
            let e = t.escrows[id];
            &&& differ_in_escrow(s, t, id)
            &&& e.from == from && e.to == to && e.token == token
            &&& e.amount == amount && e.expiry == expiry
            &&& !e.released && !e.cancelled && !e.arbitration_requested
        }),
{
}

/// A released escrow is marked released, a cancelled one cancelled, and nothing else changes. A
/// decision marks the escrow by the party that it names.
pub proof fn a_settled_escrow_is_marked(s: MarketState, id: Seq<char>, release_to_worker: bool)
    ensures
        ({
            let t = s.with_released(id);
            let u = s.with_cancelled(id);
            let d = s.with_decision(id, release_to_worker);
            let e = s.escrows[id];
            &&& differ_in_escrow(s, t, id)
            &&& t.escrows[id].released
            &&& t.escrows[id] == (Escrow { released: t.escrows[id].released, ..e })
            &&& differ_in_escrow(s, u, id)
            &&& u.escrows[id].cancelled
            &&& u.escrows[id] == (Escrow { cancelled: u.escrows[id].cancelled, ..e })
            &&& differ_in_escrow(s, d, id)
            &&& release_to_worker ==> d.escrows[id].released && d.escrows[id].cancelled
                == e.cancelled
            &&& !release_to_worker ==> d.escrows[id].cancelled && d.escrows[id].released
                == e.released
            &&& d.escrows[id] == (Escrow {
                released: d.escrows[id].released,
                cancelled: d.escrows[id].cancelled,
                ..e
            })
        }),
{
}

/// A batch marks as released just the escrows in it whose funds are still locked, and whose payer
/// or worker is the caller, and changes nothing else.
pub proof fn a_batch_marks_what_it_releases(
    s: MarketState,
    caller: Seq<char>,
    ids: Seq<Symbol>,
    id: Seq<char>,
)
    ensures
        ({
            let t = s.batch_released(caller, ids);
            let e = s.escrows[id];
            let due = holds(ids, id) && !e.released && !e.cancelled && (e.from@ == caller || e.to@
                == caller);
            &&& t == (MarketState { escrows: t.escrows, ..s })
            &&& t.escrows.contains_key(id) == s.escrows.contains_key(id)
            &&& s.escrows.contains_key(id) ==> t.escrows[id].released == (e.released || due)
            &&& s.escrows.contains_key(id) ==> t.escrows[id] == (Escrow {
                released: t.escrows[id].released,
                ..e
            })
        }),
{
}

/// An approval is added behind those that are there, and marks the escrow released just where it
/// reaches the threshold; a decision marks it by the party that it names. Nothing else of the
/// escrow changes, and no other escrow does.
pub proof fn approvals_and_decisions_are_kept(
    s: MarketState,
    id: Seq<char>,
    e: MultiSigView,
    caller: Address,
    release_to_worker: bool,
)
    requires
        e.wf(),
        e.active(),
    ensures
        ({
            let a = e.approved_by(caller);
            let d = e.decided(release_to_worker);
            &&& differ_in_multisig(s, s.with_multisig(id, a), id)
            &&& s.with_multisig(id, a).multisig[id] == a
            &&& a.approvals == e.approvals.push(caller)
            &&& a.released <==> e.approvals.len() + 1 == e.threshold
            &&& a == (MultiSigView { approvals: a.approvals, released: a.released, ..e })
            &&& d.released == release_to_worker
            &&& d.cancelled == !release_to_worker
            &&& d == (MultiSigView { released: d.released, cancelled: d.cancelled, ..e })
            &&& e.active() == (!e.released && !e.cancelled)
        }),
{
}

/// A dispute is kept as it was requested, not yet decided; deciding it changes just that.
pub proof fn a_dispute_is_kept_as_requested(
    s: MarketState,
    id: Symbol,
    requester: Address,
    arbitrator: Address,
    fee: i128,
    k: Seq<char>,
)
    ensures
        ({
            let t = s.with_dispute(id, requester, arbitrator, fee);
            let a = t.arbitrations[id@];
            let u = s.with_resolved(k);
            let b = u.arbitrations[k];
            &&& differ_in_dispute(s, t, id@)
            &&& a.escrow_id == id && a.requester == requester && a.arbitrator == arbitrator
            &&& a.fee == fee && !a.resolved
            &&& differ_in_dispute(s, u, k)
            &&& b.resolved
            &&& b.escrow_id == s.arbitrations[k].escrow_id
            &&& b.requester == s.arbitrations[k].requester
            &&& b.arbitrator == s.arbitrations[k].arbitrator
            &&& b.fee == s.arbitrations[k].fee
        }),
{
}

/// Initialising keeps fee, treasury and admin as given, the first schema version, and the admin as
/// the one member of the admin's role. It changes nothing else.
pub proof fn initialising_keeps_what_is_given(
    s: MarketState,
    admin: Address,
    fee_bps: u32,
    fee_recipient: Address,
)
    ensures
        ({
            let t = s.initialized(admin, fee_bps, fee_recipient);
            &&& t.config is Some && t.config->0.fee_bps == fee_bps && t.config->0.fee_recipient
                == fee_recipient
            &&& t.admin == Some(admin)
            &&& t.schema_version == Some(1u32)
            &&& members(t.roles, ROLE_ADMIN_ID) == seq![admin]
            &&& forall|r: u64|
                r != ROLE_ADMIN_ID ==> #[trigger] members(t.roles, r) == members(s.roles, r)
            &&& t == (MarketState {
                config: t.config,
                admin: t.admin,
                schema_version: t.schema_version,
                roles: t.roles,
                ..s
            })
        }),
{
}

/// Setting the fee, the treasury, the pause, the schema version, the arbitrators or the members of
/// a role sets just that, and the fee and the treasury leave each other alone.
pub proof fn settings_change_one_thing(
    s: MarketState,
    fee_bps: u32,
    who: Address,
    paused: bool,
    version: u32,
    role: Seq<char>,
)
    requires
        s.config is Some,
    ensures
        ({
            let f = s.with_fee(fee_bps);
            let t = s.with_treasury(who);
            let p = s.with_paused(paused);
            let v = s.with_version(version);
            let a = s.with_admin(who);
            let g = s.granted(role, who);
            let r = s.revoked(role, who@);
            let i = s.with_arbitrator(who);
            let o = s.without_arbitrator(who@);
            &&& f.config is Some && f.config->0.fee_bps == fee_bps && f.config->0.fee_recipient
                == s.config->0.fee_recipient
            &&& f == (MarketState { config: f.config, ..s })
            &&& t.config is Some && t.config->0.fee_recipient == who && t.config->0.fee_bps
                == s.config->0.fee_bps
            &&& t == (MarketState { config: t.config, ..s })
            &&& p.paused == paused
            &&& p == (MarketState { paused: p.paused, ..s })
            &&& v.schema_version == Some(version)
            &&& v == (MarketState { schema_version: v.schema_version, ..s })
            &&& a == (MarketState { admin: a.admin, roles: a.roles, ..s })
            &&& g == (MarketState { roles: g.roles, ..s })
            &&& r == (MarketState { roles: r.roles, ..s })
            &&& i == (MarketState { arbitrators: i.arbitrators, ..s })
            &&& o == (MarketState { arbitrators: o.arbitrators, ..s })
        }),
{
}

/// Every call that is let in keeps what it was given: the admin, the fee and the treasury, who
/// holds a role, who may arbitrate, the pause, the next version of the schema; an escrow with the
/// terms asked for; the mark of the party that got the funds; and who is to decide a dispute, and
/// that it was decided.
pub proof fn every_call_keeps_what_it_was_given(s: MarketState, op: Op, now: u64)
    requires
        s.wf(),
        s.verdict(op, now) is Ok,
    ensures
        ({
            let t = s.after(op, now);
            match op {
                Op::Initialize { admin, fee_bps, fee_recipient } => t.config == Some(
                    Config { fee_bps, fee_recipient },
                ) && t.admin == Some(admin),
                Op::UpdateFee { fee_bps } => t.config is Some && t.config->0.fee_bps == fee_bps,
                Op::SetTreasury { treasury, .. } => t.config is Some && t.config->0.fee_recipient
                    == treasury,
                Op::GrantRole { role, account, .. } => is_member(
                    t.roles,
                    role_id(role@),
                    account@,
                ),
                Op::RevokeRole { role, account, .. } => !is_member(
                    t.roles,
                    role_id(role@),
                    account@,
                ),
                Op::Pause { .. } => t.paused,
                Op::Unpause { .. } => !t.paused,
                Op::SetAdmin { new_admin } => t.admin == Some(new_admin) && is_member(
                    t.roles,
                    ROLE_ADMIN_ID,
                    new_admin@,
                ),
                Op::Migrate { expected_version, .. } => expected_version < u32::MAX
                    ==> t.schema_version is Some && t.schema_version->0 == expected_version + 1,
                Op::Tip { .. } => t == s,
                Op::CreateEscrow { id, from, to, token, amount, expiry } => {
                    let e = t.escrows[id@];
                    &&& t.escrows.contains_key(id@)
                    &&& e.from == from && e.to == to && e.token == token
                    &&& e.amount == amount && e.expiry == expiry
                    &&& !e.released && !e.cancelled && !e.arbitration_requested
                },
                Op::ReleaseEscrow { id, .. } => t.escrows[id@].released && !t.escrows[id@].cancelled,
                Op::CancelEscrow { id, .. } => t.escrows[id@].cancelled && !t.escrows[id@].released,
                Op::CancelExpiredEscrow { id } => t.escrows[id@].cancelled
                    && !t.escrows[id@].released,
                Op::BatchRelease { caller, ids } => forall|k: Seq<char>| #[trigger]
                    s.escrows.contains_key(k) && holds(ids, k) && !s.escrows[k].released
                        && !s.escrows[k].cancelled && (s.escrows[k].from@ == caller@
                        || s.escrows[k].to@ == caller@) ==> t.escrows[k].released,
                Op::CreateMultiSig { id, from, to, token, amount, expiry, signers, threshold } => {
                    let e = t.multisig[id@];
                    &&& t.multisig.contains_key(id@)
                    &&& e.from == from && e.to == to && e.token == token
                    &&& e.amount == amount && e.expiry == expiry
                    &&& e.signers == signers && e.threshold == threshold
                    &&& e.approvals.len() == 0 && !e.released && !e.cancelled
                },
                Op::ApproveMultiSig { id, caller } => {
                    let e = s.multisig[id@];
                    &&& t.multisig[id@].approvals == e.approvals.push(caller)
                    &&& t.multisig[id@].released <==> e.approvals.len() + 1 == e.threshold
                },
                Op::CancelMultiSig { id, .. } => t.multisig[id@].cancelled
                    && !t.multisig[id@].released,
                Op::RequestMultiSigArbitration { id, caller, arbitrator, fee } => {
                    let a = t.arbitrations[id@];
                    &&& t.arbitrations.contains_key(id@)
                    &&& a.escrow_id == id && a.requester == caller && a.arbitrator == arbitrator
                    &&& a.fee == fee && !a.resolved
                },
                Op::ResolveMultiSigArbitration { id, release_to_worker, .. } => {
                    &&& t.multisig[id@].released == release_to_worker
                    &&& t.multisig[id@].cancelled == !release_to_worker
                    &&& t.arbitrations[id@].resolved
                },
                Op::AddArbitrator { arbitrator } => holds(t.arbitrators, arbitrator@),
                Op::RemoveArbitrator { arbitrator } => !holds(t.arbitrators, arbitrator@),
                Op::RequestArbitration { id, caller, arbitrator, fee } => {
                    let a = t.arbitrations[id@];
                    &&& t.arbitrations.contains_key(id@)
                    &&& a.escrow_id == id && a.requester == caller && a.arbitrator == arbitrator
                    &&& a.fee == fee && !a.resolved
                    &&& t.escrows[id@].arbitration_requested
                },
                Op::ResolveArbitration { id, release_to_worker, .. } => {
                    &&& release_to_worker ==> t.escrows[id@].released
                    &&& !release_to_worker ==> t.escrows[id@].cancelled
                    &&& t.arbitrations[id@].resolved
                },
            }
        }),
{
    match op {
        Op::GrantRole { role, account, .. } => laws::granting_gives_the_role(s, role@, account),
        Op::RevokeRole { role, account, .. } => laws::revoking_takes_the_role(s, role@, account@),
        Op::SetAdmin { new_admin } => laws::admin_role_follows_the_admin(s, new_admin),
        Op::ApproveMultiSig { id, .. } => assert(s.multisig[id@].wf()),
        Op::AddArbitrator { arbitrator } => laws::arbitrators_are_approved_and_dismissed(
            s,
            arbitrator,
            arbitrator@,
        ),
        Op::RemoveArbitrator { arbitrator } => laws::arbitrators_are_approved_and_dismissed(
            s,
            arbitrator,
            arbitrator@,
        ),
        _ => {},
    }
}

/// Every call changes its own part of the state and leaves all else alone: another escrow, another
/// dispute, the settings.
pub proof fn every_call_leaves_the_rest_alone(s: MarketState, op: Op, now: u64)
    ensures
        ({
            let t = s.after(op, now);
            match op {
                Op::Initialize { .. } => t == (MarketState {
                    config: t.config,
                    admin: t.admin,
                    schema_version: t.schema_version,
                    roles: t.roles,
                    ..s
                }),
                Op::UpdateFee { .. } => t == (MarketState { config: t.config, ..s }),
                Op::SetTreasury { .. } => t == (MarketState { config: t.config, ..s }),
                Op::GrantRole { .. } => t == (MarketState { roles: t.roles, ..s }),
                Op::RevokeRole { .. } => t == (MarketState { roles: t.roles, ..s }),
                Op::Pause { .. } => t == (MarketState { paused: t.paused, ..s }),
                Op::Unpause { .. } => t == (MarketState { paused: t.paused, ..s }),
                Op::SetAdmin { .. } => t == (MarketState { admin: t.admin, roles: t.roles, ..s }),
                Op::Migrate { .. } => t == (MarketState {
                    schema_version: t.schema_version,
                    ..s
                }),
                Op::Tip { .. } => t == s,
                Op::CreateEscrow { id, .. } => t == s || differ_in_escrow(s, t, id@),
                Op::ReleaseEscrow { id, .. } => t == s || differ_in_escrow(s, t, id@),
                Op::CancelEscrow { id, .. } => t == s || differ_in_escrow(s, t, id@),
                Op::CancelExpiredEscrow { id } => t == s || differ_in_escrow(s, t, id@),
                Op::BatchRelease { ids, .. } => t == (MarketState { escrows: t.escrows, ..s })
                    && forall|k: Seq<char>|
                    !holds(ids, k) && s.escrows.contains_key(k) ==> #[trigger] t.escrows[k]
                        == s.escrows[k],
                Op::CreateMultiSig { id, .. } => t == s || differ_in_multisig(s, t, id@),
                Op::ApproveMultiSig { id, .. } => t == s || differ_in_multisig(s, t, id@),
                Op::CancelMultiSig { id, .. } => t == s || differ_in_multisig(s, t, id@),
                Op::RequestMultiSigArbitration { id, .. } => t == s || differ_in_dispute(s, t, id@),
                Op::ResolveMultiSigArbitration { id, .. } => t == s || (differ_in_multisig(
                    s,
                    MarketState { arbitrations: s.arbitrations, ..t },
                    id@,
                ) && differ_in_dispute(s, MarketState { multisig: s.multisig, ..t }, id@)),
                Op::AddArbitrator { .. } => t == (MarketState { arbitrators: t.arbitrators, ..s }),
                Op::RemoveArbitrator { .. } => t == (MarketState {
                    arbitrators: t.arbitrators,
                    ..s
                }),
                Op::RequestArbitration { id, .. } => t == s || (differ_in_escrow(
                    s,
                    MarketState { arbitrations: s.arbitrations, ..t },
                    id@,
                ) && differ_in_dispute(s, MarketState { escrows: s.escrows, ..t }, id@)),
                Op::ResolveArbitration { id, .. } => t == s || (differ_in_escrow(
                    s,
                    MarketState { arbitrations: s.arbitrations, ..t },
                    id@,
                ) && differ_in_dispute(s, MarketState { escrows: s.escrows, ..t }, id@)),
            }
        }),
{
}

} // verus!

//! Who is let in: for every call of the market contract, just when it is allowed, and with which
//! error it is refused otherwise.

use vstd::prelude::*;

use super::laws::Op;
use super::{
    role_id, MarketState, ROLE_ADMIN_ID, ROLE_FEE_MANAGER_ID, ROLE_PAUSER_ID, ROLE_UPGRADER_ID,
};
use crate::error::ContractError;
use crate::list::holds;
use crate::roles::is_member;

verus! {

/// Initialising is allowed once, with a fee of at most 500 basis points.
pub proof fn initialising_is_allowed_once(s: MarketState, fee_bps: u32)
    ensures
        match s.initialize_verdict(fee_bps) {
            Ok(_) => s.config is None && fee_bps <= 500,
            Err(ContractError::AlreadyInitialized) => s.config is Some,
            Err(ContractError::FeeBpsExceedsMaximum) => s.config is None && fee_bps > 500,
            Err(_) => false,
        },
{
}

/// The fee is set by an admin who holds the fee manager's role, to at most 500 basis points, while
/// the contract is configured and not paused.
pub proof fn the_fee_manager_sets_the_fee(s: MarketState, fee_bps: u32)
    ensures
        ({
            let manages = s.admin is Some && is_member(
                s.roles,
                ROLE_FEE_MANAGER_ID,
                s.admin->0@,
            );
            match s.update_fee_verdict(fee_bps) {
                Ok(_) => manages && !s.paused && fee_bps <= 500 && s.config is Some,
                Err(ContractError::NotInitialized) => s.admin is None || (manages && !s.paused
                    && fee_bps <= 500 && s.config is None),
                Err(ContractError::MissingRole) => s.admin is Some && !manages,
                Err(ContractError::ContractIsPaused) => manages && s.paused,
                Err(ContractError::FeeBpsExceedsMaximum) => manages && !s.paused && fee_bps > 500,
                Err(_) => false,
            }
        }),
{
}

/// Who holds the admin's role sets the treasury, grants and revokes roles and migrates, while the
/// contract is not paused. A role can be revoked only from who holds it, and the schema migrated
/// only from the version that it has.
pub proof fn the_admin_role_administers(
    s: MarketState,
    caller: Seq<char>,
    role: Seq<char>,
    account: Seq<char>,
    version: u32,
)
    ensures
        ({
            let allowed = is_member(s.roles, ROLE_ADMIN_ID, caller) && !s.paused;
            let refused = if is_member(s.roles, ROLE_ADMIN_ID, caller) {
                ContractError::ContractIsPaused
            } else {
                ContractError::MissingRole
            };
            let holds_it = is_member(s.roles, role_id(role), account);
            let current = if s.schema_version is Some {
                s.schema_version->0
            } else {
                1
            };
            &&& s.version() == current
            &&& match s.grant_verdict(caller) {
                Ok(_) => allowed,
                Err(e) => !allowed && e == refused,
            }
            &&& match s.revoke_verdict(caller, role, account) {
                Ok(_) => allowed && holds_it,
                Err(e) => if allowed {
                    !holds_it && e == ContractError::AccountDoesNotHoldRole
                } else {
                    e == refused
                },
            }
            &&& match s.set_treasury_verdict(caller) {
                Ok(_) => allowed && s.config is Some,
                Err(e) => if allowed {
                    s.config is None && e == ContractError::NotInitialized
                } else {
                    e == refused
                },
            }
            &&& match s.migrate_verdict(caller, version) {
                Ok(_) => allowed && version == current,
                Err(e) => if allowed {
                    version != current && e == ContractError::WrongSchemaVersion
                } else {
                    e == refused
                },
            }
        }),
{
}

/// What the admin alone may do needs an admin, and a contract that is not paused; replacing the
/// code needs an admin who holds the upgrader's role, and is allowed also while it is paused.
pub proof fn the_admin_is_needed(s: MarketState)
    ensures
        match s.has_admin() {
            Ok(_) => s.admin is Some,
            Err(ContractError::NotInitialized) => s.admin is None,
            Err(_) => false,
        },
        match s.configured() {
            Ok(_) => s.config is Some,
            Err(ContractError::NotInitialized) => s.config is None,
            Err(_) => false,
        },
        match s.admin_verdict() {
            Ok(_) => s.admin is Some && !s.paused,
            Err(ContractError::NotInitialized) => s.admin is None,
            Err(ContractError::ContractIsPaused) => s.admin is Some && s.paused,
            Err(_) => false,
        },
        match s.upgrade_verdict() {
            Ok(_) => s.admin is Some && is_member(s.roles, ROLE_UPGRADER_ID, s.admin->0@),
            Err(ContractError::NotInitialized) => s.admin is None,
            Err(ContractError::MissingRole) => s.admin is Some && !is_member(
                s.roles,
                ROLE_UPGRADER_ID,
                s.admin->0@,
            ),
            Err(_) => false,
        },
        s.admin is None ==> s.admin_auth().len() == 0,
        s.admin is Some ==> s.admin_auth().len() == 1 && s.admin_auth()[0]
            == crate::host::Call::<super::DataKey>::RequireAuth(s.admin->0),
{
}

/// Anyone may tip a positive amount, while the contract is configured and not paused.
pub proof fn anyone_may_tip(s: MarketState, amount: i128)
    ensures
        match s.tip_verdict(amount) {
            Ok(_) => !s.paused && amount > 0 && s.config is Some,
            Err(ContractError::ContractIsPaused) => s.paused,
            Err(ContractError::AmountMustBePositive) => !s.paused && amount <= 0,
            Err(ContractError::NotInitialized) => !s.paused && amount > 0 && s.config is None,
            Err(_) => false,
        },
{
}

/// Anyone may lock a positive amount under an id that is not in use, while the contract is not
/// paused.
pub proof fn anyone_may_lock(s: MarketState, id: Seq<char>, amount: i128)
    ensures
        match s.create_verdict(id, amount) {
            Ok(_) => !s.paused && amount > 0 && !s.escrows.contains_key(id),
            Err(ContractError::ContractIsPaused) => s.paused,
            Err(ContractError::AmountMustBePositive) => !s.paused && amount <= 0,
            Err(ContractError::EscrowAlreadyExists) => !s.paused && amount > 0
                && s.escrows.contains_key(id),
            Err(_) => false,
        },
{
}

/// Payer and worker may release an escrow whose funds are still locked, while the contract is
/// configured and not paused.
pub proof fn the_parties_may_release(s: MarketState, id: Seq<char>, caller: Seq<char>)
    ensures
        ({
            let e = s.escrows[id];
            let there = !s.paused && s.escrows.contains_key(id);
            let party = there && (e.from@ == caller || e.to@ == caller);
            match s.release_verdict(id, caller) {
                Ok(_) => party && !e.released && !e.cancelled && s.config is Some,
                Err(ContractError::ContractIsPaused) => s.paused,
                Err(ContractError::EscrowNotFound) => !s.paused && !s.escrows.contains_key(id),
                Err(ContractError::NotAuthorized) => there && !party,
                Err(ContractError::AlreadyReleased) => party && e.released,
                Err(ContractError::EscrowCancelled) => party && !e.released && e.cancelled,
                Err(ContractError::NotInitialized) => party && !e.released && !e.cancelled
                    && s.config is None,
                Err(_) => false,
            }
        }),
{
}

/// The payer may cancel an escrow whose funds are still locked from its expiry on, and not before,
/// while the contract is not paused.
pub proof fn the_payer_may_cancel_after_expiry(
    s: MarketState,
    id: Seq<char>,
    caller: Seq<char>,
    now: u64,
)
    ensures
        ({
            let e = s.escrows[id];
            let there = !s.paused && s.escrows.contains_key(id);
            let payer = there && e.from@ == caller;
            match s.cancel_verdict(id, caller, now) {
                Ok(_) => payer && !e.released && !e.cancelled && now >= e.expiry,
                Err(ContractError::ContractIsPaused) => s.paused,
                Err(ContractError::EscrowNotFound) => !s.paused && !s.escrows.contains_key(id),
                Err(ContractError::NotAuthorized) => there && !payer,
                Err(ContractError::AlreadyReleased) => payer && e.released,
                Err(ContractError::AlreadyCancelled) => payer && !e.released && e.cancelled,
                Err(ContractError::EscrowNotYetExpired) => payer && !e.released && !e.cancelled
                    && now < e.expiry,
                Err(_) => false,
            }
        }),
{
}

/// Anyone may have an escrow whose funds are still locked paid back from its expiry on, and not
/// before, while the contract is not paused.
pub proof fn anyone_may_cancel_after_expiry(s: MarketState, id: Seq<char>, now: u64)
    ensures
        ({
            let e = s.escrows[id];
            let there = !s.paused && s.escrows.contains_key(id);
            match s.cancel_expired_verdict(id, now) {
                Ok(_) => there && !e.released && !e.cancelled && now >= e.expiry,
                Err(ContractError::ContractIsPaused) => s.paused,
                Err(ContractError::EscrowNotFound) => !s.paused && !s.escrows.contains_key(id),
                Err(ContractError::EscrowNotActive) => there && (e.released || e.cancelled),
                Err(ContractError::EscrowNotYetExpired) => there && !e.released && !e.cancelled
                    && now < e.expiry,
                Err(_) => false,
            }
        }),
{
}

/// A batch has at most twenty ids.
pub proof fn a_batch_is_bounded(s: MarketState, count: nat)
    ensures
        match s.batch_verdict(count) {
            Ok(_) => !s.paused && count <= 20,
            Err(ContractError::ContractIsPaused) => s.paused,
            Err(ContractError::BatchTooLarge) => !s.paused && count > 20,
            Err(_) => false,
        },
{
}

/// Anyone may lock a positive amount for signers under an id that is not in use, where the
/// threshold is at least one and at most their number, while the contract is not paused.
pub proof fn anyone_may_lock_for_signers(
    s: MarketState,
    id: Seq<char>,
    amount: i128,
    signers: nat,
    threshold: u32,
)
    ensures
        match s.create_multisig_verdict(id, amount, signers, threshold) {
            Ok(_) => !s.paused && amount > 0 && !s.multisig.contains_key(id) && 1 <= threshold
                <= signers,
            Err(ContractError::ContractIsPaused) => s.paused,
            Err(ContractError::AmountMustBePositive) => !s.paused && amount <= 0,
            Err(ContractError::MultiSigEscrowAlreadyExists) => !s.paused && amount > 0
                && s.multisig.contains_key(id),
            Err(ContractError::InvalidThreshold) => !s.paused && amount > 0
                && !s.multisig.contains_key(id) && !(1 <= threshold <= signers),
            Err(_) => false,
        },
{
}

/// A signer who has not approved yet may approve the release of a multi-signature escrow whose
/// funds are still locked, while the contract is not paused.
pub proof fn the_signers_may_approve(s: MarketState, id: Seq<char>, caller: Seq<char>)
    ensures
        ({
            let e = s.multisig[id];
            let there = !s.paused && s.multisig.contains_key(id);
            let open = there && !e.released && !e.cancelled;
            match s.approve_verdict(id, caller) {
                Ok(_) => open && holds(e.signers, caller) && !holds(e.approvals, caller),
                Err(ContractError::ContractIsPaused) => s.paused,
                Err(ContractError::MultiSigEscrowNotFound) => !s.paused && !s.multisig.contains_key(
                    id,
                ),
                Err(ContractError::AlreadyReleased) => there && e.released,
                Err(ContractError::EscrowCancelled) => there && !e.released && e.cancelled,
                Err(ContractError::NotASigner) => open && !holds(e.signers, caller),
                Err(ContractError::AlreadyApproved) => open && holds(e.signers, caller) && holds(
                    e.approvals,
                    caller,
                ),
                Err(_) => false,
            }
        }),
{
}

/// The payer may cancel a multi-signature escrow whose funds are still locked from its expiry on,
/// and not before, while the contract is not paused.
pub proof fn the_payer_may_cancel_multisig_after_expiry(
    s: MarketState,
    id: Seq<char>,
    caller: Seq<char>,
    now: u64,
)
    ensures
        ({
            let e = s.multisig[id];
            let there = !s.paused && s.multisig.contains_key(id);
            let payer = there && e.from@ == caller;
            match s.cancel_multisig_verdict(id, caller, now) {
                Ok(_) => payer && !e.released && !e.cancelled && now >= e.expiry,
                Err(ContractError::ContractIsPaused) => s.paused,
                Err(ContractError::MultiSigEscrowNotFound) => !s.paused && !s.multisig.contains_key(
                    id,
                ),
                Err(ContractError::NotAuthorized) => there && !payer,
                Err(ContractError::AlreadyReleased) => payer && e.released,
                Err(ContractError::AlreadyCancelled) => payer && !e.released && e.cancelled,
                Err(ContractError::EscrowNotYetExpired) => payer && !e.released && !e.cancelled
                    && now < e.expiry,
                Err(_) => false,
            }
        }),
{
}

/// Payer and worker may request arbitration, once, by an approved arbitrator, over an escrow whose
/// funds are still locked, while the contract is not paused.
pub proof fn the_parties_may_request_arbitration(
    s: MarketState,
    id: Seq<char>,
    caller: Seq<char>,
    arbitrator: Seq<char>,
)
    ensures
        ({
            let e = s.escrows[id];
            let there = !s.paused && s.escrows.contains_key(id);
            let open = there && !e.released && !e.cancelled;
            let first = open && !e.arbitration_requested;
            let party = first && (e.from@ == caller || e.to@ == caller);
            match s.request_verdict(id, caller, arbitrator) {
                Ok(_) => party && holds(s.arbitrators, arbitrator),
                Err(ContractError::ContractIsPaused) => s.paused,
                Err(ContractError::EscrowNotFound) => !s.paused && !s.escrows.contains_key(id),
                Err(ContractError::EscrowFinalized) => there && !open,
                Err(ContractError::ArbitrationAlreadyRequested) => open && !first,
                Err(ContractError::NotAuthorized) => first && !party,
                Err(ContractError::InvalidArbitrator) => party && !holds(s.arbitrators, arbitrator),
                Err(_) => false,
            }
        }),
{
}

/// Payer and worker may request arbitration, once, by an approved arbitrator, over a
/// multi-signature escrow whose funds are still locked, while the contract is not paused.
pub proof fn the_parties_may_request_multisig_arbitration(
    s: MarketState,
    id: Seq<char>,
    caller: Seq<char>,
    arbitrator: Seq<char>,
)
    ensures
        ({
            let e = s.multisig[id];
            let there = !s.paused && s.multisig.contains_key(id);
            let party = there && (e.from@ == caller || e.to@ == caller);
            let open = party && !e.released && !e.cancelled;
            let first = open && !s.arbitrations.contains_key(id);
            match s.request_multisig_verdict(id, caller, arbitrator) {
                Ok(_) => first && holds(s.arbitrators, arbitrator),
                Err(ContractError::ContractIsPaused) => s.paused,
                Err(ContractError::MultiSigEscrowNotFound) => !s.paused && !s.multisig.contains_key(
                    id,
                ),
                Err(ContractError::NotAuthorized) => there && !party,
                Err(ContractError::EscrowFinalized) => party && !open,
                Err(ContractError::ArbitrationAlreadyRequested) => open && !first,
                Err(ContractError::InvalidArbitrator) => first && !holds(s.arbitrators, arbitrator),
                Err(_) => false,
            }
        }),
{
}

/// The arbitrator who was chosen, and nobody else, may decide a dispute over an escrow, once, while
/// the contract is not paused.
pub proof fn the_chosen_arbitrator_decides(s: MarketState, id: Seq<char>, caller: Seq<char>)
    ensures
        ({
            let a = s.arbitrations[id];
            let there = !s.paused && s.arbitrations.contains_key(id);
            let chosen = there && a.arbitrator@ == caller;
            match s.resolve_verdict(id, caller) {
                Ok(_) => chosen && !a.resolved && s.escrows.contains_key(id),
                Err(ContractError::ContractIsPaused) => s.paused,
                Err(ContractError::ArbitrationNotFound) => !s.paused && !s.arbitrations.contains_key(
                    id,
                ),
                Err(ContractError::NotAnArbitrator) => there && !chosen,
                Err(ContractError::AlreadyResolved) => chosen && a.resolved,
                Err(ContractError::EscrowNotFound) => chosen && !a.resolved
                    && !s.escrows.contains_key(id),
                Err(_) => false,
            }
        }),
{
}

/// The arbitrator who was chosen, and nobody else, may decide a dispute over a multi-signature
/// escrow whose funds are still locked, once, while the contract is not paused.
pub proof fn the_chosen_arbitrator_decides_over_multisig(
    s: MarketState,
    id: Seq<char>,
    caller: Seq<char>,
)
    ensures
        ({
            let a = s.arbitrations[id];
            let e = s.multisig[id];
            let there = !s.paused && s.arbitrations.contains_key(id);
            let chosen = there && a.arbitrator@ == caller;
            let known = chosen && !a.resolved && s.multisig.contains_key(id);
            match s.resolve_multisig_verdict(id, caller) {
                Ok(_) => known && !e.released && !e.cancelled,
                Err(ContractError::ContractIsPaused) => s.paused,
                Err(ContractError::ArbitrationNotFound) => !s.paused && !s.arbitrations.contains_key(
                    id,
                ),
                Err(ContractError::NotAnArbitrator) => there && !chosen,
                Err(ContractError::AlreadyResolved) => chosen && a.resolved,
                Err(ContractError::MultiSigEscrowNotFound) => chosen && !a.resolved
                    && !s.multisig.contains_key(id),
                Err(ContractError::EscrowFinalized) => known && (e.released || e.cancelled),
                Err(_) => false,
            }
        }),
{
}

/// Who may call what: every call is let in just where the caller has the part or the role that it
/// takes, what it names is there and still open, and the contract is configured and not paused, as
/// far as that matters.
pub proof fn every_call_is_let_in_just_where_it_may(s: MarketState, op: Op, now: u64)
    ensures
        ({
            let admin = s.admin is Some;
            s.verdict(op, now) is Ok <==> match op {
                Op::Initialize { fee_bps, .. } => s.config is None && fee_bps <= 500,
                Op::UpdateFee { fee_bps } => !s.paused && admin && is_member(
                    s.roles,
                    ROLE_FEE_MANAGER_ID,
                    s.admin->0@,
                ) && fee_bps <= 500 && s.config is Some,
                Op::SetTreasury { caller, .. } => !s.paused && is_member(
                    s.roles,
                    ROLE_ADMIN_ID,
                    caller@,
                ) && s.config is Some,
                Op::GrantRole { caller, .. } => !s.paused && is_member(
                    s.roles,
                    ROLE_ADMIN_ID,
                    caller@,
                ),
                Op::RevokeRole { caller, role, account } => !s.paused && is_member(
                    s.roles,
                    ROLE_ADMIN_ID,
                    caller@,
                ) && is_member(s.roles, role_id(role@), account@),
                Op::Pause { caller } => is_member(s.roles, ROLE_PAUSER_ID, caller@),
                Op::Unpause { caller } => is_member(s.roles, ROLE_PAUSER_ID, caller@),
                Op::SetAdmin { .. } => !s.paused && admin,
                Op::Migrate { caller, expected_version } => !s.paused && is_member(
                    s.roles,
                    ROLE_ADMIN_ID,
                    caller@,
                ) && s.version() == expected_version,
                Op::Tip { amount, .. } => !s.paused && amount > 0 && s.config is Some,
                Op::CreateEscrow { id, amount, .. } => !s.paused && amount > 0
                    && !s.escrows.contains_key(id@),
                Op::ReleaseEscrow { id, caller } => {
                    let e = s.escrows[id@];
                    !s.paused && s.escrows.contains_key(id@) && !e.released && !e.cancelled && (
                    e.from@ == caller@ || e.to@ == caller@) && s.config is Some
                },
                Op::CancelEscrow { id, caller } => {
                    let e = s.escrows[id@];
                    !s.paused && s.escrows.contains_key(id@) && !e.released && !e.cancelled
                        && e.from@ == caller@ && now >= e.expiry
                },
                Op::CancelExpiredEscrow { id } => {
                    let e = s.escrows[id@];
                    !s.paused && s.escrows.contains_key(id@) && !e.released && !e.cancelled && now
                        >= e.expiry
                },
                Op::BatchRelease { ids, .. } => !s.paused && ids.len() <= 20,
                Op::CreateMultiSig { id, amount, signers, threshold, .. } => !s.paused && amount > 0
                    && !s.multisig.contains_key(id@) && 1 <= threshold <= signers.len(),
                Op::ApproveMultiSig { id, caller } => {
                    let e = s.multisig[id@];
                    !s.paused && s.multisig.contains_key(id@) && !e.released && !e.cancelled
                        && holds(e.signers, caller@) && !holds(e.approvals, caller@)
                },
                Op::CancelMultiSig { id, caller } => {
                    let e = s.multisig[id@];
                    !s.paused && s.multisig.contains_key(id@) && !e.released && !e.cancelled
                        && e.from@ == caller@ && now >= e.expiry
                },
                Op::RequestMultiSigArbitration { id, caller, arbitrator, .. } => {
                    let e = s.multisig[id@];
                    !s.paused && s.multisig.contains_key(id@) && !e.released && !e.cancelled && (
                    e.from@ == caller@ || e.to@ == caller@) && !s.arbitrations.contains_key(id@)
                        && holds(s.arbitrators, arbitrator@)
                },
                Op::ResolveMultiSigArbitration { id, arbitrator, .. } => {
                    let e = s.multisig[id@];
                    let a = s.arbitrations[id@];
                    !s.paused && s.multisig.contains_key(id@) && !e.released && !e.cancelled
                        && s.arbitrations.contains_key(id@) && a.arbitrator@ == arbitrator@
                        && !a.resolved
                },
                Op::AddArbitrator { .. } => !s.paused && admin,
                Op::RemoveArbitrator { .. } => !s.paused && admin,
                Op::RequestArbitration { id, caller, arbitrator, .. } => {
                    let e = s.escrows[id@];
                    !s.paused && s.escrows.contains_key(id@) && !e.released && !e.cancelled && (
                    e.from@ == caller@ || e.to@ == caller@) && !e.arbitration_requested && holds(
                        s.arbitrators,
                        arbitrator@,
                    )
                },
                Op::ResolveArbitration { id, arbitrator, .. } => {
                    let a = s.arbitrations[id@];
                    !s.paused && s.escrows.contains_key(id@) && s.arbitrations.contains_key(id@)
                        && a.arbitrator@ == arbitrator@ && !a.resolved
                },
            }
        }),
{
}

} // verus!

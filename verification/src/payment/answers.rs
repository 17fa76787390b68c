//! Who is let in: for every call of the payment contract, just when it is allowed, and with which
//! error it is refused otherwise.

use vstd::prelude::*;

use super::{PaymentState, PaymentStatus, ROLE_ADMIN_ID, ROLE_FEE_MGR_ID};
use crate::error::ContractError;
use crate::roles::is_member;

verus! {

/// Initialising is allowed once, with a fee of at most 500 basis points.
pub proof fn initialising_is_allowed_once(s: PaymentState, fee_bps: u32)
    ensures
        match s.initialize_verdict(fee_bps) {
            Ok(_) => s.config is None && fee_bps <= 500,
            Err(ContractError::AlreadyInitialized) => s.config is Some,
            Err(ContractError::FeeBpsExceedsMaximum) => s.config is None && fee_bps > 500,
            Err(_) => false,
        },
{
}

/// Who holds the fee manager's role sets the fee, to at most 500 basis points; who holds the
/// admin's role sets the treasury. Both need a configured contract.
pub proof fn the_roles_configure(s: PaymentState, caller: Seq<char>, fee_bps: u32)
    ensures
        ({
            let manager = is_member(s.roles, ROLE_FEE_MGR_ID, caller);
            let admin = is_member(s.roles, ROLE_ADMIN_ID, caller);
            &&& s.is_admin(caller) == admin
            &&& match s.update_fee_verdict(caller, fee_bps) {
                Ok(_) => manager && fee_bps <= 500 && s.config is Some,
                Err(ContractError::MissingRole) => !manager,
                Err(ContractError::FeeBpsExceedsMaximum) => manager && fee_bps > 500,
                Err(ContractError::NotInitialized) => manager && fee_bps <= 500 && s.config is None,
                Err(_) => false,
            }
            &&& match s.set_treasury_verdict(caller) {
                Ok(_) => admin && s.config is Some,
                Err(ContractError::MissingRole) => !admin,
                Err(ContractError::NotInitialized) => admin && s.config is None,
                Err(_) => false,
            }
        }),
{
}

/// Anyone may pay a positive amount, while the contract is configured and not paused.
pub proof fn anyone_may_pay(s: PaymentState, amount: i128)
    ensures
        match s.pay_verdict(amount) {
            Ok(_) => !s.paused && amount > 0 && s.config is Some,
            Err(ContractError::ContractIsPaused) => s.paused,
            Err(ContractError::AmountMustBePositive) => !s.paused && amount <= 0,
            Err(ContractError::NotInitialized) => !s.paused && amount > 0 && s.config is None,
            Err(_) => false,
        },
{
}

/// Anyone may lock a positive amount under an id that is not in use, with an expiry to come, while
/// the contract is not paused.
pub proof fn anyone_may_lock(s: PaymentState, id: Seq<char>, amount: i128, expiry: u64, now: u64)
    ensures
        match s.lock_verdict(id, amount, expiry, now) {
            Ok(_) => !s.paused && amount > 0 && expiry > now && !s.payments.contains_key(id),
            Err(ContractError::ContractIsPaused) => s.paused,
            Err(ContractError::AmountMustBePositive) => !s.paused && amount <= 0,
            Err(ContractError::ExpiryMustBeInFuture) => !s.paused && amount > 0 && expiry <= now,
            Err(ContractError::AlreadyExists) => !s.paused && amount > 0 && expiry > now
                && s.payments.contains_key(id),
            Err(_) => false,
        },
{
}

/// The client or an admin may release a payment that is locked, while the contract is not paused.
pub proof fn client_and_admin_may_release(s: PaymentState, caller: Seq<char>, id: Seq<char>)
    ensures
        ({
            let p = s.payments[id];
            let there = !s.paused && s.payments.contains_key(id);
            let allowed = there && (p.client@ == caller || is_member(
                s.roles,
                ROLE_ADMIN_ID,
                caller,
            ));
            match s.release_verdict(caller, id) {
                Ok(_) => allowed && p.status == PaymentStatus::Locked,
                Err(ContractError::ContractIsPaused) => s.paused,
                Err(ContractError::PaymentNotFound) => !s.paused && !s.payments.contains_key(id),
                Err(ContractError::NotAuthorized) => there && !allowed,
                Err(ContractError::PaymentNotLocked) => allowed && p.status
                    != PaymentStatus::Locked,
                Err(_) => false,
            }
        }),
{
}

/// An admin may refund a payment that is locked at any time, its client from its expiry on, and
/// nobody else, while the contract is not paused.
pub proof fn admin_and_late_client_may_refund(
    s: PaymentState,
    caller: Seq<char>,
    id: Seq<char>,
    now: u64,
)
    ensures
        ({
            let p = s.payments[id];
            let there = !s.paused && s.payments.contains_key(id);
            let locked = there && p.status == PaymentStatus::Locked;
            let admin = is_member(s.roles, ROLE_ADMIN_ID, caller);
            match s.refund_verdict(caller, id, now) {
                Ok(_) => locked && (admin || (p.client@ == caller && now >= p.expiry)),
                Err(ContractError::ContractIsPaused) => s.paused,
                Err(ContractError::PaymentNotFound) => !s.paused && !s.payments.contains_key(id),
                Err(ContractError::PaymentNotLocked) => there && !locked,
                Err(ContractError::NotAuthorized) => locked && !admin && (p.client@ != caller || now
                    < p.expiry),
                Err(_) => false,
            }
        }),
{
}

} // verus!

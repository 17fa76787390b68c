//! Role membership.

use vstd::prelude::*;

use crate::error::ContractError;
use crate::host::{Call, Env};
use crate::list;
use crate::list::holds;
use crate::table::Table;
use crate::values::Address;

verus! {

/// The members of every role that has ever had one, by role id.
pub type Roles = Table<u64, Vec<Address>>;

/// The members of the role `id`.
pub open spec fn members(roles: Map<u64, Seq<Address>>, id: u64) -> Seq<Address> {
    if roles.contains_key(id) {
        roles[id]
    } else {
        Seq::empty()
    }
}

/// Whether `who` is a member of the role `id`.
pub open spec fn is_member(roles: Map<u64, Seq<Address>>, id: u64, who: Seq<char>) -> bool {
    holds(members(roles, id), who)
}

/// What is answered to a caller who must hold the role `id`.
pub open spec fn role_verdict(roles: Map<u64, Seq<Address>>, id: u64, caller: Seq<char>) -> Result<
    (),
    ContractError,
> {
    if is_member(roles, id, caller) {
        Ok(())
    } else {
        Err(ContractError::MissingRole)
    }
}

/// What is answered while the contract is or is not paused.
pub open spec fn pause_verdict(paused: bool) -> Result<(), ContractError> {
    if paused {
        Err(ContractError::ContractIsPaused)
    } else {
        Ok(())
    }
}

/// Of two answers, the first refusal counts.
pub open spec fn both(a: Result<(), ContractError>, b: Result<(), ContractError>) -> Result<
    (),
    ContractError,
> {
    if a is Err {
        a
    } else {
        b
    }
}

/// Refuse with `e` where `failed`.
pub open spec fn refuse_if(failed: bool, e: ContractError) -> Result<(), ContractError> {
    if failed {
        Err(e)
    } else {
        Ok(())
    }
}

/// Who is on the list that is kept for a role is a member, and nobody else. A member is let in
/// where the role is needed, and nobody else; while the contract is paused, nobody is.
pub proof fn roles_and_pauses_are_heeded(
    roles: Map<u64, Seq<Address>>,
    id: u64,
    who: Seq<char>,
    paused: bool,
)
    ensures
        is_member(roles, id, who) <==> roles.contains_key(id) && exists|i: int|
            0 <= i < roles[id].len() && #[trigger] roles[id][i]@ == who,
        roles.contains_key(id) ==> members(roles, id) == roles[id],
        !roles.contains_key(id) ==> members(roles, id).len() == 0,
        match role_verdict(roles, id, who) {
            Ok(_) => is_member(roles, id, who),
            Err(ContractError::MissingRole) => !is_member(roles, id, who),
            Err(_) => false,
        },
        match pause_verdict(paused) {
            Ok(_) => !paused,
            Err(ContractError::ContractIsPaused) => paused,
            Err(_) => false,
        },
{
}

/// A list of the members of the role `id`.
pub fn list_members(roles: &Roles, id: u64) -> (r: Vec<Address>)
    ensures
        r@ == members(roles@, id),
{
    match roles.get(&id) {
        Some(list) => list::copy(list),
        None => Vec::new(),
    }
}

/// Whether `who` is a member of the role `id`.
pub fn has_role(roles: &Roles, id: u64, who: &Address) -> (r: bool)
    ensures
        r == is_member(roles@, id, who@),
{
    match roles.get(&id) {
        Some(list) => list::contains(list, who),
        None => false,
    }
}

/// Demand that `caller` has authorised the invocation and holds the role `id`.
pub fn require_role<K>(env: &mut Env<K>, roles: &Roles, id: u64, caller: &Address) -> (r: Result<
    (),
    ContractError,
>)
    ensures
        final(env).did(*old(env), seq![Call::RequireAuth(*caller)]),
        r == role_verdict(roles@, id, caller@),
{
    env.require_auth(caller);
    if has_role(roles, id, caller) {
        Ok(())
    } else {
        Err(ContractError::MissingRole)
    }
}

/// Demand that the contract is not paused.
pub fn require_not_paused(paused: bool) -> (r: Result<(), ContractError>)
    ensures
        r == pause_verdict(paused),
{
    if paused {
        Err(ContractError::ContractIsPaused)
    } else {
        Ok(())
    }
}

} // verus!

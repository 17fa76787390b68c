//! Delegates of a worker's owner.

use vstd::prelude::*;

use super::laws;
use super::{list_at, DataKey, Delegate, RegistryContract, RegistryState};
use crate::error::ContractError;
use crate::host::{Call, Data, Env, Topics, Val};
use crate::list;
use crate::roles;
use crate::roles::{both, refuse_if};
use crate::values::{Address, Key, Symbol};

verus! {

/// Whether `who` is in `delegates`.
pub open spec fn has_delegate(delegates: Seq<Delegate>, who: Seq<char>) -> bool {
    exists|i: int| 0 <= i < delegates.len() && #[trigger] delegates[i].address@ == who
}

/// `delegates` with the delegation of `who` ending at `expires_at`: changed where there is one,
/// else put at the end.
pub open spec fn with_delegate(delegates: Seq<Delegate>, who: Address, expires_at: u64) -> Seq<
    Delegate,
>
    decreases delegates.len(),
{
    if delegates.len() == 0 {
        seq![Delegate { address: who, expires_at }]
    } else if delegates[0].address@ == who@ {
        seq![Delegate { expires_at, ..delegates[0] }] + delegates.drop_first()
    } else {
        seq![delegates[0]] + with_delegate(delegates.drop_first(), who, expires_at)
    }
}

/// `delegates` without `who`.
pub open spec fn without_delegate(delegates: Seq<Delegate>, who: Seq<char>) -> Seq<Delegate> {
    delegates.filter(|d: Delegate| d.address@ != who)
}

impl Delegate {
    /// Whether the delegation is in force at the time `now`.
    pub open spec fn in_force(self, now: u64) -> bool {
        self.expires_at == 0 || self.expires_at > now
    }
}

impl RegistryState {
    /// The delegates of the worker `id`.
    pub open spec fn delegates_of(self, id: Seq<char>) -> Seq<Delegate> {
        list_at(self.delegates, id)
    }

    /// Whether `who` may act for the owner of the worker `id` at the time `now`.
    pub open spec fn delegated(self, id: Seq<char>, who: Seq<char>, now: u64) -> bool {
        exists|i: int|
            {
                &&& 0 <= i < self.delegates_of(id).len()
                &&& (#[trigger] self.delegates_of(id)[i]).address@ == who
                &&& self.delegates_of(id)[i].in_force(now)
            }
    }

    /// The state in which the worker `id` has the delegates `delegates`.
    pub open spec fn with_delegates(self, id: Seq<char>, delegates: Seq<Delegate>) -> RegistryState {
        RegistryState { delegates: self.delegates.insert(id, delegates), ..self }
    }

    /// What `remove_delegate` answers.
    pub open spec fn remove_delegate_verdict(
        self,
        id: Seq<char>,
        owner: Seq<char>,
        delegate: Seq<char>,
    ) -> Result<(), ContractError> {
        both(
            self.owner_unpaused(id, owner),
            refuse_if(
                !has_delegate(self.delegates_of(id), delegate),
                ContractError::DelegateNotFound,
            ),
        )
    }
}

/// Who was dismissed is not there.
pub(super) proof fn lemma_dismissed(delegates: Seq<Delegate>, who: Seq<char>)
    ensures
        !has_delegate(without_delegate(delegates, who), who),
    decreases delegates.len(),
{
    reveal(Seq::filter);
    if delegates.len() > 0 {
        let rest = without_delegate(delegates.drop_last(), who);
        let kept = without_delegate(delegates, who);
        lemma_dismissed(delegates.drop_last(), who);
        assert forall|i: int| 0 <= i < kept.len() implies #[trigger] kept[i].address@ != who by {
            if i < rest.len() {
                assert(rest[i].address@ != who);
            }
        }
    }
}

proof fn lemma_with_delegate_found(s: Seq<Delegate>, who: Address, expires_at: u64, i: int)
    requires
        0 <= i < s.len(),
        s[i].address@ == who@,
        forall|j: int| 0 <= j < i ==> #[trigger] s[j].address@ != who@,
    ensures
        with_delegate(s, who, expires_at) == s.update(i, Delegate { expires_at, ..s[i] }),
    decreases i,
{
    let rest = s.drop_first();
    if i == 0 {
        assert(with_delegate(s, who, expires_at) =~= s.update(0, Delegate { expires_at, ..s[0] }));
    } else {
        assert(s[0].address@ != who@);
        assert forall|j: int| 0 <= j < i - 1 implies #[trigger] rest[j].address@ != who@ by {
            assert(rest[j] == s[j + 1]);
        }
        lemma_with_delegate_found(rest, who, expires_at, i - 1);
        assert(with_delegate(s, who, expires_at) =~= s.update(i, Delegate { expires_at, ..s[i] }));
    }
}

proof fn lemma_with_delegate_absent(s: Seq<Delegate>, who: Address, expires_at: u64)
    requires
        !has_delegate(s, who@),
    ensures
        with_delegate(s, who, expires_at) == s.push(Delegate { address: who, expires_at }),
    decreases s.len(),
{
    let rest = s.drop_first();
    if s.len() > 0 {
        assert(s[0].address@ != who@);
        assert forall|j: int| 0 <= j < rest.len() implies #[trigger] rest[j].address@ != who@ by {
            assert(rest[j] == s[j + 1]);
        }
        lemma_with_delegate_absent(rest, who, expires_at);
    }
    assert(with_delegate(s, who, expires_at) =~= s.push(Delegate { address: who, expires_at }));
}

/// Set when the delegation of `who` ends.
fn put_delegate(delegates: &mut Vec<Delegate>, who: &Address, expires_at: u64)
    ensures
        final(delegates)@ == with_delegate(old(delegates)@, *who, expires_at),
{
    let mut i: usize = 0;
    while i < delegates.len()
        invariant
            i <= delegates.len(),
            delegates@ == old(delegates)@,
            forall|j: int| 0 <= j < i ==> #[trigger] delegates@[j].address@ != who@,
        decreases delegates.len() - i,
    {
        if delegates[i].address.same(who) {
            proof {
                lemma_with_delegate_found(delegates@, *who, expires_at, i as int);
            }
            let address = delegates[i].address.clone();
            delegates.set(i, Delegate { address, expires_at });
            return ;
        }
        i += 1;
    }
    proof {
        lemma_with_delegate_absent(delegates@, *who, expires_at);
    }
    delegates.push(Delegate { address: who.clone(), expires_at });
}

/// Take `who` out of `delegates`; whether `who` was there.
fn drop_delegate(delegates: &mut Vec<Delegate>, who: &Address) -> (found: bool)
    ensures
        final(delegates)@ == without_delegate(old(delegates)@, who@),
        found == has_delegate(old(delegates)@, who@),
{
    let mut kept: Vec<Delegate> = Vec::new();
    let mut found = false;
    let mut i: usize = 0;
    assert(without_delegate(delegates@.take(0), who@) =~= Seq::<Delegate>::empty()) by {
        reveal(Seq::filter);
    }
    while i < delegates.len()
        invariant
            i <= delegates.len(),
            delegates@ == old(delegates)@,
            kept@ == without_delegate(delegates@.take(i as int), who@),
            found == exists|j: int| 0 <= j < i && #[trigger] delegates@[j].address@ == who@,
        decreases delegates.len() - i,
    {
        proof {
            assert(delegates@.take(i + 1).drop_last() =~= delegates@.take(i as int));
            reveal(Seq::filter);
        }
        if delegates[i].address.same(who) {
            assert(delegates@[i as int].address@ == who@);
            found = true;
        } else {
            kept.push(delegates[i].clone());
        }
        i += 1;
    }
    assert(delegates@.take(i as int) =~= delegates@);
    *delegates = kept;
    found
}

impl RegistryContract {
    /// Name a delegate of a worker's owner, or set when the delegation ends. Only the owner may
    /// call.
    pub fn add_delegate(
        &mut self,
        env: &mut Env<DataKey>,
        id: Symbol,
        owner: Address,
        delegate: Address,
        expires_at: u64,
    ) -> (r: Result<(), ContractError>)
        requires
            old(self)@.wf(),
        ensures
            final(self)@.wf(),
            r == old(self)@.verdict(
                (laws::Op::AddDelegate { id, owner, delegate, expires_at }),
                old(env).timestamp,
                old(env).sequence,
            ),
            final(self)@ == old(self)@.after(
                (laws::Op::AddDelegate { id, owner, delegate, expires_at }),
                old(env).timestamp,
                old(env).sequence,
            ),
            r == old(self)@.owner_unpaused(id@, owner@),
            r is Err ==> final(self)@ == old(self)@ && final(env).did(
                *old(env),
                seq![Call::RequireAuth(owner)],
            ),
            r is Ok ==> {
                &&& final(self)@ == old(self)@.with_delegates(
                    id@,
                    with_delegate(old(self)@.delegates_of(id@), delegate, expires_at),
                )
                &&& final(env).did(
                    *old(env),
                    seq![
                        Call::RequireAuth(owner),
                        Call::Write(DataKey::Delegates(id)),
                        Call::Publish {
                            topics: Topics::Three(
                                "DlgAdd",
                                Val::Symbol(id),
                                Val::Address(delegate),
                            ),
                            data: Data::One(Val::U64(expires_at)),
                        },
                    ],
                )
            },
    {
        env.require_auth(&owner);
        roles::require_not_paused(self.paused)?;
        self.require_owner(&id, &owner)?;
        let mut delegates = self.delegates_list(&id);
        put_delegate(&mut delegates, &delegate, expires_at);
        self.delegates.set(id.clone(), delegates);
        env.write(DataKey::Delegates(id.clone()));
        env.publish(
            Topics::Three("DlgAdd", Val::Symbol(id), Val::Address(delegate)),
            Data::One(Val::U64(expires_at)),
        );
        Ok(())
    }

    /// Dismiss a delegate of a worker's owner. Only the owner may call.
    pub fn remove_delegate(
        &mut self,
        env: &mut Env<DataKey>,
        id: Symbol,
        owner: Address,
        delegate: Address,
    ) -> (r: Result<(), ContractError>)
        requires
            old(self)@.wf(),
        ensures
            final(self)@.wf(),
            r == old(self)@.verdict(
                (laws::Op::RemoveDelegate { id, owner, delegate }),
                old(env).timestamp,
                old(env).sequence,
            ),
            final(self)@ == old(self)@.after(
                (laws::Op::RemoveDelegate { id, owner, delegate }),
                old(env).timestamp,
                old(env).sequence,
            ),
            r == old(self)@.remove_delegate_verdict(id@, owner@, delegate@),
            r is Err ==> final(self)@ == old(self)@ && final(env).did(
                *old(env),
                seq![Call::RequireAuth(owner)],
            ),
            r is Ok ==> {
                &&& final(self)@ == old(self)@.with_delegates(
                    id@,
                    without_delegate(old(self)@.delegates_of(id@), delegate@),
                )
                &&& final(env).did(
                    *old(env),
                    seq![
                        Call::RequireAuth(owner),
                        Call::Write(DataKey::Delegates(id)),
                        Call::Publish {
                            topics: Topics::Three(
                                "DlgRem",
                                Val::Symbol(id),
                                Val::Address(delegate),
                            ),
                            data: Data::Unit,
                        },
                    ],
                )
            },
    {
        env.require_auth(&owner);
        roles::require_not_paused(self.paused)?;
        self.require_owner(&id, &owner)?;
        let mut delegates = self.delegates_list(&id);
        if !drop_delegate(&mut delegates, &delegate) {
            return Err(ContractError::DelegateNotFound);
        }
        self.delegates.set(id.clone(), delegates);
        env.write(DataKey::Delegates(id.clone()));
        env.publish(
            Topics::Three("DlgRem", Val::Symbol(id), Val::Address(delegate)),
            Data::Unit,
        );
        Ok(())
    }

    /// The delegates of the worker `id`.
    pub fn get_worker_delegates(&self, id: Symbol) -> (r: Result<Vec<Delegate>, ContractError>)
        ensures
            r is Ok,
            r->Ok_0@ == self@.delegates_of(id@),
    {
        Ok(self.delegates_list(&id))
    }

    /// The delegates of the worker `id`.
    fn delegates_list(&self, id: &Symbol) -> (r: Vec<Delegate>)
        ensures
            r@ == self@.delegates_of(id@),
    {
        match self.delegates.get(id) {
            Some(delegates) => list::copy(delegates),
            None => Vec::new(),
        }
    }

    /// Demand that `caller` owns the worker `id`.
    pub(super) fn require_owner(&self, id: &Symbol, caller: &Address) -> (r: Result<
        (),
        ContractError,
    >)
        ensures
            r == self@.owner_verdict(id@, caller@),
    {
        match self.workers.get(id) {
            None => Err(ContractError::WorkerNotFound),
            Some(worker) => {
                if worker.owner.same(caller) {
                    Ok(())
                } else {
                    Err(ContractError::NotAuthorized)
                }
            },
        }
    }

    /// Whether `who` may act for the owner of the worker `id` at the time `now`.
    pub(super) fn is_delegated(&self, id: &Symbol, who: &Address, now: u64) -> (r: bool)
        ensures
            r == self@.delegated(id@, who@, now),
    {
        match self.delegates.get(id) {
            None => false,
            Some(delegates) => {
                let mut i: usize = 0;
                while i < delegates.len()
                    invariant
                        i <= delegates.len(),
                        delegates@ == self@.delegates_of(id@),
                        forall|j: int|
                            0 <= j < i ==> !((#[trigger] delegates@[j]).address@ == who@
                                && delegates@[j].in_force(now)),
                    decreases delegates.len() - i,
                {
                    let d = &delegates[i];
                    if d.address.same(who) && (d.expires_at == 0 || d.expires_at > now) {
                        assert(self@.delegates_of(id@)[i as int].in_force(now));
                        return true;
                    }
                    i += 1;
                }
                false
            },
        }
    }
}

} // verus!

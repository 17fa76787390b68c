//! Registering, changing and listing workers.

use vstd::prelude::*;

use super::laws;
use super::{
    BatchRegisterResult, DataKey, RegistryContract, RegistryState, SubscriptionTier, Worker,
    WorkerPage, WorkerSubscription, WorkerView, TTL_EXTEND_TO, TTL_THRESHOLD,
};
use crate::error::ContractError;
use crate::host::{Call, Data, Env, Topics, Val};
use crate::list;
use crate::list::{
    holds, lemma_without_first_keeps, lemma_without_first_len, without_first,
};
use crate::roles;
use crate::roles::{both, pause_verdict, refuse_if};
use crate::values::{Address, Hash32, Key, Symbol};

verus! {

/// A worker who has just been registered at the time `now`.
pub open spec fn new_worker(
    id: Symbol,
    owner: Address,
    name: String,
    category: Symbol,
    location_hash: Hash32,
    contact_hash: Hash32,
    now: u64,
) -> WorkerView {
    WorkerView {
        id,
        owner,
        name,
        category,
        is_active: true,
        wallet: owner,
        location_hash,
        contact_hash,
        reputation: 0,
        verified_categories: seq![],
        staked_amount: 0,
        review_count: 0,
        avg_rating: 0,
        subscription: WorkerSubscription {
            tier: SubscriptionTier::Free,
            expires_at: 0,
            last_renewed_at: now,
        },
    }
}

/// The event that a worker was registered.
pub open spec fn registered_event(id: Symbol, owner: Address, category: Symbol) -> Call<DataKey> {
    Call::Publish {
        topics: Topics::Two("WrkReg", Val::Symbol(id)),
        data: Data::Two(Val::Address(owner), Val::Symbol(category)),
    }
}

/// The event that a worker became active or inactive.
pub open spec fn toggled_event(id: Symbol, is_active: bool) -> Call<DataKey> {
    Call::Publish {
        topics: Topics::Two("WrkTgl", Val::Symbol(id)),
        data: Data::One(Val::Bool(is_active)),
    }
}

/// The items of `list`, cut off after `total`, from place `offset` on, at most `limit`.
pub open spec fn page_of(list: Seq<Symbol>, total: int, offset: u32, limit: u32) -> Seq<Symbol> {
    if offset >= total || limit == 0 {
        seq![]
    } else if offset + limit <= total {
        list.subrange(offset as int, offset + limit)
    } else {
        list.subrange(offset as int, total)
    }
}

impl WorkerView {
    /// The worker, active where inactive before and inactive where active.
    pub open spec fn toggled(self) -> WorkerView {
        WorkerView { is_active: !self.is_active, ..self }
    }
}

/// The workers of a batch, one list for each field.
pub ghost struct Batch {
    pub ids: Seq<Symbol>,
    pub owners: Seq<Address>,
    pub names: Seq<String>,
    pub categories: Seq<Symbol>,
    pub location_hashes: Seq<Hash32>,
    pub contact_hashes: Seq<Hash32>,
}

impl Batch {
    /// Whether every list has as many items as there are ids.
    pub open spec fn even(self) -> bool {
        &&& self.owners.len() == self.ids.len()
        &&& self.names.len() == self.ids.len()
        &&& self.categories.len() == self.ids.len()
        &&& self.location_hashes.len() == self.ids.len()
        &&& self.contact_hashes.len() == self.ids.len()
    }

    /// The worker in place `i`, registered at the time `now`.
    pub open spec fn worker(self, i: int, now: u64) -> WorkerView {
        new_worker(
            self.ids[i],
            self.owners[i],
            self.names[i],
            self.categories[i],
            self.location_hashes[i],
            self.contact_hashes[i],
            now,
        )
    }
}

impl RegistryState {
    /// What `register` answers.
    pub open spec fn register_verdict(self, curator: Seq<char>, category: Seq<char>) -> Result<
        (),
        ContractError,
    > {
        both(
            pause_verdict(self.paused),
            both(
                refuse_if(!self.is_curator(curator), ContractError::CallerIsNotCurator),
                refuse_if(
                    self.categories.len() > 0 && !holds(self.categories, category),
                    ContractError::UnknownCategory,
                ),
            ),
        )
    }

    /// What `batch_toggle` answers to `count` ids.
    pub open spec fn batch_toggle_verdict(self, caller: Seq<char>, count: nat) -> Result<
        (),
        ContractError,
    > {
        both(
            pause_verdict(self.paused),
            both(
                refuse_if(!self.is_curator(caller), ContractError::CallerIsNotCurator),
                refuse_if(
                    count > RegistryContract::MAX_BATCH_SIZE,
                    ContractError::BatchTooLarge,
                ),
            ),
        )
    }

    /// What `batch_register` answers.
    pub open spec fn batch_register_verdict(self, curator: Seq<char>, batch: Batch) -> Result<
        (),
        ContractError,
    > {
        both(
            pause_verdict(self.paused),
            both(
                refuse_if(!self.is_curator(curator), ContractError::CallerIsNotCurator),
                both(
                    refuse_if(
                        batch.ids.len() > RegistryContract::MAX_BATCH_SIZE,
                        ContractError::BatchTooLarge,
                    ),
                    refuse_if(!batch.even(), ContractError::MismatchedInputLengths),
                ),
            ),
        )
    }

    /// The state in which `w` is registered: kept, and listed and counted unless it was already.
    pub open spec fn registered(self, w: WorkerView) -> RegistryState {
        if self.workers.contains_key(w.id@) {
            self.with_worker(w.id@, w)
        } else {
            RegistryState {
                workers: self.workers.insert(w.id@, w),
                worker_list: self.worker_list.push(w.id),
                worker_count: (self.worker_count + 1) as u32,
                ..self
            }
        }
    }

    /// What is asked of the host when the worker `id` is put on the list, where it was not.
    pub open spec fn listing_calls(self, id: Seq<char>) -> Seq<Call<DataKey>> {
        if self.workers.contains_key(id) {
            seq![]
        } else {
            seq![Call::Write(DataKey::WorkerList), Call::Write(DataKey::WorkerCount)]
        }
    }

    /// The state in which the worker `id` is not registered: no longer kept, listed once less
    /// and not counted.
    pub open spec fn deregistered(self, id: Seq<char>) -> RegistryState {
        RegistryState {
            workers: self.workers.remove(id),
            worker_list: without_first(self.worker_list, id),
            worker_count: if self.worker_count > 0 {
                (self.worker_count - 1) as u32
            } else {
                0
            },
            ..self
        }
    }

    /// The state once the workers in `ids` were toggled, one after the other.
    pub open spec fn batch_toggled(self, ids: Seq<Symbol>) -> RegistryState {
        RegistryState { workers: self.toggled_workers(ids), ..self }
    }

    /// The workers once those in `ids` were toggled, one after the other.
    pub open spec fn toggled_workers(self, ids: Seq<Symbol>) -> Map<Seq<char>, WorkerView>
        decreases ids.len(),
    {
        if ids.len() == 0 {
            self.workers
        } else {
            let before = self.toggled_workers(ids.drop_last());
            let id = ids.last()@;
            if before.contains_key(id) {
                before.insert(id, before[id].toggled())
            } else {
                before
            }
        }
    }

    /// What is asked of the host when the workers in `ids` are toggled.
    pub open spec fn toggle_calls(self, ids: Seq<Symbol>) -> Seq<Call<DataKey>>
        decreases ids.len(),
    {
        if ids.len() == 0 {
            seq![]
        } else {
            let before = self.toggled_workers(ids.drop_last());
            let id = ids.last();
            let calls = self.toggle_calls(ids.drop_last());
            if before.contains_key(id@) {
                calls + seq![
                    Call::Write(DataKey::Worker(id)),
                    toggled_event(id, !before[id@].is_active),
                ]
            } else {
                calls
            }
        }
    }

    /// The ids of `ids` that name a worker.
    pub open spec fn known(self, ids: Seq<Symbol>) -> Seq<Symbol> {
        ids.filter(|id: Symbol| self.workers.contains_key(id@))
    }

    /// Whether place `i` of a batch registers a worker: its id is not in use, nor in an earlier
    /// place.
    pub open spec fn fresh(self, ids: Seq<Symbol>, i: int) -> bool {
        !self.workers.contains_key(ids[i]@) && !holds(ids.take(i), ids[i]@)
    }

    /// The workers once the first `n` places of a batch were registered.
    pub open spec fn batch_workers(self, batch: Batch, n: nat, now: u64) -> Map<
        Seq<char>,
        WorkerView,
    >
        decreases n,
    {
        if n == 0 {
            self.workers
        } else {
            let before = self.batch_workers(batch, (n - 1) as nat, now);
            if self.fresh(batch.ids, n - 1) {
                before.insert(batch.ids[n - 1]@, batch.worker(n - 1, now))
            } else {
                before
            }
        }
    }

    /// The ids that the first `n` places of a batch add to the list.
    pub open spec fn batch_listed(self, ids: Seq<Symbol>, n: nat) -> Seq<Symbol>
        decreases n,
    {
        if n == 0 {
            seq![]
        } else {
            let before = self.batch_listed(ids, (n - 1) as nat);
            if self.fresh(ids, n - 1) {
                before.push(ids[n - 1])
            } else {
                before
            }
        }
    }

    /// What the first `n` places of a batch ask of the host.
    pub open spec fn batch_calls(self, batch: Batch, n: nat) -> Seq<Call<DataKey>>
        decreases n,
    {
        if n == 0 {
            seq![]
        } else {
            let before = self.batch_calls(batch, (n - 1) as nat);
            let i = n - 1;
            if self.fresh(batch.ids, i) {
                before + seq![
                    Call::Write(DataKey::Worker(batch.ids[i])),
                    registered_event(batch.ids[i], batch.owners[i], batch.categories[i]),
                ]
            } else {
                before
            }
        }
    }

    /// What became of each of the first `n` places of a batch.
    pub open spec fn batch_results(self, ids: Seq<Symbol>, n: nat) -> Seq<BatchRegisterResult> {
        Seq::new(
            n,
            |i: int| BatchRegisterResult { id: ids[i], success: self.fresh(ids, i) },
        )
    }

    /// The state once a batch was registered.
    pub open spec fn with_batch(self, batch: Batch, now: u64) -> RegistryState {
        RegistryState {
            workers: self.batch_workers(batch, batch.ids.len(), now),
            worker_list: self.worker_list + self.batch_listed(batch.ids, batch.ids.len()),
            ..self
        }
    }
}

/// `ids.take(i + 1)` holds what `ids.take(i)` does, and the id in place `i`.
proof fn lemma_take_holds(ids: Seq<Symbol>, i: int, k: Seq<char>)
    requires
        0 <= i < ids.len(),
    ensures
        holds(ids.take(i + 1), k) == (holds(ids.take(i), k) || ids[i]@ == k),
{
    let before = ids.take(i);
    let after = ids.take(i + 1);
    if holds(before, k) {
        let j = choose|j: int| 0 <= j < before.len() && #[trigger] before[j]@ == k;
        assert(after[j]@ == k);
    }
    if ids[i]@ == k {
        assert(after[i]@ == k);
    }
    if holds(after, k) {
        let j = choose|j: int| 0 <= j < after.len() && #[trigger] after[j]@ == k;
        if j < i {
            assert(before[j]@ == k);
        }
    }
}

/// Toggling adds and removes no worker.
pub(super) proof fn lemma_toggled_dom(s: RegistryState, ids: Seq<Symbol>)
    ensures
        s.toggled_workers(ids).dom() == s.workers.dom(),
    decreases ids.len(),
{
    if ids.len() > 0 {
        lemma_toggled_dom(s, ids.drop_last());
        assert(s.toggled_workers(ids).dom() =~= s.workers.dom());
    }
}

/// Toggling keeps the state well-formed.
pub(super) proof fn lemma_toggled_wf(s: RegistryState, ids: Seq<Symbol>)
    requires
        s.wf(),
    ensures
        (RegistryState { workers: s.toggled_workers(ids), ..s }).wf(),
    decreases ids.len(),
{
    if ids.len() > 0 {
        lemma_toggled_wf(s, ids.drop_last());
        let before = RegistryState { workers: s.toggled_workers(ids.drop_last()), ..s };
        let after = RegistryState { workers: s.toggled_workers(ids), ..s };
        assert forall|id: Seq<char>| #[trigger] after.workers.contains_key(id) implies {
            &&& after.workers[id].id@ == id
            &&& holds(after.worker_list, id)
            &&& after.workers[id].avg_rating <= super::MAX_SCORE
            &&& after.workers[id].reputation <= super::MAX_SCORE
        } by {
            assert(before.workers.contains_key(id));
        }
    }
}

/// Registering keeps the state well-formed, as long as the list has room.
pub(super) proof fn lemma_registered_wf(s: RegistryState, w: WorkerView)
    requires
        s.wf(),
        s.workers.contains_key(w.id@) || s.worker_list.len() < u32::MAX,
        w.avg_rating <= super::MAX_SCORE,
        w.reputation <= super::MAX_SCORE,
    ensures
        s.registered(w).wf(),
{
    let t = s.registered(w);
    let l = s.worker_list;
    assert forall|k: Seq<char>| #[trigger] t.workers.contains_key(k) implies holds(
        t.worker_list,
        k,
    ) by {
        if s.workers.contains_key(k) {
            let j = choose|j: int| 0 <= j < l.len() && #[trigger] l[j]@ == k;
            assert(t.worker_list[j]@ == k);
        } else {
            assert(t.worker_list[l.len() as int]@ == k);
        }
    }
}

/// Deregistering keeps the state well-formed.
pub(super) proof fn lemma_deregistered_wf(s: RegistryState, id: Seq<char>)
    requires
        s.wf(),
        s.workers.contains_key(id),
    ensures
        s.deregistered(id).wf(),
{
    let t = s.deregistered(id);
    lemma_without_first_len(s.worker_list, id);
    assert forall|k: Seq<char>| #[trigger] t.workers.contains_key(k) implies holds(
        t.worker_list,
        k,
    ) by {
        assert(s.workers.contains_key(k));
        lemma_without_first_keeps(s.worker_list, id, k);
    }
}

/// After the first `n` places of a batch, the workers are those from before and those named.
pub(super) proof fn lemma_batch_dom(s: RegistryState, batch: Batch, n: nat, now: u64, k: Seq<char>)
    requires
        n <= batch.ids.len(),
    ensures
        s.batch_workers(batch, n, now).contains_key(k) == (s.workers.contains_key(k) || holds(
            batch.ids.take(n as int),
            k,
        )),
    decreases n,
{
    if n > 0 {
        let i = n - 1;
        lemma_batch_dom(s, batch, i as nat, now, k);
        lemma_take_holds(batch.ids, i, k);
        if batch.ids[i]@ == k && !s.fresh(batch.ids, i) {
            assert(s.workers.contains_key(k) || holds(batch.ids.take(i), k));
        }
    }
}

/// A batch keeps the state well-formed, as long as the list has room.
pub(super) proof fn lemma_batch_wf(s: RegistryState, batch: Batch, n: nat, now: u64)
    requires
        s.wf(),
        n <= batch.ids.len(),
        s.worker_list.len() + batch.ids.len() <= u32::MAX,
    ensures
        (RegistryState {
            workers: s.batch_workers(batch, n, now),
            worker_list: s.worker_list + s.batch_listed(batch.ids, n),
            ..s
        }).wf(),
        s.batch_listed(batch.ids, n).len() <= n,
    decreases n,
{
    if n == 0 {
        assert(s.worker_list + s.batch_listed(batch.ids, 0) =~= s.worker_list);
    } else {
        let i = n - 1;
        lemma_batch_wf(s, batch, i as nat, now);
        let l0 = s.worker_list + s.batch_listed(batch.ids, i as nat);
        let l1 = s.worker_list + s.batch_listed(batch.ids, n);
        let w0 = s.batch_workers(batch, i as nat, now);
        let w1 = s.batch_workers(batch, n, now);
        let before = RegistryState { workers: w0, worker_list: l0, ..s };
        let after = RegistryState { workers: w1, worker_list: l1, ..s };
        if s.fresh(batch.ids, i) {
            assert(l1 =~= l0.push(batch.ids[i]));
        }
        assert forall|id: Seq<char>| #[trigger] w1.contains_key(id) implies {
            &&& w1[id].id@ == id
            &&& holds(l1, id)
            &&& w1[id].avg_rating <= super::MAX_SCORE
            &&& w1[id].reputation <= super::MAX_SCORE
        } by {
            if w0.contains_key(id) {
                assert(before.workers.contains_key(id));
                let j = choose|j: int| 0 <= j < l0.len() && #[trigger] l0[j]@ == id;
                assert(l1[j]@ == id);
            }
            if s.fresh(batch.ids, i) && id == batch.ids[i]@ {
                assert(l1.last()@ == id);
                assert(l1[l1.len() - 1]@ == id);
            }
        }
    }
}

impl RegistryContract {
    /// Most workers that one batch handles.
    pub const MAX_BATCH_SIZE: u32 = 20;

    /// Whether `register` lets a curator register a worker of `category`.
    pub fn check_register(&self, curator: &Address, category: &Symbol) -> (r: Result<
        (),
        ContractError,
    >)
        ensures
            r == self@.register_verdict(curator@, category@),
    {
        roles::require_not_paused(self.paused)?;
        if !list::contains(&self.curators, curator) {
            return Err(ContractError::CallerIsNotCurator);
        }
        if self.categories.len() > 0 && !list::contains(&self.categories, category) {
            return Err(ContractError::UnknownCategory);
        }
        Ok(())
    }

    /// Register a worker. The caller must be a curator; where categories are set, the worker's
    /// must be one of them. Registering an id anew replaces the worker, who stays listed once.
    pub fn register(
        &mut self,
        env: &mut Env<DataKey>,
        id: Symbol,
        owner: Address,
        name: String,
        category: Symbol,
        location_hash: Hash32,
        contact_hash: Hash32,
        curator: Address,
    ) -> (r: Result<(), ContractError>)
        requires
            old(self)@.wf(),
            old(self)@.register_verdict(curator@, category@) is Ok
                && !old(self)@.workers.contains_key(id@) ==> old(self)@.worker_list.len()
                < u32::MAX,
        ensures
            final(self)@.wf(),
            r == old(self)@.verdict(
                (laws::Op::Register {
                    curator,
                    id,
                    owner,
                    name,
                    category,
                    location_hash,
                    contact_hash,
                }),
                old(env).timestamp,
                old(env).sequence,
            ),
            final(self)@ == old(self)@.after(
                (laws::Op::Register {
                    curator,
                    id,
                    owner,
                    name,
                    category,
                    location_hash,
                    contact_hash,
                }),
                old(env).timestamp,
                old(env).sequence,
            ),
            r == old(self)@.register_verdict(curator@, category@),
            r is Err ==> final(self)@ == old(self)@ && final(env).did(
                *old(env),
                seq![Call::RequireAuth(curator)],
            ),
            r is Ok ==> {
                &&& final(self)@ == old(self)@.registered(
                    new_worker(
                        id,
                        owner,
                        name,
                        category,
                        location_hash,
                        contact_hash,
                        old(env).timestamp,
                    ),
                )
                &&& final(env).did(
                    *old(env),
                    seq![Call::RequireAuth(curator), Call::Write(DataKey::Worker(id))] + old(
                        self,
                    )@.listing_calls(id@) + seq![registered_event(id, owner, category)],
                )
            },
    {
        env.require_auth(&curator);
        self.check_register(&curator, &category)?;
        let worker = make_worker(
            id.clone(),
            owner.clone(),
            name,
            category.clone(),
            location_hash,
            contact_hash,
            env.timestamp,
        );
        let known = self.workers.has(&id);
        self.workers.set(id.clone(), worker);
        env.write(DataKey::Worker(id.clone()));
        if !known {
            self.worker_list.push(id.clone());
            env.write(DataKey::WorkerList);
            self.worker_count = self.worker_count + 1;
            env.write(DataKey::WorkerCount);
        }
        proof {
            lemma_registered_wf(
                old(self)@,
                new_worker(
                    id,
                    owner,
                    name,
                    category,
                    location_hash,
                    contact_hash,
                    old(env).timestamp,
                ),
            );
        }
        env.publish(
            Topics::Two("WrkReg", Val::Symbol(id)),
            Data::Two(Val::Address(owner), Val::Symbol(category)),
        );
        Ok(())
    }

    /// Make an active worker inactive, or an inactive one active. Only the owner may call.
    pub fn toggle(&mut self, env: &mut Env<DataKey>, id: Symbol, caller: Address) -> (r: Result<
        (),
        ContractError,
    >)
        requires
            old(self)@.wf(),
        ensures
            final(self)@.wf(),
            r == old(self)@.verdict(
                (laws::Op::Toggle { id, caller }),
                old(env).timestamp,
                old(env).sequence,
            ),
            final(self)@ == old(self)@.after(
                (laws::Op::Toggle { id, caller }),
                old(env).timestamp,
                old(env).sequence,
            ),
            r == old(self)@.owner_unpaused(id@, caller@),
            r is Err ==> final(self)@ == old(self)@ && final(env).did(
                *old(env),
                seq![Call::RequireAuth(caller)],
            ),
            r is Ok ==> {
                let w = old(self)@.workers[id@];
                &&& final(self)@ == old(self)@.with_worker(id@, w.toggled())
                &&& final(env).did(
                    *old(env),
                    seq![
                        Call::RequireAuth(caller),
                        Call::Write(DataKey::Worker(id)),
                        toggled_event(id, !w.is_active),
                    ],
                )
            },
    {
        env.require_auth(&caller);
        roles::require_not_paused(self.paused)?;
        match self.workers.get_mut(&id) {
            None => Err(ContractError::WorkerNotFound),
            Some(worker) => {
                if !worker.owner.same(&caller) {
                    return Err(ContractError::NotAuthorized);
                }
                worker.is_active = !worker.is_active;
                env.write(DataKey::Worker(id.clone()));
                env.publish(
                    Topics::Two("WrkTgl", Val::Symbol(id)),
                    Data::One(Val::Bool(worker.is_active)),
                );
                Ok(())
            },
        }
    }

    /// Change a worker's name, category, location and contact. Only the owner may call.
    pub fn update(
        &mut self,
        env: &mut Env<DataKey>,
        id: Symbol,
        caller: Address,
        name: String,
        category: Symbol,
        location_hash: Hash32,
        contact_hash: Hash32,
    ) -> (r: Result<(), ContractError>)
        requires
            old(self)@.wf(),
        ensures
            final(self)@.wf(),
            r == old(self)@.verdict(
                (laws::Op::Update { id, caller, name, category, location_hash, contact_hash }),
                old(env).timestamp,
                old(env).sequence,
            ),
            final(self)@ == old(self)@.after(
                (laws::Op::Update { id, caller, name, category, location_hash, contact_hash }),
                old(env).timestamp,
                old(env).sequence,
            ),
            r == old(self)@.owner_unpaused(id@, caller@),
            r is Err ==> final(self)@ == old(self)@ && final(env).did(
                *old(env),
                seq![Call::RequireAuth(caller)],
            ),
            r is Ok ==> {
                let w = old(self)@.workers[id@];
                &&& final(self)@ == old(self)@.with_worker(
                    id@,
                    WorkerView { name, category, location_hash, contact_hash, ..w },
                )
                &&& final(env).did(
                    *old(env),
                    seq![
                        Call::RequireAuth(caller),
                        Call::Write(DataKey::Worker(id)),
                        Call::Publish {
                            topics: Topics::Two("WrkUpd", Val::Symbol(id)),
                            data: Data::Two(Val::Text(name), Val::Symbol(category)),
                        },
                    ],
                )
            },
    {
        env.require_auth(&caller);
        roles::require_not_paused(self.paused)?;
        match self.workers.get_mut(&id) {
            None => Err(ContractError::WorkerNotFound),
            Some(worker) => {
                if !worker.owner.same(&caller) {
                    return Err(ContractError::NotAuthorized);
                }
                worker.name = name.clone();
                worker.category = category.clone();
                worker.location_hash = location_hash;
                worker.contact_hash = contact_hash;
                env.write(DataKey::Worker(id.clone()));
                env.publish(
                    Topics::Two("WrkUpd", Val::Symbol(id)),
                    Data::Two(Val::Text(name), Val::Symbol(category)),
                );
                Ok(())
            },
        }
    }

    /// Change a worker's name, category and wallet. Only the owner may call.
    pub fn update_worker(
        &mut self,
        env: &mut Env<DataKey>,
        id: Symbol,
        caller: Address,
        name: String,
        category: Symbol,
        wallet: Address,
    ) -> (r: Result<(), ContractError>)
        requires
            old(self)@.wf(),
        ensures
            final(self)@.wf(),
            r == old(self)@.verdict(
                (laws::Op::UpdateWorker { id, caller, name, category, wallet }),
                old(env).timestamp,
                old(env).sequence,
            ),
            final(self)@ == old(self)@.after(
                (laws::Op::UpdateWorker { id, caller, name, category, wallet }),
                old(env).timestamp,
                old(env).sequence,
            ),
            r == old(self)@.owner_unpaused(id@, caller@),
            r is Err ==> final(self)@ == old(self)@ && final(env).did(
                *old(env),
                seq![Call::RequireAuth(caller)],
            ),
            r is Ok ==> {
                let w = old(self)@.workers[id@];
                &&& final(self)@ == old(self)@.with_worker(
                    id@,
                    WorkerView { name, category, wallet, ..w },
                )
                &&& final(env).did(
                    *old(env),
                    seq![
                        Call::RequireAuth(caller),
                        Call::Write(DataKey::Worker(id)),
                        Call::Publish {
                            topics: Topics::Three(
                                "WrkUpd",
                                Val::Symbol(id),
                                Val::Address(caller),
                            ),
                            data: Data::Three(
                                Val::Text(name),
                                Val::Symbol(category),
                                Val::Address(wallet),
                            ),
                        },
                    ],
                )
            },
    {
        env.require_auth(&caller);
        roles::require_not_paused(self.paused)?;
        match self.workers.get_mut(&id) {
            None => Err(ContractError::WorkerNotFound),
            Some(worker) => {
                if !worker.owner.same(&caller) {
                    return Err(ContractError::NotAuthorized);
                }
                worker.name = name.clone();
                worker.category = category.clone();
                worker.wallet = wallet.clone();
                env.write(DataKey::Worker(id.clone()));
                env.publish(
                    Topics::Three("WrkUpd", Val::Symbol(id), Val::Address(caller)),
                    Data::Three(Val::Text(name), Val::Symbol(category), Val::Address(wallet)),
                );
                Ok(())
            },
        }
    }

    /// Take a worker out of the registry. Only the owner may call.
    pub fn deregister(&mut self, env: &mut Env<DataKey>, id: Symbol, caller: Address) -> (r: Result<
        (),
        ContractError,
    >)
        requires
            old(self)@.wf(),
        ensures
            final(self)@.wf(),
            r == old(self)@.verdict(
                (laws::Op::Deregister { id, caller }),
                old(env).timestamp,
                old(env).sequence,
            ),
            final(self)@ == old(self)@.after(
                (laws::Op::Deregister { id, caller }),
                old(env).timestamp,
                old(env).sequence,
            ),
            r == old(self)@.owner_unpaused(id@, caller@),
            r is Err ==> final(self)@ == old(self)@ && final(env).did(
                *old(env),
                seq![Call::RequireAuth(caller)],
            ),
            r is Ok ==> {
                &&& final(self)@ == old(self)@.deregistered(id@)
                &&& final(env).did(
                    *old(env),
                    seq![
                        Call::RequireAuth(caller),
                        Call::Remove(DataKey::Worker(id)),
                        Call::Write(DataKey::WorkerList),
                        Call::Write(DataKey::WorkerCount),
                        Call::Publish {
                            topics: Topics::Three(
                                "WrkDrg",
                                Val::Symbol(id),
                                Val::Address(caller),
                            ),
                            data: Data::Unit,
                        },
                    ],
                )
            },
    {
        env.require_auth(&caller);
        roles::require_not_paused(self.paused)?;
        match self.workers.get(&id) {
            None => return Err(ContractError::WorkerNotFound),
            Some(worker) => {
                if !worker.owner.same(&caller) {
                    return Err(ContractError::NotAuthorized);
                }
            },
        }
        self.workers.remove(&id);
        env.remove(DataKey::Worker(id.clone()));
        list::remove_first(&mut self.worker_list, &id);
        env.write(DataKey::WorkerList);
        if self.worker_count > 0 {
            self.worker_count = self.worker_count - 1;
        }
        env.write(DataKey::WorkerCount);
        proof {
            lemma_deregistered_wf(old(self)@, id@);
        }
        env.publish(
            Topics::Three("WrkDrg", Val::Symbol(id), Val::Address(caller)),
            Data::Unit,
        );
        Ok(())
    }

    /// The worker `id`.
    pub fn get_worker(&self, id: Symbol) -> (r: Result<Option<Worker>, ContractError>)
        ensures
            r is Ok,
            match r->Ok_0 {
                Some(worker) => self@.workers.contains_key(id@) && worker@ == self@.workers[id@],
                None => !self@.workers.contains_key(id@),
            },
    {
        match self.workers.get(&id) {
            Some(worker) => Ok(Some(worker.clone())),
            None => Ok(None),
        }
    }

    /// The ids of all workers.
    pub fn list_workers(&self) -> (r: Result<Vec<Symbol>, ContractError>)
        ensures
            r is Ok,
            r->Ok_0@ == self@.worker_list,
    {
        Ok(list::copy(&self.worker_list))
    }

    /// The ids of at most `limit` workers, from place `offset` of the list on.
    pub fn list_workers_paginated(&self, offset: u32, limit: u32) -> (r: Result<
        Vec<Symbol>,
        ContractError,
    >)
        requires
            self@.wf(),
        ensures
            r is Ok,
            r->Ok_0@ == page_of(
                self@.worker_list,
                self@.worker_list.len() as int,
                offset,
                limit,
            ),
    {
        let total: u32 = self.worker_list.len() as u32;
        if offset >= total || limit == 0 {
            return Ok(Vec::new());
        }
        let end: u32 = if limit > total - offset {
            total
        } else {
            offset + limit
        };
        Ok(list::slice(&self.worker_list, offset as usize, end as usize))
    }

    /// The number of workers listed.
    pub fn worker_count(&self) -> (r: Result<u32, ContractError>)
        requires
            self@.wf(),
        ensures
            r == Ok::<u32, ContractError>(self@.worker_list.len() as u32),
    {
        Ok(self.worker_list.len() as u32)
    }

    /// The ids of at most `limit` of the workers counted, from place `offset` on, and how many
    /// are counted. Registering an id that is not in use counts up, deregistering counts down, and
    /// registering in a batch lists workers without counting them.
    pub fn list_workers_page(&self, offset: u32, limit: u32) -> (r: Result<
        WorkerPage,
        ContractError,
    >)
        requires
            self@.wf(),
        ensures
            r is Ok,
            r->Ok_0.total == self@.worker_count,
            r->Ok_0.ids@ == page_of(
                self@.worker_list,
                self@.worker_count as int,
                offset,
                limit,
            ),
    {
        let total: u32 = self.worker_count;
        if offset < total && limit > 0 {
            let end: u32 = if limit > total - offset {
                total
            } else {
                offset + limit
            };
            Ok(WorkerPage {
                ids: list::slice(&self.worker_list, offset as usize, end as usize),
                total,
            })
        } else {
            Ok(WorkerPage { ids: Vec::new(), total })
        }
    }

    /// Keep a worker's entry alive. Anyone may call.
    pub fn extend_worker_ttl(&self, env: &mut Env<DataKey>, id: Symbol) -> (r: Result<
        (),
        ContractError,
    >)
        ensures
            r == self@.worker_verdict(id@),
            r is Err ==> final(env).did(*old(env), seq![]),
            r is Ok ==> final(env).did(
                *old(env),
                seq![
                    Call::ExtendTtl {
                        key: DataKey::Worker(id),
                        threshold: TTL_THRESHOLD,
                        extend_to: TTL_EXTEND_TO,
                    },
                ],
            ),
    {
        if !self.workers.has(&id) {
            return Err(ContractError::WorkerNotFound);
        }
        env.extend_ttl(DataKey::Worker(id), TTL_THRESHOLD, TTL_EXTEND_TO);
        Ok(())
    }

    /// Toggle several workers, one after the other; ids that name no worker are passed over. The
    /// caller must be a curator.
    pub fn batch_toggle(&mut self, env: &mut Env<DataKey>, caller: Address, ids: Vec<Symbol>) -> (r:
        Result<Vec<Symbol>, ContractError>)
        requires
            old(self)@.wf(),
        ensures
            final(self)@.wf(),
            r is Ok <==> old(self)@.verdict(
                (laws::Op::BatchToggle { caller, ids: ids@ }),
                old(env).timestamp,
                old(env).sequence,
            ) is Ok,
            final(self)@ == old(self)@.after(
                (laws::Op::BatchToggle { caller, ids: ids@ }),
                old(env).timestamp,
                old(env).sequence,
            ),
            match old(self)@.batch_toggle_verdict(caller@, ids@.len()) {
                Err(e) => {
                    &&& r == Err::<Vec<Symbol>, ContractError>(e)
                    &&& final(self)@ == old(self)@
                    &&& final(env).did(*old(env), seq![Call::RequireAuth(caller)])
                },
                Ok(_) => {
                    &&& r is Ok
                    &&& r->Ok_0@ == old(self)@.known(ids@)
                    &&& final(self)@ == old(self)@.batch_toggled(ids@)
                    &&& final(env).did(
                        *old(env),
                        seq![Call::RequireAuth(caller)] + old(self)@.toggle_calls(ids@),
                    )
                },
            },
    {
        env.require_auth(&caller);
        roles::require_not_paused(self.paused)?;
        if !list::contains(&self.curators, &caller) {
            return Err(ContractError::CallerIsNotCurator);
        }
        if ids.len() > Self::MAX_BATCH_SIZE as usize {
            return Err(ContractError::BatchTooLarge);
        }
        let mut toggled: Vec<Symbol> = Vec::new();
        let mut i: usize = 0;
        assert(old(self)@.known(ids@.take(0)) =~= Seq::<Symbol>::empty()) by {
            reveal(Seq::filter);
        }
        while i < ids.len()
            invariant
                i <= ids.len(),
                self@ == (RegistryState {
                    workers: old(self)@.toggled_workers(ids@.take(i as int)),
                    ..old(self)@
                }),
                toggled@ == old(self)@.known(ids@.take(i as int)),
                env.did(
                    *old(env),
                    seq![Call::RequireAuth(caller)] + old(self)@.toggle_calls(
                        ids@.take(i as int),
                    ),
                ),
            decreases ids.len() - i,
        {
            let id = &ids[i];
            proof {
                lemma_toggled_dom(old(self)@, ids@.take(i as int));
                assert(ids@.take(i + 1).drop_last() =~= ids@.take(i as int));
                assert(self@.workers.contains_key(id@) == old(self)@.workers.contains_key(id@));
                reveal(Seq::filter);
            }
            match self.workers.get_mut(id) {
                None => {},
                Some(worker) => {
                    worker.is_active = !worker.is_active;
                    env.write(DataKey::Worker(id.clone()));
                    env.publish(
                        Topics::Two("WrkTgl", Val::Symbol(id.clone())),
                        Data::One(Val::Bool(worker.is_active)),
                    );
                    toggled.push(id.clone());
                },
            }
            i += 1;
        }
        assert(ids@.take(i as int) =~= ids@);
        proof {
            lemma_toggled_wf(old(self)@, ids@);
        }
        Ok(toggled)
    }

    /// Whether `batch_register` lets a curator register a batch.
    pub fn check_batch_register(
        &self,
        curator: &Address,
        ids: &Vec<Symbol>,
        owners: &Vec<Address>,
        names: &Vec<String>,
        categories: &Vec<Symbol>,
        location_hashes: &Vec<Hash32>,
        contact_hashes: &Vec<Hash32>,
    ) -> (r: Result<(), ContractError>)
        ensures
            r == self@.batch_register_verdict(
                curator@,
                (Batch {
                    ids: ids@,
                    owners: owners@,
                    names: names@,
                    categories: categories@,
                    location_hashes: location_hashes@,
                    contact_hashes: contact_hashes@,
                }),
            ),
    {
        roles::require_not_paused(self.paused)?;
        if !list::contains(&self.curators, curator) {
            return Err(ContractError::CallerIsNotCurator);
        }
        let n: usize = ids.len();
        if n > Self::MAX_BATCH_SIZE as usize {
            return Err(ContractError::BatchTooLarge);
        }
        if !(owners.len() == n && names.len() == n && categories.len() == n
            && location_hashes.len() == n && contact_hashes.len() == n) {
            return Err(ContractError::MismatchedInputLengths);
        }
        Ok(())
    }

    /// Register several workers; one whose id is in use is passed over. The caller must be a
    /// curator.
    pub fn batch_register(
        &mut self,
        env: &mut Env<DataKey>,
        curator: Address,
        ids: Vec<Symbol>,
        owners: Vec<Address>,
        names: Vec<String>,
        categories: Vec<Symbol>,
        location_hashes: Vec<Hash32>,
        contact_hashes: Vec<Hash32>,
    ) -> (r: Result<Vec<BatchRegisterResult>, ContractError>)
        requires
            old(self)@.wf(),
            old(self)@.batch_register_verdict(
                curator@,
                (Batch {
                    ids: ids@,
                    owners: owners@,
                    names: names@,
                    categories: categories@,
                    location_hashes: location_hashes@,
                    contact_hashes: contact_hashes@,
                }),
            ) is Ok ==> old(self)@.worker_list.len() + ids@.len() <= u32::MAX,
        ensures
            final(self)@.wf(),
            ({
                let batch = Batch {
                    ids: ids@,
                    owners: owners@,
                    names: names@,
                    categories: categories@,
                    location_hashes: location_hashes@,
                    contact_hashes: contact_hashes@,
                };
                match old(self)@.batch_register_verdict(curator@, batch) {
                    Err(e) => {
                        &&& r == Err::<Vec<BatchRegisterResult>, ContractError>(e)
                        &&& final(self)@ == old(self)@
                        &&& final(env).did(*old(env), seq![Call::RequireAuth(curator)])
                    },
                    Ok(_) => {
                        &&& r is Ok
                        &&& r->Ok_0@ == old(self)@.batch_results(ids@, ids@.len())
                        &&& final(self)@ == old(self)@.with_batch(batch, old(env).timestamp)
                        &&& final(self)@ == old(self)@.after(
                            (laws::Op::BatchRegister { curator, batch }),
                            old(env).timestamp,
                            old(env).sequence,
                        )
                        &&& final(env).did(
                            *old(env),
                            seq![Call::RequireAuth(curator)] + old(self)@.batch_calls(
                                batch,
                                ids@.len(),
                            ) + seq![Call::Write(DataKey::WorkerList)],
                        )
                    },
                }
            }),
    {
        let ghost batch = Batch {
            ids: ids@,
            owners: owners@,
            names: names@,
            categories: categories@,
            location_hashes: location_hashes@,
            contact_hashes: contact_hashes@,
        };
        env.require_auth(&curator);
        self.check_batch_register(
            &curator,
            &ids,
            &owners,
            &names,
            &categories,
            &location_hashes,
            &contact_hashes,
        )?;
        let n: usize = ids.len();
        let mut results: Vec<BatchRegisterResult> = Vec::new();
        let mut i: usize = 0;
        let ghost s0 = old(self)@;
        assert(self@.worker_list =~= s0.worker_list + s0.batch_listed(ids@, 0));
        assert(results@ =~= s0.batch_results(ids@, 0));
        while i < n
            invariant
                i <= n,
                n == ids@.len(),
                batch.even(),
                batch == (Batch {
                    ids: ids@,
                    owners: owners@,
                    names: names@,
                    categories: categories@,
                    location_hashes: location_hashes@,
                    contact_hashes: contact_hashes@,
                }),
                s0 == old(self)@,
                env.timestamp == old(env).timestamp,
                self@ == (RegistryState {
                    workers: s0.batch_workers(batch, i as nat, old(env).timestamp),
                    worker_list: s0.worker_list + s0.batch_listed(ids@, i as nat),
                    ..s0
                }),
                results@ == s0.batch_results(ids@, i as nat),
                env.did(
                    *old(env),
                    seq![Call::RequireAuth(curator)] + s0.batch_calls(batch, i as nat),
                ),
            decreases n - i,
        {
            let id = ids[i].clone();
            proof {
                lemma_batch_dom(s0, batch, i as nat, old(env).timestamp, id@);
            }
            if self.workers.has(&id) {
                results.push(BatchRegisterResult { id, success: false });
            } else {
                let worker = make_worker(
                    id.clone(),
                    owners[i].clone(),
                    names[i].clone(),
                    categories[i].clone(),
                    location_hashes[i],
                    contact_hashes[i],
                    env.timestamp,
                );
                self.workers.set(id.clone(), worker);
                env.write(DataKey::Worker(id.clone()));
                self.worker_list.push(id.clone());
                env.publish(
                    Topics::Two("WrkReg", Val::Symbol(id.clone())),
                    Data::Two(
                        Val::Address(owners[i].clone()),
                        Val::Symbol(categories[i].clone()),
                    ),
                );
                results.push(BatchRegisterResult { id, success: true });
            }
            i += 1;
            assert(results@ =~= s0.batch_results(ids@, i as nat));
        }
        env.write(DataKey::WorkerList);
        proof {
            lemma_batch_wf(s0, batch, n as nat, old(env).timestamp);
        }
        Ok(results)
    }
}

/// A worker who has just been registered.
fn make_worker(
    id: Symbol,
    owner: Address,
    name: String,
    category: Symbol,
    location_hash: Hash32,
    contact_hash: Hash32,
    now: u64,
) -> (r: Worker)
    ensures
        r@ == new_worker(id, owner, name, category, location_hash, contact_hash, now),
{
    Worker {
        id,
        owner: owner.clone(),
        name,
        category,
        is_active: true,
        wallet: owner,
        location_hash,
        contact_hash,
        reputation: 0,
        verified_categories: Vec::new(),
        staked_amount: 0,
        review_count: 0,
        avg_rating: 0,
        subscription: WorkerSubscription {
            tier: SubscriptionTier::Free,
            expires_at: 0,
            last_renewed_at: now,
        },
    }
}

} // verus!

//! What is kept: how the calls of the registry contract change its state, what they leave alone,
//! and what can be read of it.

use vstd::prelude::*;

use super::delegates::{has_delegate, with_delegate, without_delegate};
use super::laws;
use super::laws::Op;
use super::subscription::tier_of;
use super::verification::{has_skill, with_skill, without_skill};
use super::workers::{new_worker, page_of, registered_event, toggled_event, Batch};
use super::{
    at, list_at, role_id, AvailabilityStatus, Badge, CategoryVerification, CertifiedSkill, DataKey,
    Delegate, LocationVerification, PendingUpgrade, RegistryContract, RegistryState,
    SubscriptionTier, VerificationLevel, WorkerView, ROLE_ADMIN_ID,
};
use crate::host::{Call, Data, Topics, Val};
use crate::list::holds;
use crate::roles::{is_member, members};
use crate::values::{Address, Hash32, Symbol};

verus! {

/// Whether `s` and `t` differ in nothing but the worker `id`, who is registered in `t`.
pub open spec fn differ_in_worker(s: RegistryState, t: RegistryState, id: Seq<char>) -> bool {
    &&& t == (RegistryState { workers: t.workers, ..s })
    &&& same_others(s, t, id)
    &&& t.workers.contains_key(id)
}

/// Whether all workers but `id` are the same in `s` and `t`.
pub open spec fn same_others(s: RegistryState, t: RegistryState, id: Seq<char>) -> bool {
    forall|k: Seq<char>|
        k != id ==> #[trigger] t.workers.contains_key(k) == s.workers.contains_key(k)
            && t.workers[k] == s.workers[k]
}

/// A worker starts active, as given, paid to the owner's account, without reputation, reviews,
/// stake or verified categories, and with a free subscription.
pub proof fn a_new_worker_is_as_given(
    id: Symbol,
    owner: Address,
    name: String,
    category: Symbol,
    location_hash: Hash32,
    contact_hash: Hash32,
    now: u64,
)
    ensures
        ({
            let w = new_worker(id, owner, name, category, location_hash, contact_hash, now);
            &&& w.id == id && w.owner == owner && w.wallet == owner && w.name == name
            &&& w.category == category && w.location_hash == location_hash && w.contact_hash
                == contact_hash
            &&& w.is_active
            &&& w.reputation == 0 && w.review_count == 0 && w.avg_rating == 0 && w.staked_amount
                == 0
            &&& w.verified_categories.len() == 0
            &&& w.subscription.tier == SubscriptionTier::Free
            &&& w.subscription.expires_at == 0 && w.subscription.last_renewed_at == now
        }),
{
}

/// Registering an id that is not in use keeps the worker, lists the id at the end and counts one
/// more; registering one that is in use replaces the worker. Deregistering forgets the worker and
/// counts one less. Nothing else changes.
pub proof fn registering_and_deregistering(
    s: RegistryState,
    w: WorkerView,
    id: Seq<char>,
)
    requires
        s.worker_count < u32::MAX,
    ensures
        ({
            let t = s.registered(w);
            let d = s.deregistered(id);
            let known = s.workers.contains_key(w.id@);
            &&& t.workers.contains_key(w.id@) && t.workers[w.id@] == w
            &&& same_others(s, t, w.id@)
            &&& known ==> t.worker_list == s.worker_list && t.worker_count == s.worker_count
            &&& !known ==> t.worker_list == s.worker_list + seq![w.id] && t.worker_count
                == s.worker_count + 1
            &&& t == (RegistryState {
                workers: t.workers,
                worker_list: t.worker_list,
                worker_count: t.worker_count,
                ..s
            })
            &&& !d.workers.contains_key(id)
            &&& same_others(s, d, id)
            &&& s.worker_count > 0 ==> d.worker_count + 1 == s.worker_count
            &&& s.worker_count == 0 ==> d.worker_count == 0
            &&& d == (RegistryState {
                workers: d.workers,
                worker_list: d.worker_list,
                worker_count: d.worker_count,
                ..s
            })
        }),
{
    let t = s.registered(w);
    if !s.workers.contains_key(w.id@) {
        assert(t.worker_list =~= s.worker_list + seq![w.id]);
    }
}

/// Deregistering takes the id off the list, in the first place where it stands, and leaves the rest
/// in order.
pub proof fn deregistering_takes_the_id_off_the_list(s: RegistryState, id: Seq<char>, i: int)
    requires
        0 <= i < s.worker_list.len(),
        s.worker_list[i]@ == id,
        forall|j: int| 0 <= j < i ==> #[trigger] s.worker_list[j]@ != id,
    ensures
        s.deregistered(id).worker_list == s.worker_list.take(i) + s.worker_list.skip(i + 1),
{
    crate::list::taking_the_first_out_keeps_the_rest(s.worker_list, id, i);
}

/// Registering writes the list and the count where, and only where, the id was not in use, and is
/// announced with owner and category; toggling is announced with the new flag.
pub proof fn registering_and_toggling_are_announced(
    s: RegistryState,
    id: Symbol,
    owner: Address,
    category: Symbol,
    is_active: bool,
)
    ensures
        s.workers.contains_key(id@) ==> s.listing_calls(id@).len() == 0,
        !s.workers.contains_key(id@) ==> s.listing_calls(id@) == seq![
            Call::Write(DataKey::WorkerList),
            Call::Write(DataKey::WorkerCount),
        ],
        registered_event(id, owner, category) == (Call::<DataKey>::Publish {
            topics: Topics::Two("WrkReg", Val::Symbol(id)),
            data: Data::Two(Val::Address(owner), Val::Symbol(category)),
        }),
        toggled_event(id, is_active) == (Call::<DataKey>::Publish {
            topics: Topics::Two("WrkTgl", Val::Symbol(id)),
            data: Data::One(Val::Bool(is_active)),
        }),
{
}

/// Toggling turns an active worker inactive and an inactive one active; subscribing sets tier, end
/// and time. Nothing else of the worker changes, and keeping a worker changes no other.
pub proof fn a_worker_is_changed_alone(
    s: RegistryState,
    id: Seq<char>,
    w: WorkerView,
    tier: SubscriptionTier,
    expires_at: u64,
    now: u64,
)
    ensures
        ({
            let g = w.toggled();
            let b = w.subscribed(tier, expires_at, now);
            &&& differ_in_worker(s, s.with_worker(id, w), id)
            &&& s.with_worker(id, w).workers[id] == w
            &&& g.is_active != w.is_active
            &&& g == (WorkerView { is_active: g.is_active, ..w })
            &&& b.subscription.tier == tier && b.subscription.expires_at == expires_at
                && b.subscription.last_renewed_at == now
            &&& b == (WorkerView { subscription: b.subscription, ..w })
        }),
{
}

/// How often `id` is in `ids`.
pub open spec fn times(ids: Seq<Symbol>, id: Seq<char>) -> nat
    decreases ids.len(),
{
    if ids.len() == 0 {
        0
    } else {
        times(ids.drop_last(), id) + (if ids.last()@ == id {
            1nat
        } else {
            0nat
        })
    }
}

/// A batch toggles every worker as often as the batch names it: one that is named an odd number of
/// times changes, any other does not, and nothing else changes.
pub proof fn a_batch_toggles_as_often_as_named(s: RegistryState, ids: Seq<Symbol>, id: Seq<char>)
    ensures
        ({
            let t = s.batch_toggled(ids);
            let w = t.workers[id];
            &&& t == (RegistryState { workers: t.workers, ..s })
            &&& t.workers.contains_key(id) == s.workers.contains_key(id)
            &&& s.workers.contains_key(id) ==> (w.is_active != s.workers[id].is_active <==> times(
                ids,
                id,
            ) % 2 == 1)
            &&& s.workers.contains_key(id) ==> w == (WorkerView {
                is_active: w.is_active,
                ..s.workers[id]
            })
        }),
    decreases ids.len(),
{
    if ids.len() > 0 {
        a_batch_toggles_as_often_as_named(s, ids.drop_last(), id);
        a_batch_toggles_as_often_as_named(s, ids.drop_last(), ids.last()@);
    }
}

/// A batch answers with the ids in it that name workers, in order, and writes and announces each,
/// with the flag that it has just got.
pub proof fn a_batch_answers_who_was_toggled(s: RegistryState, ids: Seq<Symbol>, next: Symbol)
    ensures
        s.known(Seq::<Symbol>::empty()) == Seq::<Symbol>::empty(),
        s.toggle_calls(Seq::<Symbol>::empty()) == Seq::<Call<DataKey>>::empty(),
        s.workers.contains_key(next@) ==> {
            &&& s.known(ids.push(next)) == s.known(ids).push(next)
            &&& s.toggle_calls(ids.push(next)) == s.toggle_calls(ids) + seq![
                Call::Write(DataKey::Worker(next)),
                toggled_event(next, s.batch_toggled(ids.push(next)).workers[next@].is_active),
            ]
        },
        !s.workers.contains_key(next@) ==> {
            &&& s.known(ids.push(next)) == s.known(ids)
            &&& s.toggle_calls(ids.push(next)) == s.toggle_calls(ids)
        },
{
    reveal(Seq::filter);
    assert(ids.push(next).drop_last() =~= ids);
    assert(s.known(Seq::<Symbol>::empty()) =~= Seq::<Symbol>::empty());
    a_batch_toggles_as_often_as_named(s, ids, next@);
}

/// A batch registers in each place just where the id is not in use and in no earlier place, and
/// says so of each. A worker who was registered before stays as is; one whose id comes up in the
/// batch is as given in the first place that has it; nobody else is registered.
pub proof fn a_batch_registers_new_ids(
    s: RegistryState,
    batch: Batch,
    now: u64,
    n: nat,
    i: int,
    id: Seq<char>,
)
    requires
        n <= batch.ids.len(),
        0 <= i < n,
    ensures
        ({
            let r = s.batch_results(batch.ids, n);
            let w = s.batch_workers(batch, n, now);
            let new = !s.workers.contains_key(batch.ids[i]@) && forall|j: int|
                0 <= j < i ==> #[trigger] batch.ids[j]@ != batch.ids[i]@;
            &&& r.len() == n
            &&& r[i].id == batch.ids[i]
            &&& r[i].success <==> new
            &&& new ==> w.contains_key(batch.ids[i]@) && w[batch.ids[i]@] == new_worker(
                batch.ids[i],
                batch.owners[i],
                batch.names[i],
                batch.categories[i],
                batch.location_hashes[i],
                batch.contact_hashes[i],
                now,
            )
            &&& s.workers.contains_key(id) ==> w.contains_key(id) && w[id] == s.workers[id]
            &&& !s.workers.contains_key(id) && (forall|j: int|
                0 <= j < n ==> #[trigger] batch.ids[j]@ != id) ==> !w.contains_key(id)
        }),
    decreases n,
{
    let k = n - 1;
    assert forall|m: int| 0 <= m < n implies (holds(batch.ids.take(m), batch.ids[m]@) <==> exists|
        j: int,
    |
        0 <= j < m && #[trigger] batch.ids[j]@ == batch.ids[m]@) by {
        let before = batch.ids.take(m);
        if holds(before, batch.ids[m]@) {
            let j = choose|j: int| 0 <= j < before.len() && #[trigger] before[j]@ == batch.ids[m]@;
            assert(batch.ids[j]@ == batch.ids[m]@);
        }
        if exists|j: int| 0 <= j < m && #[trigger] batch.ids[j]@ == batch.ids[m]@ {
            let j = choose|j: int| 0 <= j < m && #[trigger] batch.ids[j]@ == batch.ids[m]@;
            assert(before[j]@ == batch.ids[m]@);
        }
    }
    if i < k {
        a_batch_registers_new_ids(s, batch, now, k as nat, i, id);
        if s.fresh(batch.ids, k) {
            assert(batch.ids[k]@ != batch.ids[i]@) by {
                if batch.ids[i]@ == batch.ids[k]@ {
                    assert(holds(batch.ids.take(k), batch.ids[k]@));
                }
            }
        }
        assert(batch.ids[k] == batch.ids[n - 1]);
    } else {
        lemma_batch_rest(s, batch, now, k as nat, id);
        assert(batch.ids[k] == batch.ids[n - 1]);
    }
}

/// The first `n` places of a batch leave who was registered alone, and register nobody whom they do
/// not name.
proof fn lemma_batch_rest(s: RegistryState, batch: Batch, now: u64, n: nat, id: Seq<char>)
    requires
        n <= batch.ids.len(),
    ensures
        ({
            let w = s.batch_workers(batch, n, now);
            &&& s.workers.contains_key(id) ==> w.contains_key(id) && w[id] == s.workers[id]
            &&& !s.workers.contains_key(id) && (forall|j: int|
                0 <= j < n ==> #[trigger] batch.ids[j]@ != id) ==> !w.contains_key(id)
        }),
    decreases n,
{
    if n > 0 {
        lemma_batch_rest(s, batch, now, (n - 1) as nat, id);
        assert(batch.ids[n - 1] == batch.ids[n - 1]);
        if forall|j: int| 0 <= j < n ==> #[trigger] batch.ids[j]@ != id {
            assert(batch.ids[n - 1]@ != id);
        }
    }
}

/// Place by place, a batch lists at the end of the list, writes and announces with owner and
/// category those that it registers, and no other; it counts nobody, and changes nothing but the
/// workers and the list.
pub proof fn a_batch_lists_and_announces_new_ids(s: RegistryState, batch: Batch, n: nat, now: u64)
    requires
        n < batch.ids.len(),
    ensures
        ({
            let b = s.with_batch(batch, now);
            let id = batch.ids[n as int];
            let new = s.batch_results(batch.ids, n + 1)[n as int].success;
            &&& b == (RegistryState { workers: b.workers, worker_list: b.worker_list, ..s })
            &&& b.workers == s.batch_workers(batch, batch.ids.len(), now)
            &&& b.worker_list == s.worker_list + s.batch_listed(batch.ids, batch.ids.len())
            &&& s.batch_listed(batch.ids, 0).len() == 0
            &&& s.batch_calls(batch, 0).len() == 0
            &&& new ==> s.batch_listed(batch.ids, n + 1) == s.batch_listed(batch.ids, n).push(id)
            &&& !new ==> s.batch_listed(batch.ids, n + 1) == s.batch_listed(batch.ids, n)
            &&& new ==> s.batch_calls(batch, n + 1) == s.batch_calls(batch, n) + seq![
                Call::Write(DataKey::Worker(id)),
                Call::Publish {
                    topics: Topics::Two("WrkReg", Val::Symbol(id)),
                    data: Data::Two(
                        Val::Address(batch.owners[n as int]),
                        Val::Symbol(batch.categories[n as int]),
                    ),
                },
            ]
            &&& !new ==> s.batch_calls(batch, n + 1) == s.batch_calls(batch, n)
        }),
{
}

/// Naming a delegate changes the first delegation of the same account to the new end, or is put
/// behind the others; dismissing takes every delegation of the account out. All others stay, in
/// order.
pub proof fn delegations_are_kept(
    d: Seq<Delegate>,
    who: Address,
    expires_at: u64,
    i: int,
    x: Delegate,
)
    requires
        0 <= i <= d.len(),
        forall|j: int| 0 <= j < i ==> #[trigger] d[j].address@ != who@,
        i < d.len() ==> d[i].address@ == who@,
    ensures
        ({
            let t = with_delegate(d, who, expires_at);
            &&& i == d.len() ==> t == d.push(Delegate { address: who, expires_at })
            &&& i < d.len() ==> t.len() == d.len() && t[i].address == d[i].address
                && t[i].expires_at == expires_at
            &&& forall|j: int| 0 <= j < d.len() && j != i ==> #[trigger] t[j] == d[j]
        }),
        without_delegate(Seq::<Delegate>::empty(), who@) == Seq::<Delegate>::empty(),
        x.address@ == who@ ==> without_delegate(d.push(x), who@) == without_delegate(d, who@),
        x.address@ != who@ ==> without_delegate(d.push(x), who@) == without_delegate(
            d,
            who@,
        ).push(x),
        has_delegate(d, who@) <==> i < d.len(),
    decreases d.len(),
{
    reveal(Seq::filter);
    assert(d.push(x).drop_last() =~= d);
    assert(without_delegate(Seq::<Delegate>::empty(), who@) =~= Seq::<Delegate>::empty());
    if d.len() == 0 {
        assert(with_delegate(d, who, expires_at) =~= d.push(Delegate { address: who, expires_at }));
    } else if i > 0 {
        let rest = d.drop_first();
        assert(d[0].address@ != who@);
        assert forall|j: int| 0 <= j < i - 1 implies #[trigger] rest[j].address@ != who@ by {
            assert(rest[j] == d[j + 1]);
        }
        delegations_are_kept(rest, who, expires_at, i - 1, x);
        let t = with_delegate(d, who, expires_at);
        let r = with_delegate(rest, who, expires_at);
        assert(t =~= seq![d[0]] + r);
        if i == d.len() {
            assert(t =~= d.push(Delegate { address: who, expires_at }));
        }
        assert forall|j: int| 0 <= j < d.len() && j != i implies #[trigger] t[j] == d[j] by {
            if j > 0 {
                assert(r[j - 1] == rest[j - 1]);
            }
        }
    }
}

/// Delegates, skills, levels, availability and verified locations are kept for one worker, as
/// given, and nothing else changes; they are read back as kept.
pub proof fn what_is_kept_for_a_worker_is_read_back(
    s: RegistryState,
    id: Seq<char>,
    delegates: Seq<Delegate>,
    skills: Seq<CertifiedSkill>,
    level: VerificationLevel,
    status: AvailabilityStatus,
    location: LocationVerification,
    other: Seq<char>,
)
    ensures
        ({
            let a = s.with_delegates(id, delegates);
            let b = s.with_skills(id, skills);
            let c = s.with_level(id, level);
            let d = s.with_availability(id, status);
            let e = s.location_verified(id, location);
            &&& a.delegates_of(id) == delegates
            &&& a == (RegistryState { delegates: a.delegates, ..s })
            &&& b.skills_of(id) == skills
            &&& b == (RegistryState { certified_skills: b.certified_skills, ..s })
            &&& c.level_of(id) == level
            &&& c == (RegistryState { verification_levels: c.verification_levels, ..s })
            &&& at(d.availability, id) == Some(status)
            &&& d == (RegistryState { availability: d.availability, ..s })
            &&& at(e.location_verifications, id) == Some(location)
            &&& e == (RegistryState { location_verifications: e.location_verifications, ..s })
            &&& other != id ==> {
                &&& a.delegates_of(other) == s.delegates_of(other)
                &&& b.skills_of(other) == s.skills_of(other)
                &&& c.level_of(other) == s.level_of(other)
                &&& at(d.availability, other) == at(s.availability, other)
                &&& at(e.location_verifications, other) == at(s.location_verifications, other)
            }
        }),
        !s.verification_levels.contains_key(id) ==> s.level_of(id) == VerificationLevel::Unverified,
        s.verification_levels.contains_key(id) ==> s.level_of(id) == s.verification_levels[id],
{
}

/// What is kept under a key is read as it is; where nothing is, nothing is read, or an empty list.
pub proof fn reading_gives_what_is_kept<K, V, T>(m: Map<K, V>, l: Map<K, Seq<T>>, k: K)
    ensures
        m.contains_key(k) ==> at(m, k) == Some(m[k]),
        !m.contains_key(k) ==> at(m, k) is None,
        l.contains_key(k) ==> list_at(l, k) == l[k],
        !l.contains_key(k) ==> list_at(l, k).len() == 0,
{
}

/// An entry is kept alive for 535 000 ledgers once fewer than 267 500 are left.
pub proof fn entries_are_kept_alive()
    ensures
        super::TTL_THRESHOLD == 267_500,
        super::TTL_EXTEND_TO == 535_000,
{
}

/// A delegate acts until the delegation ends, for ever where it has no end; a badge counts
/// likewise, unless it was revoked.
pub proof fn terms_end(d: Delegate, b: Badge, now: u64)
    ensures
        d.in_force(now) <==> d.expires_at == 0 || now < d.expires_at,
        b.valid(now) <==> b.active && (b.expires_at == 0 || now < b.expires_at),
{
}

/// Certifying puts the certificate in the place of every one of the same skill, or, where there is
/// none, behind the others; revoking takes every one of the skill out. All others stay, in order.
pub proof fn certificates_are_kept(
    skills: Seq<CertifiedSkill>,
    entry: CertifiedSkill,
    x: CertifiedSkill,
)
    ensures
        ({
            let t = with_skill(skills, entry);
            let there = exists|i: int|
                0 <= i < skills.len() && #[trigger] skills[i].skill@ == entry.skill@;
            &&& has_skill(skills, entry.skill@) == there
            &&& !there ==> t == skills.push(entry)
            &&& there ==> t.len() == skills.len()
            &&& forall|i: int|
                0 <= i < skills.len() ==> #[trigger] t[i] == if skills[i].skill@ == entry.skill@ {
                    entry
                } else {
                    skills[i]
                }
        }),
        without_skill(Seq::<CertifiedSkill>::empty(), entry.skill@) == Seq::<
            CertifiedSkill,
        >::empty(),
        x.skill@ == entry.skill@ ==> without_skill(skills.push(x), entry.skill@) == without_skill(
            skills,
            entry.skill@,
        ),
        x.skill@ != entry.skill@ ==> without_skill(skills.push(x), entry.skill@) == without_skill(
            skills,
            entry.skill@,
        ).push(x),
{
    reveal(Seq::filter);
    assert(skills.push(x).drop_last() =~= skills);
    assert(without_skill(Seq::<CertifiedSkill>::empty(), entry.skill@) =~= Seq::<
        CertifiedSkill,
    >::empty());
}

/// Verifying a category keeps the verification under the worker and the category, and puts the
/// category behind those verified before, unless it is among them. Nothing else changes.
pub proof fn a_verified_category_is_kept(
    s: RegistryState,
    id: Seq<char>,
    v: CategoryVerification,
    other: (Seq<char>, Seq<char>),
)
    ensures
        ({
            let t = s.category_verified(id, v);
            let w = s.workers[id];
            let u = t.workers[id];
            let there = w.verified_categories.map_values(|c: Symbol| c@).contains(v.category@);
            &&& at(t.category_verifications, (id, v.category@)) == Some(v)
            &&& other != (id, v.category@) ==> at(t.category_verifications, other) == at(
                s.category_verifications,
                other,
            )
            &&& t.workers.contains_key(id)
            &&& same_others(s, t, id)
            &&& there ==> u.verified_categories == w.verified_categories
            &&& !there ==> u.verified_categories == w.verified_categories.push(v.category)
            &&& u == (WorkerView { verified_categories: u.verified_categories, ..w })
            &&& t == (RegistryState {
                workers: t.workers,
                category_verifications: t.category_verifications,
                ..s
            })
        }),
{
    crate::list::holding_is_having_been_put_in(
        s.workers[id].verified_categories,
        v.category,
        v.category@,
    );
}

/// Awarding keeps the badge under the worker and its id, and puts the id behind the worker's
/// others, unless it is among them; revoking makes the badge inactive. Nothing else changes.
pub proof fn badges_are_kept(
    s: RegistryState,
    id: Seq<char>,
    badge: Badge,
    key: (Seq<char>, Seq<char>),
    other: (Seq<char>, Seq<char>),
    worker: Seq<char>,
)
    ensures
        ({
            let t = s.awarded(id, badge);
            let u = s.badge_revoked(key);
            let ids = s.badge_ids(id);
            let there = ids.map_values(|b: Symbol| b@).contains(badge.id@);
            &&& at(t.badges, (id, badge.id@)) == Some(badge)
            &&& other != (id, badge.id@) ==> at(t.badges, other) == at(s.badges, other)
            &&& there ==> t.badge_ids(id) == ids
            &&& !there ==> t.badge_ids(id) == ids.push(badge.id)
            &&& worker != id ==> t.badge_ids(worker) == s.badge_ids(worker)
            &&& t == (RegistryState { badges: t.badges, worker_badges: t.worker_badges, ..s })
            &&& u.badges.contains_key(key) && !u.badges[key].active
            &&& u.badges[key] == (Badge { active: u.badges[key].active, ..s.badges[key] })
            &&& other != key ==> at(u.badges, other) == at(s.badges, other)
            &&& u == (RegistryState { badges: u.badges, ..s })
        }),
{
    crate::list::holding_is_having_been_put_in(s.badge_ids(id), badge.id, badge.id@);
}

/// A worker's badges are read id by id, in the order of the ids: the badge that is kept under it,
/// where there is one.
pub proof fn badges_are_read_in_order(
    s: RegistryState,
    id: Seq<char>,
    ids: Seq<Symbol>,
    next: Symbol,
)
    ensures
        s.badges_named(id, Seq::<Symbol>::empty()) == Seq::<Badge>::empty(),
        s.badges.contains_key((id, next@)) ==> s.badges_named(id, ids.push(next))
            == s.badges_named(id, ids).push(s.badges[(id, next@)]),
        !s.badges.contains_key((id, next@)) ==> s.badges_named(id, ids.push(next))
            == s.badges_named(id, ids),
{
    reveal(Seq::filter);
    assert(ids.push(next).drop_last() =~= ids);
    assert(s.badges_named(id, Seq::<Symbol>::empty()) =~= Seq::<Badge>::empty());
    if s.badges.contains_key((id, next@)) {
        assert(s.badges_named(id, ids.push(next)) =~= s.badges_named(id, ids).push(
            s.badges[(id, next@)],
        ));
    }
}

/// A page is as long as its limit, or as what is left of the counted part of the list from its
/// offset on, and holds what stands there.
pub proof fn a_page_holds_what_stands_there(
    list: Seq<Symbol>,
    total: int,
    offset: u32,
    limit: u32,
    i: int,
)
    requires
        0 <= total <= list.len(),
    ensures
        ({
            let p = page_of(list, total, offset, limit);
            let left = if total > offset {
                total - offset
            } else {
                0
            };
            &&& p.len() <= limit && p.len() <= left
            &&& p.len() == limit || p.len() == left
            &&& 0 <= i < p.len() ==> p[i] == list[offset + i]
        }),
{
}

/// The tiers are numbered from zero, free, basic and premium; the levels likewise, unverified,
/// basic, verified and expert.
pub proof fn tiers_and_levels_are_numbered(tier: u32)
    ensures
        tier_of(0) == Some(SubscriptionTier::Free),
        tier_of(1) == Some(SubscriptionTier::Basic),
        tier_of(2) == Some(SubscriptionTier::Premium),
        tier > 2 ==> tier_of(tier) is None,
        VerificationLevel::Unverified.number() == 0,
        VerificationLevel::Basic.number() == 1,
        VerificationLevel::Verified.number() == 2,
        VerificationLevel::Expert.number() == 3,
{
}

/// Initialising keeps the admin, the first schema version, and the admin as the one member of the
/// admin's role. Roles, pause, admin, curators, categories and pending code are set as given, one
/// at a time, and nothing else changes. New code waits 34 560 ledgers.
pub proof fn settings_change_one_thing(
    s: RegistryState,
    who: Address,
    role: Seq<char>,
    paused: bool,
    name: Symbol,
    pending: Option<PendingUpgrade>,
)
    ensures
        ({
            let n = s.initialized(who);
            let g = s.granted(role, who);
            let r = s.revoked(role, who@);
            let p = s.with_paused(paused);
            let a = s.with_admin(who);
            let ci = s.with_curator(who);
            let co = s.without_curator(who@);
            let ki = s.with_category(name);
            let ko = s.without_category(name@);
            let u = s.with_pending(pending);
            &&& n.admin == Some(who) && n.schema_version == Some(1u32)
            &&& members(n.roles, ROLE_ADMIN_ID) == seq![who]
            &&& forall|x: u64|
                x != ROLE_ADMIN_ID ==> #[trigger] members(n.roles, x) == members(s.roles, x)
            &&& n == (RegistryState {
                admin: n.admin,
                schema_version: n.schema_version,
                roles: n.roles,
                ..s
            })
            &&& g == (RegistryState { roles: g.roles, ..s })
            &&& r == (RegistryState { roles: r.roles, ..s })
            &&& p.paused == paused
            &&& p == (RegistryState { paused: p.paused, ..s })
            &&& a == (RegistryState { admin: a.admin, roles: a.roles, ..s })
            &&& ci == (RegistryState { curators: ci.curators, ..s })
            &&& co == (RegistryState { curators: co.curators, ..s })
            &&& ki == (RegistryState { categories: ki.categories, ..s })
            &&& ko == (RegistryState { categories: ko.categories, ..s })
            &&& u.pending_upgrade == pending
            &&& u == (RegistryState { pending_upgrade: u.pending_upgrade, ..s })
            &&& RegistryContract::TIMELOCK_LEDGERS == 34_560
        }),
{
}

/// Every call that is let in keeps what it was given, and changes nothing but what it is about: the
/// settings, a worker's profile, reputation, stake, delegates, badges, skills or verifications.
pub proof fn every_call_keeps_what_it_was_given(
    s: RegistryState,
    op: Op,
    now: u64,
    sequence: u32,
)
    requires
        s.verdict(op, now, sequence) is Ok,
    ensures
        ({
            let t = s.after(op, now, sequence);
            match op {
                Op::Initialize { admin } => t.admin == Some(admin),
                Op::GrantRole { role, account, .. } => is_member(
                    t.roles,
                    role_id(role@),
                    account@,
                ) && t == (RegistryState { roles: t.roles, ..s }),
                Op::RevokeRole { role, account, .. } => !is_member(
                    t.roles,
                    role_id(role@),
                    account@,
                ) && t == (RegistryState { roles: t.roles, ..s }),
                Op::AddDelegate { id, delegate, expires_at, .. } => (expires_at == 0 || expires_at
                    > now ==> t.delegated(id@, delegate@, now)) && t == (RegistryState {
                    delegates: t.delegates,
                    ..s
                }),
                Op::RemoveDelegate { id, delegate, .. } => !t.delegated(id@, delegate@, now) && t
                    == (RegistryState { delegates: t.delegates, ..s }),
                Op::Pause { .. } => t.paused && t == (RegistryState { paused: t.paused, ..s }),
                Op::Unpause { .. } => !t.paused && t == (RegistryState { paused: t.paused, ..s }),
                Op::AddCurator { curator, .. } => holds(t.curators, curator@) && t == (
                RegistryState { curators: t.curators, ..s }),
                Op::RemoveCurator { curator, .. } => !holds(t.curators, curator@) && t == (
                RegistryState { curators: t.curators, ..s }),
                Op::Register { id, owner, name, category, location_hash, contact_hash, .. } => {
                    let w = t.workers[id@];
                    &&& t.workers.contains_key(id@)
                    &&& w.id == id && w.owner == owner && w.wallet == owner && w.name == name
                    &&& w.category == category && w.location_hash == location_hash
                        && w.contact_hash == contact_hash
                    &&& w.is_active && w.reputation == 0 && w.review_count == 0
                    &&& same_others(s, t, id@)
                },
                Op::Toggle { id, .. } => t.workers[id@].is_active != s.workers[id@].is_active
                    && differ_in_worker(s, t, id@),
                Op::Update { id, name, category, location_hash, contact_hash, .. } => {
                    let w = t.workers[id@];
                    &&& w.name == name && w.category == category
                    &&& w.location_hash == location_hash && w.contact_hash == contact_hash
                    &&& w.wallet == s.workers[id@].wallet && w.is_active == s.workers[id@].is_active
                    &&& w.reputation == s.workers[id@].reputation
                    &&& differ_in_worker(s, t, id@)
                },
                Op::UpdateWorker { id, name, category, wallet, .. } => {
                    let w = t.workers[id@];
                    &&& w.name == name && w.category == category && w.wallet == wallet
                    &&& w.location_hash == s.workers[id@].location_hash && w.contact_hash
                        == s.workers[id@].contact_hash
                    &&& w.is_active == s.workers[id@].is_active && w.reputation
                        == s.workers[id@].reputation
                    &&& differ_in_worker(s, t, id@)
                },
                Op::Deregister { id, .. } => !t.workers.contains_key(id@) && same_others(
                    s,
                    t,
                    id@,
                ),
                Op::SetAdmin { new_admin } => t.admin == Some(new_admin) && is_member(
                    t.roles,
                    ROLE_ADMIN_ID,
                    new_admin@,
                ),
                Op::UpdateReputation { id, score, .. } => t.workers[id@].reputation == score
                    && same_others(s, t, id@),
                Op::SubmitReview { id, rating, .. } => {
                    let a = s.inputs_of(id@);
                    let b = t.inputs_of(id@);
                    &&& a.rating_count < u32::MAX && a.rating_sum + rating <= u64::MAX
                        ==> b.rating_count == a.rating_count + 1 && b.rating_sum == a.rating_sum
                        + rating
                    &&& b.last_review_at == now
                    &&& same_others(s, t, id@)
                },
                Op::RecordJob { id, score, .. } => {
                    let a = s.inputs_of(id@);
                    let b = t.inputs_of(id@);
                    &&& a.tip_count < u32::MAX ==> b.tip_count == a.tip_count + 1
                    &&& b.rating_sum == a.rating_sum && b.rating_count == a.rating_count
                    &&& t.workers[id@].reputation == score
                    &&& same_others(s, t, id@)
                },
                Op::SlashReputation { id, slash_bps, .. } => {
                    let a = s.workers[id@].reputation;
                    let b = t.workers[id@].reputation;
                    &&& a >= slash_bps ==> b + slash_bps == a
                    &&& a < slash_bps ==> b == 0
                    &&& same_others(s, t, id@)
                },
                Op::UpdateReviews { id, review_count, avg_rating, .. } => {
                    let w = t.workers[id@];
                    &&& w.review_count == review_count && w.avg_rating == avg_rating
                    &&& w.reputation == s.workers[id@].reputation
                    &&& differ_in_worker(s, t, id@)
                },
                Op::UpdateSubscription { id, tier, expires_at, .. } => {
                    let b = t.workers[id@].subscription;
                    &&& tier_of(tier) == Some(b.tier)
                    &&& b.expires_at == expires_at && b.last_renewed_at == now
                    &&& differ_in_worker(s, t, id@)
                },
                Op::RenewSubscription { id, expires_at, .. } => {
                    let b = t.workers[id@].subscription;
                    &&& b.tier == s.workers[id@].subscription.tier
                    &&& b.expires_at == expires_at && b.last_renewed_at == now
                    &&& differ_in_worker(s, t, id@)
                },
                Op::VerifyCategory { curator, id, category, expires_at } => {
                    let v = t.category_verifications[(id@, category@)];
                    &&& t.category_verifications.contains_key((id@, category@))
                    &&& v.category == category && v.curator == curator && v.expires_at
                        == expires_at
                    &&& holds(t.workers[id@].verified_categories, category@)
                    &&& same_others(s, t, id@)
                },
                Op::VerifyLocation { verifier, id, expires_at } => {
                    let v = t.location_verifications[id@];
                    &&& t.location_verifications.contains_key(id@)
                    &&& v.verifier == verifier && v.verified_at == now && v.expires_at
                        == expires_at
                    &&& t.workers == s.workers
                },
                Op::UpdateAvailability { id, is_available, expires_at, .. } => {
                    let v = t.availability[id@];
                    &&& t.availability.contains_key(id@)
                    &&& v.is_available == is_available && v.updated_at == now && v.expires_at
                        == expires_at
                    &&& t.workers == s.workers
                },
                Op::BatchToggle { .. } => t == (RegistryState { workers: t.workers, ..s }),
                Op::BatchRegister { .. } => t == (RegistryState {
                    workers: t.workers,
                    worker_list: t.worker_list,
                    ..s
                }),
                Op::Stake { id, token, amount, .. } => {
                    let a = s.stake_of(id@, token, now);
                    let b = t.stakes[id@];
                    &&& t.stakes.contains_key(id@)
                    &&& a.amount + amount <= i128::MAX ==> b.amount == a.amount + amount
                    &&& b.token == a.token && b.unstake_requested_at == 0 && b.last_reward_ledger
                        == now
                    &&& t.workers[id@].staked_amount == b.amount
                    &&& same_others(s, t, id@)
                },
                Op::RequestUnstake { id, .. } => t.stakes[id@].unstake_requested_at == now
                    && t.stakes[id@].amount == s.stakes[id@].amount && t.workers == s.workers,
                Op::Unstake { id, .. } => t.stakes[id@].amount == 0
                    && t.stakes[id@].rewards_accumulated == 0 && t.stakes[id@].unstake_requested_at
                    == 0 && t.workers[id@].staked_amount == 0 && same_others(s, t, id@),
                Op::UpdateMetrics { id, jobs_completed, score, .. } => {
                    let m = t.metrics[id@];
                    &&& t.metrics.contains_key(id@)
                    &&& m.jobs_completed == jobs_completed && m.last_updated == now
                        && m.performance_score == score
                    &&& t.workers == s.workers
                },
                Op::AwardBadge { issuer, id, badge_id, name, expires_at } => {
                    let b = t.badges[(id@, badge_id@)];
                    &&& t.badges.contains_key((id@, badge_id@))
                    &&& b.id == badge_id && b.name == name && b.issuer == issuer
                    &&& b.awarded_at == now && b.expires_at == expires_at && b.active
                    &&& t.workers == s.workers
                },
                Op::RevokeBadge { id, badge_id, .. } => !t.badges[(id@, badge_id@)].active
                    && t.workers == s.workers,
                Op::AddCategory { category, .. } => holds(t.categories, category@) && t == (
                RegistryState { categories: t.categories, ..s }),
                Op::RemoveCategory { category, .. } => !holds(t.categories, category@) && t == (
                RegistryState { categories: t.categories, ..s }),
                Op::ProposeUpgrade { hash, .. } => {
                    &&& t.pending_upgrade is Some && t.pending_upgrade->0.wasm_hash == hash
                    &&& sequence + 34_560 <= u32::MAX
                        ==> t.pending_upgrade->0.execute_after_ledger == sequence + 34_560
                    &&& t == (RegistryState { pending_upgrade: t.pending_upgrade, ..s })
                },
                Op::ExecuteUpgrade {  } => t.pending_upgrade is None && t == (RegistryState {
                    pending_upgrade: t.pending_upgrade,
                    ..s
                }),
                Op::CancelUpgrade { .. } => t.pending_upgrade is None && t == (RegistryState {
                    pending_upgrade: t.pending_upgrade,
                    ..s
                }),
                Op::SetLevel { id, level, .. } => t.level_of(id@) == level && t.workers
                    == s.workers,
                Op::AddSkill { caller, id, skill, expires_at } => {
                    let entry = CertifiedSkill {
                        skill,
                        certified_by: caller,
                        certified_at: now,
                        expires_at,
                    };
                    t.skills_of(id@).contains(entry) && t.workers == s.workers
                },
                Op::RevokeSkill { id, skill, .. } => !has_skill(t.skills_of(id@), skill@)
                    && t.workers == s.workers,
            }
        }),
{
    let t = s.after(op, now, sequence);
    match op {
        Op::GrantRole { role, account, .. } => laws::granting_gives_the_role(s, role@, account),
        Op::RevokeRole { role, account, .. } => laws::revoking_takes_the_role(s, role@, account@),
        Op::SetAdmin { new_admin } => laws::admin_role_follows_the_admin(s, new_admin),
        Op::AddDelegate { id, delegate, expires_at, .. } => {
            if expires_at == 0 || expires_at > now {
                laws::delegates_may_act(s, id@, delegate, expires_at, now);
            }
        },
        Op::RemoveDelegate { id, delegate, .. } => laws::dismissed_delegates_may_not_act(
            s,
            id@,
            delegate@,
            now,
        ),
        Op::AddCurator { curator, .. } => laws::curators_are_approved_and_dismissed(
            s,
            curator,
            curator@,
        ),
        Op::RemoveCurator { curator, .. } => laws::curators_are_approved_and_dismissed(
            s,
            curator,
            curator@,
        ),
        Op::AddCategory { category, .. } => laws::categories_are_allowed_and_disallowed(
            s,
            category,
            category@,
        ),
        Op::RemoveCategory { category, .. } => laws::categories_are_allowed_and_disallowed(
            s,
            category,
            category@,
        ),
        Op::VerifyCategory { id, category, .. } => crate::list::lemma_with_holds(
            s.workers[id@].verified_categories,
            category,
            category@,
        ),
        Op::AddSkill { caller, id, skill, expires_at } => {
            let entry = CertifiedSkill {
                skill,
                certified_by: caller,
                certified_at: now,
                expires_at,
            };
            laws::skills_are_certified_and_revoked(s.skills_of(id@), entry, entry);
            let k = with_skill(s.skills_of(id@), entry);
            let i = choose|i: int| 0 <= i < k.len() && #[trigger] k[i].skill@ == skill@;
            assert(k[i] == entry);
            assert(t.skills_of(id@)[i] == entry);
        },
        Op::RevokeSkill { caller, id, skill } => {
            let entry = CertifiedSkill {
                skill,
                certified_by: caller,
                certified_at: now,
                expires_at: 0,
            };
            laws::skills_are_certified_and_revoked(s.skills_of(id@), entry, entry);
        },
        _ => {},
    }
}

} // verus!

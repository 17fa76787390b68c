//! What holds of the lists that the registry keeps: of workers, page by page, and of badges.

use vstd::prelude::*;

use super::badges::lemma_all_named;
use super::laws::{run, Op, Step};
use super::workers::{lemma_batch_dom, lemma_toggled_dom, page_of, Batch};
use super::{Badge, RegistryState};
use crate::list::{
    distinct, holds, lemma_push_distinct, lemma_with_holds, lemma_without_first_distinct,
};
use crate::values::Symbol;

verus! {

impl RegistryState {
    /// The list of workers holds the ids of all workers who are registered, each once, and no
    /// other.
    pub open spec fn lists_the_registered(self) -> bool {
        &&& distinct(self.worker_list)
        &&& forall|id: Seq<char>| #[trigger]
            holds(self.worker_list, id) == self.workers.contains_key(id)
    }

    /// The ids of a worker's badges are listed once each; those that are listed, and no other,
    /// are the ids under which the worker's badges are kept.
    pub open spec fn lists_the_badges(self) -> bool {
        &&& forall|id: Seq<char>| #[trigger] distinct(self.badge_ids(id))
        &&& forall|id: Seq<char>, b: Seq<char>|
            holds(#[trigger] self.badge_ids(id), b) == #[trigger] self.badges.contains_key((id, b))
        &&& forall|key: (Seq<char>, Seq<char>)| #[trigger]
            self.badges.contains_key(key) ==> self.badges[key].id@ == key.1
    }
}

proof fn lemma_batch_listings(s: RegistryState, batch: Batch, n: nat, now: u64)
    requires
        s.lists_the_registered(),
        n <= batch.ids.len(),
    ensures
        (RegistryState {
            workers: s.batch_workers(batch, n, now),
            worker_list: s.worker_list + s.batch_listed(batch.ids, n),
            ..s
        }).lists_the_registered(),
    decreases n,
{
    if n == 0 {
        assert(s.worker_list + s.batch_listed(batch.ids, 0) =~= s.worker_list);
    } else {
        let i = n - 1;
        let id = batch.ids[i];
        lemma_batch_listings(s, batch, i as nat, now);
        let l0 = s.worker_list + s.batch_listed(batch.ids, i as nat);
        let l1 = s.worker_list + s.batch_listed(batch.ids, n);
        let w0 = s.batch_workers(batch, i as nat, now);
        let before = RegistryState { workers: w0, worker_list: l0, ..s };
        if s.fresh(batch.ids, i) {
            lemma_batch_dom(s, batch, i as nat, now, id@);
            assert(holds(before.worker_list, id@) == before.workers.contains_key(id@));
            assert(l1 =~= l0.push(id));
            lemma_push_distinct(l0, id);
        }
    }
}

proof fn lemma_same_workers(s: RegistryState, t: RegistryState)
    requires
        s.lists_the_registered(),
        t.worker_list == s.worker_list,
        t.workers.dom() =~= s.workers.dom(),
    ensures
        t.lists_the_registered(),
{
    assert forall|id: Seq<char>| #[trigger] holds(t.worker_list, id) == t.workers.contains_key(
        id,
    ) by {
        assert(t.workers.dom().contains(id) == s.workers.dom().contains(id));
    }
}

proof fn lemma_same_badges(s: RegistryState, t: RegistryState)
    requires
        s.lists_the_badges(),
        t.worker_badges == s.worker_badges,
        t.badges.dom() =~= s.badges.dom(),
        forall|key: (Seq<char>, Seq<char>)| #[trigger]
            s.badges.contains_key(key) ==> t.badges[key].id == s.badges[key].id,
    ensures
        t.lists_the_badges(),
{
    assert forall|id: Seq<char>| #[trigger] distinct(t.badge_ids(id)) by {
        assert(t.badge_ids(id) == s.badge_ids(id));
    }
    assert forall|id: Seq<char>, b: Seq<char>|
        holds(#[trigger] t.badge_ids(id), b) == #[trigger] t.badges.contains_key((id, b)) by {
        assert(t.badge_ids(id) == s.badge_ids(id));
        assert(holds(s.badge_ids(id), b) == s.badges.contains_key((id, b)));
        assert(t.badges.dom().contains((id, b)) == s.badges.dom().contains((id, b)));
    }
    assert forall|key: (Seq<char>, Seq<char>)| #[trigger] t.badges.contains_key(key) implies
        t.badges[key].id@ == key.1 by {
        assert(t.badges.dom().contains(key) == s.badges.dom().contains(key));
        assert(s.badges.contains_key(key));
    }
}

proof fn lemma_awarded_listings(s: RegistryState, id: Seq<char>, badge: Badge)
    requires
        s.lists_the_registered(),
        s.lists_the_badges(),
    ensures
        s.awarded(id, badge).lists_the_registered(),
        s.awarded(id, badge).lists_the_badges(),
{
    let t = s.awarded(id, badge);
    let l = s.badge_ids(id);
    if !holds(l, badge.id@) {
        lemma_push_distinct(l, badge.id);
    }
    assert(distinct(l));
    assert forall|x: Seq<char>| #[trigger] distinct(t.badge_ids(x)) by {
        if x != id {
            assert(t.badge_ids(x) == s.badge_ids(x));
        }
    }
    assert forall|x: Seq<char>, b: Seq<char>|
        holds(#[trigger] t.badge_ids(x), b) == #[trigger] t.badges.contains_key((x, b)) by {
        if x == id {
            lemma_with_holds(l, badge.id, b);
        } else {
            assert(t.badge_ids(x) == s.badge_ids(x));
        }
        assert(holds(s.badge_ids(x), b) == s.badges.contains_key((x, b)));
    }
    assert forall|id: Seq<char>| #[trigger] holds(t.worker_list, id) == t.workers.contains_key(
        id,
    ) by {
        assert(holds(s.worker_list, id) == s.workers.contains_key(id));
    }
}

/// Every call keeps the lists of workers and of badges: whoever is registered is listed once,
/// and no one else is; a worker's badges are listed once each, and kept under their own ids.
pub proof fn every_call_keeps_the_listings(s: RegistryState, op: Op, now: u64, sequence: u32)
    requires
        s.lists_the_registered(),
        s.lists_the_badges(),
    ensures
        s.after(op, now, sequence).lists_the_registered(),
        s.after(op, now, sequence).lists_the_badges(),
{
    let t = s.after(op, now, sequence);
    if s.verdict(op, now, sequence) is Ok {
        match op {
            Op::AwardBadge { issuer, id, badge_id, name, expires_at } => lemma_awarded_listings(
                s,
                id@,
                Badge { id: badge_id, name, issuer, awarded_at: now, expires_at, active: true },
            ),
            Op::Register { id, .. } => {
                lemma_same_badges(s, t);
                if !s.workers.contains_key(id@) {
                    assert(!holds(s.worker_list, id@));
                    lemma_push_distinct(s.worker_list, id);
                } else {
                    lemma_same_workers(s, t);
                }
            },
            Op::Deregister { id, .. } => {
                lemma_same_badges(s, t);
                lemma_without_first_distinct(s.worker_list, id@);
                assert forall|k: Seq<char>| #[trigger] holds(
                    t.worker_list,
                    k,
                ) == t.workers.contains_key(k) by {
                    assert(holds(s.worker_list, k) == s.workers.contains_key(k));
                }
            },
            Op::BatchToggle { ids, .. } => {
                lemma_same_badges(s, t);
                lemma_toggled_dom(s, ids);
                lemma_same_workers(s, t);
            },
            Op::BatchRegister { batch, .. } => {
                lemma_same_badges(s, t);
                lemma_batch_listings(s, batch, batch.ids.len(), now);
            },
            _ => {
                lemma_same_badges(s, t);
                lemma_same_workers(s, t);
            },
        }
    }
}

/// Whatever has been called since the contract was deployed, the list of workers holds the ids
/// of all workers who are registered, each once, and no other, so that its length is their
/// number; and the lists of badges are those of the badges that are kept.
pub proof fn every_history_lists_the_registered(steps: Seq<Step>)
    ensures
        run(steps).lists_the_registered(),
        run(steps).lists_the_badges(),
        run(steps).workers.dom().finite(),
        run(steps).workers.dom().len() == run(steps).worker_list.len(),
    decreases steps.len(),
{
    let s = run(steps);
    if steps.len() > 0 {
        every_history_lists_the_registered(steps.drop_last());
        every_call_keeps_the_listings(
            run(steps.drop_last()),
            steps.last().op,
            steps.last().now,
            steps.last().sequence,
        );
    }
    let views = s.worker_list.map_values(|id: Symbol| id@);
    assert(views.no_duplicates());
    views.unique_seq_to_set();
    assert(views.to_set() =~= s.workers.dom()) by {
        assert forall|id: Seq<char>| views.contains(id) == s.workers.contains_key(id) by {
            assert(holds(s.worker_list, id) == s.workers.contains_key(id));
            if views.contains(id) {
                let i = choose|i: int| 0 <= i < views.len() && views[i] == id;
                assert(s.worker_list[i]@ == id);
            }
            if holds(s.worker_list, id) {
                let l = s.worker_list;
                let i = choose|i: int| 0 <= i < l.len() && #[trigger] l[i]@ == id;
                assert(views[i] == id);
            }
        }
    }
}

/// A worker's badges are read back one for each id that is listed, in the order of the list, and
/// a badge that was awarded is among them.
pub proof fn awarded_badges_are_read_back(s: RegistryState, id: Seq<char>, badge: Badge)
    requires
        s.lists_the_registered(),
        s.lists_the_badges(),
    ensures
        ({
            let t = s.awarded(id, badge);
            let ids = t.badge_ids(id);
            let badges = t.badges_named(id, ids);
            &&& badges.len() == ids.len()
            &&& forall|i: int|
                0 <= i < ids.len() ==> (#[trigger] badges[i]) == t.badges[(id, ids[i]@)]
                    && badges[i].id@ == ids[i]@
            &&& badges.contains(badge)
        }),
{
    lemma_awarded_listings(s, id, badge);
    let t = s.awarded(id, badge);
    let ids = t.badge_ids(id);
    assert forall|i: int| 0 <= i < ids.len() implies t.badges.contains_key(
        (id, (#[trigger] ids[i])@),
    ) by {
        assert(holds(ids, ids[i]@));
        assert(holds(t.badge_ids(id), ids[i]@) == t.badges.contains_key((id, ids[i]@)));
    }
    lemma_all_named(t, id, ids);
    let badges = t.badges_named(id, ids);
    lemma_with_holds(s.badge_ids(id), badge.id, badge.id@);
    let i = choose|i: int| 0 <= i < ids.len() && #[trigger] ids[i]@ == badge.id@;
    assert(badges[i] == badge);
}

/// The lesser of two numbers.
spec fn least(a: int, b: int) -> int {
    if a < b {
        a
    } else {
        b
    }
}

/// A page is cut out of the list from its offset on, as long as its limit or as far as the list
/// goes, whatever the offset and the limit are. It is empty only where nothing is asked for, or
/// nothing is there.
pub proof fn a_page_is_cut_out_of_the_list(list: Seq<Symbol>, offset: u32, limit: u32)
    ensures
        ({
            let n = list.len() as int;
            let page = page_of(list, n, offset, limit);
            &&& page == list.subrange(
                if offset < n { offset as int } else { n },
                if offset + limit < n { offset + limit } else { n },
            )
            &&& page.len() == 0 <==> offset >= n || limit == 0
        }),
{
    let n = list.len() as int;
    let from = least(offset as int, n);
    let to = least(offset + limit, n);
    assert(page_of(list, n, offset, limit) =~= list.subrange(from, to));
}

/// The first `count` pages of `size` workers each, one after the other.
pub open spec fn joined_pages(list: Seq<Symbol>, size: u32, count: nat) -> Seq<Symbol>
    decreases count,
{
    if count == 0 {
        seq![]
    } else {
        joined_pages(list, size, (count - 1) as nat) + page_of(
            list,
            list.len() as int,
            ((count - 1) * size) as u32,
            size,
        )
    }
}

/// Pages of one size that follow each other make up the list: joined, they are its beginning, and
/// all of it once they reach its end. The offset of each must be a `u32`, as it is up to the page
/// that reaches the end.
pub proof fn pages_make_up_the_list(list: Seq<Symbol>, size: u32, count: nat)
    requires
        size > 0,
        (count - 1) * size <= u32::MAX,
    ensures
        count * size <= list.len() ==> joined_pages(list, size, count) == list.take(
            count * size as int,
        ),
        count * size >= list.len() ==> joined_pages(list, size, count) == list,
    decreases count,
{
    let n = list.len() as int;
    if count == 0 {
        assert(count * size == 0) by (nonlinear_arith)
            requires
                count == 0,
        ;
        assert(joined_pages(list, size, count) =~= list.take(0));
        if n == 0 {
            assert(joined_pages(list, size, count) =~= list);
        }
    } else {
        let k = count - 1;
        assert(k * size + size == count * size) by (nonlinear_arith)
            requires
                k == count - 1,
        ;
        assert(k >= 0 ==> (k - 1) * size <= k * size && 0 <= k * size) by (nonlinear_arith)
            requires
                size > 0,
        ;
        pages_make_up_the_list(list, size, k as nat);
        let before = joined_pages(list, size, k as nat);
        let offset = (k * size) as u32;
        assert(offset == k * size);
        let page = page_of(list, n, offset, size);
        if k * size <= n {
            assert(before =~= list.take(k * size));
        }
        if count * size <= n {
            assert(before + page =~= list.take(count * size as int));
        }
        if count * size >= n {
            assert(before + page =~= list);
        }
    }
}

} // verus!

//! Lists of keys, searched from the front.

use vstd::prelude::*;

use crate::values::{Dup, Key};

verus! {

/// Some item of `s` has the view `k`.
pub open spec fn holds<T: View>(s: Seq<T>, k: T::V) -> bool {
    exists|i: int| 0 <= i < s.len() && #[trigger] s[i]@ == k
}

/// No two items of `s` have the same view.
pub open spec fn distinct<T: View>(s: Seq<T>) -> bool {
    forall|i: int, j: int| 0 <= i < j < s.len() ==> #[trigger] s[i]@ != #[trigger] s[j]@
}

/// `s` without the items whose view is `k`; the rest keeps its order.
pub open spec fn without<T: View>(s: Seq<T>, k: T::V) -> Seq<T> {
    s.filter(|m: T| m@ != k)
}

/// `s` with `x` at its end, unless it is there already.
pub open spec fn with<T: View>(s: Seq<T>, x: T) -> Seq<T> {
    if holds(s, x@) {
        s
    } else {
        s.push(x)
    }
}

/// The place of the first item whose view is `k`.
pub open spec fn first_at<T: View>(s: Seq<T>, k: T::V, i: int) -> bool {
    &&& 0 <= i < s.len()
    &&& s[i]@ == k
    &&& forall|j: int| 0 <= j < i ==> #[trigger] s[j]@ != k
}

/// `s` without its first item whose view is `k`.
pub open spec fn without_first<T: View>(s: Seq<T>, k: T::V) -> Seq<T>
    decreases s.len(),
{
    if s.len() == 0 {
        s
    } else if s[0]@ == k {
        s.drop_first()
    } else {
        seq![s[0]] + without_first(s.drop_first(), k)
    }
}

pub proof fn lemma_without_first_at<T: View>(s: Seq<T>, k: T::V, i: int)
    requires
        first_at(s, k, i),
    ensures
        without_first(s, k) == s.remove(i),
    decreases i,
{
    if i > 0 {
        assert(s[0]@ != k);
        let rest = s.drop_first();
        assert forall|j: int| 0 <= j < i - 1 implies #[trigger] rest[j]@ != k by {
            assert(rest[j] == s[j + 1]);
        }
        lemma_without_first_at(rest, k, i - 1);
        assert(s.remove(i) =~= seq![s[0]] + rest.remove(i - 1));
    } else {
        assert(s.remove(0) =~= s.drop_first());
    }
}

pub proof fn lemma_without_first_absent<T: View>(s: Seq<T>, k: T::V)
    requires
        !holds(s, k),
    ensures
        without_first(s, k) == s,
    decreases s.len(),
{
    if s.len() > 0 {
        let rest = s.drop_first();
        assert(s[0]@ != k);
        assert forall|j: int| 0 <= j < rest.len() implies #[trigger] rest[j]@ != k by {
            assert(rest[j] == s[j + 1]);
        }
        lemma_without_first_absent(rest, k);
        assert(s =~= seq![s[0]] + rest);
    }
}

/// One item fewer is in `without_first(s, k)`, where `s` holds `k`.
pub proof fn lemma_without_first_len<T: View>(s: Seq<T>, k: T::V)
    requires
        holds(s, k),
    ensures
        without_first(s, k).len() == s.len() - 1,
    decreases s.len(),
{
    if s[0]@ != k {
        let i = choose|i: int| 0 <= i < s.len() && #[trigger] s[i]@ == k;
        assert(s.drop_first()[i - 1]@ == k);
        lemma_without_first_len(s.drop_first(), k);
    }
}

/// What has another view stays in `without_first(s, k)`.
pub proof fn lemma_without_first_keeps<T: View>(s: Seq<T>, k: T::V, other: T::V)
    requires
        other != k,
        holds(s, other),
    ensures
        holds(without_first(s, k), other),
    decreases s.len(),
{
    let i = choose|i: int| 0 <= i < s.len() && #[trigger] s[i]@ == other;
    let rest = s.drop_first();
    if i > 0 {
        assert(rest[i - 1]@ == other);
    }
    if s[0]@ == k {
    } else if i == 0 {
        assert(without_first(s, k)[0]@ == other);
    } else {
        lemma_without_first_keeps(rest, k, other);
        let w = without_first(rest, k);
        let j = choose|j: int| 0 <= j < w.len() && #[trigger] w[j]@ == other;
        assert(without_first(s, k)[j + 1]@ == other);
    }
}

/// Where no two items of `s` have the same view, `without_first(s, k)` holds what `s` does but `k`,
/// and no two of its items have the same view either.
pub proof fn lemma_without_first_distinct<T: View>(s: Seq<T>, k: T::V)
    requires
        distinct(s),
    ensures
        distinct(without_first(s, k)),
        forall|x: T::V| #[trigger]
            holds(without_first(s, k), x) == (holds(s, x) && x != k),
{
    if holds(s, k) {
        let i = choose|i: int| 0 <= i < s.len() && #[trigger] s[i]@ == k;
        lemma_without_first_at(s, k, i);
        let t = s.remove(i);
        assert forall|a: int, b: int| 0 <= a < b < t.len() implies #[trigger] t[a]@
            != #[trigger] t[b]@ by {
            let a1 = if a < i { a } else { a + 1 };
            let b1 = if b < i { b } else { b + 1 };
            assert(t[a] == s[a1] && t[b] == s[b1]);
        }
        assert forall|x: T::V| #[trigger] holds(t, x) == (holds(s, x) && x != k) by {
            if holds(t, x) {
                let a = choose|a: int| 0 <= a < t.len() && #[trigger] t[a]@ == x;
                let a1 = if a < i { a } else { a + 1 };
                assert(s[a1]@ == x);
                assert(s[a1]@ != s[i]@);
            }
            if holds(s, x) && x != k {
                let a = choose|a: int| 0 <= a < s.len() && #[trigger] s[a]@ == x;
                let a1 = if a < i { a } else { a - 1 };
                assert(t[a1]@ == x);
            }
        }
    } else {
        lemma_without_first_absent(s, k);
    }
}

/// An item with a new view at the end of `s`: no two items have the same view still.
pub proof fn lemma_push_distinct<T: View>(s: Seq<T>, x: T)
    requires
        distinct(s),
        !holds(s, x@),
    ensures
        distinct(s.push(x)),
        forall|k: T::V| #[trigger] holds(s.push(x), k) == (holds(s, k) || k == x@),
{
    assert forall|i: int, j: int| 0 <= i < j < s.push(x).len() implies #[trigger] s.push(x)[i]@
        != #[trigger] s.push(x)[j]@ by {
        assert(s.push(x)[i] == s[i]);
        if j < s.len() {
            assert(s.push(x)[j] == s[j]);
        }
    }
    assert forall|k: T::V| #[trigger] holds(s.push(x), k) == (holds(s, k) || k == x@) by {
        lemma_with_holds(s, x, k);
    }
}

/// `with(s, x)` holds what `s` does, and `x`.
pub proof fn lemma_with_holds<T: View>(s: Seq<T>, x: T, k: T::V)
    ensures
        holds(with(s, x), k) == (holds(s, k) || k == x@),
{
    let w = with(s, x);
    if holds(s, k) {
        let i = choose|i: int| 0 <= i < s.len() && #[trigger] s[i]@ == k;
        assert(w[i]@ == k);
    }
    if k == x@ && !holds(s, k) {
        assert(w[s.len() as int]@ == k);
    }
    if holds(w, k) {
        let i = choose|i: int| 0 <= i < w.len() && #[trigger] w[i]@ == k;
        if i < s.len() {
            assert(s[i]@ == k);
        }
    }
}

/// Nothing with the view `k` is left in `without(s, k)`.
pub proof fn lemma_without_removes<T: View>(s: Seq<T>, k: T::V)
    ensures
        !holds(without(s, k), k),
{
    let f = |m: T| m@ != k;
    assert forall|i: int| 0 <= i < without(s, k).len() implies #[trigger] without(s, k)[i]@
        != k by {
        s.lemma_filter_pred(f, i);
    }
}

/// What has another view stays in `without(s, k)`, and nothing new comes.
pub proof fn lemma_without_keeps<T: View>(s: Seq<T>, k: T::V, other: T::V)
    requires
        other != k,
    ensures
        holds(without(s, k), other) == holds(s, other),
{
    let f = |m: T| m@ != k;
    let w = without(s, k);
    if holds(s, other) {
        let i = choose|i: int| 0 <= i < s.len() && #[trigger] s[i]@ == other;
        s.lemma_filter_contains(f, i);
        let j = choose|j: int| 0 <= j < w.len() && w[j] == s[i];
        assert(w[j]@ == other);
    }
    if holds(w, other) {
        let i = choose|i: int| 0 <= i < w.len() && #[trigger] w[i]@ == other;
        s.lemma_filter_contains_rev(f, w[i]);
        let j = choose|j: int| 0 <= j < s.len() && s[j] == w[i];
        assert(s[j]@ == other);
    }
}

/// Nothing is in an empty list. One item more puts its own view in the list, and no other.
pub proof fn holding_is_having_been_put_in<T: View>(s: Seq<T>, x: T, k: T::V)
    ensures
        !holds(Seq::<T>::empty(), k),
        holds(s.push(x), k) <==> holds(s, k) || k == x@,
        holds(s, k) <==> s.map_values(|m: T| m@).contains(k),
{
    let f = |m: T| m@;
    if holds(s, k) {
        let i = choose|i: int| 0 <= i < s.len() && #[trigger] s[i]@ == k;
        assert(s.push(x)[i]@ == k);
        assert(s.map_values(f)[i] == k);
    }
    if k == x@ {
        assert(s.push(x)[s.len() as int]@ == k);
    }
    if holds(s.push(x), k) {
        let i = choose|i: int| 0 <= i < s.push(x).len() && #[trigger] s.push(x)[i]@ == k;
        if i < s.len() {
            assert(s[i]@ == k);
        }
    }
    if s.map_values(f).contains(k) {
        let i = choose|i: int| 0 <= i < s.map_values(f).len() && s.map_values(f)[i] == k;
        assert(s[i]@ == k);
    }
}

/// Putting an item in leaves what is there in its place, and makes the list longer, by the item at
/// its end, only where nothing with the same view was there.
pub proof fn putting_in_keeps_the_rest<T: View>(s: Seq<T>, x: T)
    ensures
        s.is_prefix_of(with(s, x)),
        s.map_values(|m: T| m@).contains(x@) ==> with(s, x).len() == s.len(),
        !s.map_values(|m: T| m@).contains(x@) ==> with(s, x).len() == s.len() + 1 && with(
            s,
            x,
        ).last() == x,
{
    holding_is_having_been_put_in(s, x, x@);
}

/// Taking a view out of a list goes item by item, in order: one with that view leaves, any other
/// stays.
pub proof fn taking_out_keeps_the_rest<T: View>(s: Seq<T>, x: T, k: T::V)
    ensures
        without(Seq::<T>::empty(), k) == Seq::<T>::empty(),
        x@ == k ==> without(s.push(x), k) == without(s, k),
        x@ != k ==> without(s.push(x), k) == without(s, k).push(x),
{
    reveal(Seq::filter);
    assert(s.push(x).drop_last() =~= s);
    assert(without(Seq::<T>::empty(), k) =~= Seq::<T>::empty());
}

/// Taking the first item with a view out leaves all others, in order; where there is none, the list
/// stays as it is.
pub proof fn taking_the_first_out_keeps_the_rest<T: View>(s: Seq<T>, k: T::V, i: int)
    requires
        0 <= i <= s.len(),
        forall|j: int| 0 <= j < i ==> #[trigger] s[j]@ != k,
        i < s.len() ==> s[i]@ == k,
    ensures
        i < s.len() ==> without_first(s, k) == s.take(i) + s.skip(i + 1),
        i == s.len() ==> without_first(s, k) == s,
{
    if i < s.len() {
        lemma_without_first_at(s, k, i);
        assert(s.remove(i) =~= s.take(i) + s.skip(i + 1));
    } else {
        lemma_without_first_absent(s, k);
    }
}

/// Whether some item of `list` is the same as `key`.
pub fn contains<T: Key>(list: &Vec<T>, key: &T) -> (r: bool)
    ensures
        r == holds(list@, key@),
{
    let mut i: usize = 0;
    while i < list.len()
        invariant
            i <= list.len(),
            forall|j: int| 0 <= j < i ==> #[trigger] list@[j]@ != key@,
        decreases list.len() - i,
    {
        if list[i].same(key) {
            assert(list@[i as int]@ == key@);
            return true;
        }
        i += 1;
    }
    false
}

/// The items of `list` from place `start` to before place `end`.
pub fn slice<T: Dup>(list: &Vec<T>, start: usize, end: usize) -> (r: Vec<T>)
    requires
        start <= end <= list@.len(),
    ensures
        r@ == list@.subrange(start as int, end as int),
{
    let mut r: Vec<T> = Vec::new();
    let mut i: usize = start;
    while i < end
        invariant
            start <= i <= end <= list@.len(),
            r@ == list@.subrange(start as int, i as int),
        decreases end - i,
    {
        r.push(list[i].dup());
        i += 1;
        assert(list@.subrange(start as int, i as int) =~= list@.subrange(
            start as int,
            i - 1,
        ).push(list@[i - 1]));
    }
    r
}

/// An equal list.
pub fn copy<T: Dup>(list: &Vec<T>) -> (r: Vec<T>)
    ensures
        r@ == list@,
{
    let r = slice(list, 0, list.len());
    assert(r@ =~= list@);
    r
}

/// Put `key` at the end of `list`, unless it is there already; whether it was put there.
pub fn insert<T: Key>(list: &mut Vec<T>, key: T) -> (added: bool)
    ensures
        final(list)@ == with(old(list)@, key),
        added == !holds(old(list)@, key@),
{
    if contains(list, &key) {
        false
    } else {
        list.push(key);
        true
    }
}

/// Take every item that is the same as `key` out of `list`; whether there was one.
pub fn remove_all<T: Key>(list: &mut Vec<T>, key: &T) -> (found: bool)
    ensures
        final(list)@ == without(old(list)@, key@),
        found == holds(old(list)@, key@),
{
    let found = contains(list, key);
    let mut kept: Vec<T> = Vec::new();
    let mut i: usize = 0;
    assert(list@.take(0) =~= Seq::<T>::empty());
    assert(without(list@.take(0), key@) =~= Seq::<T>::empty()) by {
        reveal(Seq::filter);
    }
    while i < list.len()
        invariant
            i <= list.len(),
            list@ == old(list)@,
            kept@ == without(list@.take(i as int), key@),
        decreases list.len() - i,
    {
        proof {
            let f = |m: T| m@ != key@;
            assert(list@.take(i + 1).drop_last() =~= list@.take(i as int));
            reveal(Seq::filter);
        }
        if !list[i].same(key) {
            kept.push(list[i].dup());
        }
        i += 1;
    }
    assert(list@.take(i as int) =~= list@);
    *list = kept;
    found
}

/// Take the first item that is the same as `key` out of `list`, where there is one.
pub fn remove_first<T: Key>(list: &mut Vec<T>, key: &T)
    ensures
        final(list)@ == without_first(old(list)@, key@),
{
    let mut i: usize = 0;
    while i < list.len()
        invariant
            i <= list.len(),
            list@ == old(list)@,
            forall|j: int| 0 <= j < i ==> #[trigger] list@[j]@ != key@,
        decreases list.len() - i,
    {
        if list[i].same(key) {
            proof {
                lemma_without_first_at(list@, key@, i as int);
            }
            list.remove(i);
            return ;
        }
        i += 1;
    }
    proof {
        lemma_without_first_absent(list@, key@);
    }
}

} // verus!

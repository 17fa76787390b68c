//! Accounting: what transfers move, and what a table of claims adds up to.

use vstd::prelude::*;

use crate::host::Call;
use crate::values::Address;

verus! {

/// What one request gives `who` of `token`; negative, where it takes.
pub open spec fn gain<K>(call: Call<K>, token: Seq<char>, who: Seq<char>) -> int {
    match call {
        Call::Transfer { token: t, from, to, amount } => if t@ == token {
            (if to@ == who {
                amount as int
            } else {
                0
            }) - (if from@ == who {
                amount as int
            } else {
                0
            })
        } else {
            0
        },
        _ => 0,
    }
}

/// What `calls` give `who` of `token`, all in all.
pub open spec fn flow<K>(calls: Seq<Call<K>>, token: Seq<char>, who: Seq<char>) -> int
    decreases calls.len(),
{
    if calls.len() == 0 {
        0
    } else {
        flow(calls.drop_last(), token, who) + gain(calls.last(), token, who)
    }
}

/// No entry is written or deleted after a transfer.
pub open spec fn writes_come_first<K>(calls: Seq<Call<K>>) -> bool {
    forall|i: int, j: int|
        0 <= i < j < calls.len() && #[trigger] calls[i] is Transfer ==> !(#[trigger] calls[j] is Write
            || calls[j] is Remove)
}

/// `calls` take `amount` of `token` from `from` and give it to `to`, and move nothing else: nobody
/// else gains or loses any of it, and nobody any of another token.
pub open spec fn pays<K>(
    calls: Seq<Call<K>>,
    token: Seq<char>,
    from: Seq<char>,
    to: Seq<char>,
    amount: int,
) -> bool {
    forall|t: Seq<char>, who: Seq<char>| #[trigger]
        flow(calls, t, who) == (if t == token && who == to {
            amount
        } else {
            0
        }) - (if t == token && who == from {
            amount
        } else {
            0
        })
}

/// What `who` gains of `t` where `from` pays `amount` of `token`, of which `fee` goes to `treasury`
/// and the rest to `to`.
pub open spec fn share(
    token: Seq<char>,
    from: Seq<char>,
    to: Seq<char>,
    treasury: Seq<char>,
    amount: int,
    fee: int,
    t: Seq<char>,
    who: Seq<char>,
) -> int {
    if t != token {
        0
    } else {
        (if who == to {
            amount - fee
        } else {
            0
        }) + (if who == treasury {
            fee
        } else {
            0
        }) - (if who == from {
            amount
        } else {
            0
        })
    }
}

/// Nobody gains or loses anything by `calls`.
pub open spec fn moves_nothing<K>(calls: Seq<Call<K>>) -> bool {
    forall|t: Seq<char>, who: Seq<char>| #[trigger] flow(calls, t, who) == 0
}

/// `calls` start with the authorisation of `who`, and ask for nobody else's; they delete no entry
/// and leave the code alone.
pub open spec fn asked_by<K>(calls: Seq<Call<K>>, who: Address) -> bool {
    &&& calls.len() > 0
    &&& calls[0] == Call::<K>::RequireAuth(who)
    &&& forall|i: int|
        1 <= i < calls.len() ==> !(#[trigger] calls[i] is RequireAuth || calls[i] is Remove
            || calls[i] is UpdateWasm)
}

/// `calls` write the entry `key`.
pub open spec fn writes<K>(calls: Seq<Call<K>>, key: K) -> bool {
    calls.contains(Call::Write(key))
}

/// `calls` publish `event`, and no other.
pub open spec fn announces<K>(calls: Seq<Call<K>>, event: Call<K>) -> bool {
    &&& calls.contains(event)
    &&& forall|i: int|
        0 <= i < calls.len() && #[trigger] calls[i] is Publish ==> calls[i] == event
}

/// The sum of `worth` over the entries of `m`.
pub open spec fn total<V>(m: Map<Seq<char>, V>, worth: spec_fn(V) -> int) -> int
    decreases m.dom().len(),
    when m.dom().finite()
{
    if m.dom().len() == 0 {
        0
    } else {
        let k = m.dom().choose();
        worth(m[k]) + total(m.remove(k), worth)
    }
}

/// Two lists of requests, one after the other, give what they give together.
pub proof fn lemma_flow_concat<K>(
    a: Seq<Call<K>>,
    b: Seq<Call<K>>,
    token: Seq<char>,
    who: Seq<char>,
)
    ensures
        flow(a + b, token, who) == flow(a, token, who) + flow(b, token, who),
    decreases b.len(),
{
    if b.len() == 0 {
        assert(a + b =~= a);
    } else {
        lemma_flow_concat(a, b.drop_last(), token, who);
        assert((a + b).drop_last() =~= a + b.drop_last());
        assert((a + b).last() == b.last());
    }
}

/// Requests without a transfer give nothing.
pub proof fn lemma_flow_none<K>(calls: Seq<Call<K>>, token: Seq<char>, who: Seq<char>)
    requires
        forall|j: int| 0 <= j < calls.len() ==> !(#[trigger] calls[j] is Transfer),
    ensures
        flow(calls, token, who) == 0,
    decreases calls.len(),
{
    if calls.len() > 0 {
        let before = calls.drop_last();
        assert forall|j: int| 0 <= j < before.len() implies !(#[trigger] before[j] is Transfer) by {
            assert(before[j] == calls[j]);
        }
        lemma_flow_none(before, token, who);
        assert(!(calls[calls.len() - 1] is Transfer));
    }
}

/// Requests with a single transfer, in place `i`, give what that gives.
pub proof fn lemma_flow_one<K>(calls: Seq<Call<K>>, i: int, token: Seq<char>, who: Seq<char>)
    requires
        0 <= i < calls.len(),
        forall|j: int| 0 <= j < calls.len() && j != i ==> !(#[trigger] calls[j] is Transfer),
    ensures
        flow(calls, token, who) == gain(calls[i], token, who),
    decreases calls.len(),
{
    let before = calls.drop_last();
    assert forall|j: int| 0 <= j < before.len() && j != i implies !(
        #[trigger] before[j] is Transfer) by {
        assert(before[j] == calls[j]);
    }
    if i == calls.len() - 1 {
        lemma_flow_none(before, token, who);
    } else {
        lemma_flow_one(before, i, token, who);
        assert(!(calls[calls.len() - 1] is Transfer));
    }
}

/// Requests with a single transfer, in place `i`, move just that.
pub proof fn lemma_pays<K>(
    calls: Seq<Call<K>>,
    i: int,
    token: Address,
    from: Address,
    to: Address,
    amount: i128,
)
    requires
        0 <= i < calls.len(),
        calls[i] == (Call::<K>::Transfer { token, from, to, amount }),
        forall|j: int| 0 <= j < calls.len() && j != i ==> !(#[trigger] calls[j] is Transfer),
    ensures
        pays(calls, token@, from@, to@, amount as int),
{
    assert forall|t: Seq<char>, who: Seq<char>| #[trigger]
        flow(calls, t, who) == (if t == token@ && who == to@ {
            amount as int
        } else {
            0
        }) - (if t == token@ && who == from@ {
            amount as int
        } else {
            0
        }) by {
        lemma_flow_one(calls, i, t, who);
    }
}

/// Requests without a transfer move nothing.
pub proof fn lemma_moves_nothing<K>(calls: Seq<Call<K>>)
    requires
        forall|j: int| 0 <= j < calls.len() ==> !(#[trigger] calls[j] is Transfer),
    ensures
        moves_nothing(calls),
{
    assert forall|t: Seq<char>, who: Seq<char>| #[trigger] flow(calls, t, who) == 0 by {
        lemma_flow_none(calls, t, who);
    }
}

/// The sum may be taken in any order.
pub proof fn lemma_total_remove<V>(m: Map<Seq<char>, V>, worth: spec_fn(V) -> int, k: Seq<char>)
    requires
        m.dom().finite(),
        m.contains_key(k),
    ensures
        total(m, worth) == worth(m[k]) + total(m.remove(k), worth),
    decreases m.dom().len(),
{
    assert(m.dom().len() != 0);
    let c = m.dom().choose();
    assert(m.dom().contains(c));
    if c != k {
        lemma_total_remove(m.remove(c), worth, k);
        lemma_total_remove(m.remove(k), worth, c);
        assert(m.remove(c).remove(k) =~= m.remove(k).remove(c));
    }
}

/// What a new or changed entry does to the sum.
pub proof fn lemma_total_insert<V>(
    m: Map<Seq<char>, V>,
    worth: spec_fn(V) -> int,
    k: Seq<char>,
    v: V,
)
    requires
        m.dom().finite(),
    ensures
        m.insert(k, v).dom().finite(),
        total(m.insert(k, v), worth) == total(m, worth) + worth(v) - (if m.contains_key(k) {
            worth(m[k])
        } else {
            0
        }),
{
    lemma_total_remove(m.insert(k, v), worth, k);
    if m.contains_key(k) {
        lemma_total_remove(m, worth, k);
        assert(m.insert(k, v).remove(k) =~= m.remove(k));
    } else {
        assert(m.insert(k, v).remove(k) =~= m);
    }
}

} // verus!

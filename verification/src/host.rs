//! What a contract learns from its host, and what it asks of it.

use vstd::prelude::*;

use crate::values::{Address, Hash32, Symbol};

verus! {

/// A value carried by an event.
#[derive(Debug, PartialEq, Eq)]
pub enum Val {
    Address(Address),
    Symbol(Symbol),
    /// A symbol that the contract itself names.
    Name(&'static str),
    Text(String),
    I128(i128),
    U64(u64),
    U32(u32),
    Bool(bool),
}

/// The indexed part of an event: its name, then the fields that readers filter on.
#[derive(Debug, PartialEq, Eq)]
pub enum Topics {
    One(&'static str),
    Two(&'static str, Val),
    Three(&'static str, Val, Val),
}

/// The part of an event that is not indexed.
#[derive(Debug, PartialEq, Eq)]
pub enum Data {
    Unit,
    One(Val),
    Two(Val, Val),
    Three(Val, Val, Val),
    Four(Val, Val, Val, Val),
}

/// One request to the host. `K` names the entries of the contract's storage.
#[derive(Debug, PartialEq, Eq)]
pub enum Call<K> {
    /// Abort unless the address has authorised this invocation.
    RequireAuth(Address),
    /// Write the entry as the contract now has it.
    Write(K),
    /// Delete the entry.
    Remove(K),
    /// Keep the entry alive: where fewer than `threshold` ledgers are left, until `extend_to` are.
    ExtendTtl { key: K, threshold: u32, extend_to: u32 },
    /// Move `amount` units of `token`.
    Transfer { token: Address, from: Address, to: Address, amount: i128 },
    /// Publish an event.
    Publish { topics: Topics, data: Data },
    /// Replace the contract's code.
    UpdateWasm(Hash32),
}

/// The invocation that a contract runs in.
#[derive(Debug)]
pub struct Env<K> {
    /// Ledger time, in seconds.
    pub timestamp: u64,
    /// Ledger sequence number.
    pub sequence: u32,
    /// The contract's own address.
    pub contract: Address,
    /// What the contract has asked of the host, in order.
    pub calls: Vec<Call<K>>,
}

/// The event that a contract publishes when `fee` units went to `recipient`.
pub open spec fn fee_taken<K>(recipient: Address, fee: int) -> Call<K> {
    Call::Publish {
        topics: Topics::Two("FeeTaken", Val::Address(recipient)),
        data: Data::One(Val::I128(fee as i128)),
    }
}

impl Topics {
    /// The event's name.
    pub open spec fn name(self) -> &'static str {
        match self {
            Topics::One(name) => name,
            Topics::Two(name, _) => name,
            Topics::Three(name, _, _) => name,
        }
    }
}

/// What is asked of the host comes behind what was asked before, in order, and all of it does; the
/// time, the ledger and the contract's address stay as they were.
pub proof fn requests_come_in_order<K>(before: Env<K>, after: Env<K>, calls: Seq<Call<K>>)
    requires
        after.did(before, calls),
    ensures
        after.asked_since(before) == calls,
        after.calls@.len() == before.calls@.len() + calls.len(),
        forall|i: int|
            0 <= i < before.calls@.len() ==> #[trigger] after.calls@[i] == before.calls@[i],
        after.timestamp == before.timestamp,
        after.sequence == before.sequence,
        after.contract == before.contract,
{
    assert(after.asked_since(before) =~= calls);
}

impl<K> Env<K> {
    /// An invocation of `contract` that has asked nothing of the host yet.
    pub fn new(timestamp: u64, sequence: u32, contract: Address) -> (r: Self)
        ensures
            r.timestamp == timestamp,
            r.sequence == sequence,
            r.contract == contract,
            r.calls@ == Seq::<Call<K>>::empty(),
    {
        Env { timestamp, sequence, contract, calls: Vec::new() }
    }

    /// `self` is `before` after exactly the requests in `calls`.
    pub open spec fn did(self, before: Self, calls: Seq<Call<K>>) -> bool {
        &&& self.timestamp == before.timestamp
        &&& self.sequence == before.sequence
        &&& self.contract == before.contract
        &&& self.calls@ =~= before.calls@ + calls
    }

    /// What was asked of the host since `before`.
    pub open spec fn asked_since(self, before: Self) -> Seq<Call<K>> {
        self.calls@.skip(before.calls@.len() as int)
    }

    /// Ask for the authorisation of `who`.
    pub fn require_auth(&mut self, who: &Address)
        ensures
            final(self).did(*old(self), seq![Call::RequireAuth(*who)]),
    {
        self.calls.push(Call::RequireAuth(who.clone()));
    }

    /// Write the entry `key`.
    pub fn write(&mut self, key: K)
        ensures
            final(self).did(*old(self), seq![Call::Write(key)]),
    {
        self.calls.push(Call::Write(key));
    }

    /// Delete the entry `key`.
    pub fn remove(&mut self, key: K)
        ensures
            final(self).did(*old(self), seq![Call::Remove(key)]),
    {
        self.calls.push(Call::Remove(key));
    }

    /// Keep the entry `key` alive.
    pub fn extend_ttl(&mut self, key: K, threshold: u32, extend_to: u32)
        ensures
            final(self).did(*old(self), seq![Call::ExtendTtl { key, threshold, extend_to }]),
    {
        self.calls.push(Call::ExtendTtl { key, threshold, extend_to });
    }

    /// Move `amount` units of `token` from `from` to `to`.
    pub fn transfer(&mut self, token: &Address, from: &Address, to: &Address, amount: i128)
        ensures
            final(self).did(
                *old(self),
                seq![Call::Transfer { token: *token, from: *from, to: *to, amount }],
            ),
    {
        self.calls.push(
            Call::Transfer { token: token.clone(), from: from.clone(), to: to.clone(), amount },
        );
    }

    /// Publish an event.
    pub fn publish(&mut self, topics: Topics, data: Data)
        ensures
            final(self).did(*old(self), seq![Call::Publish { topics, data }]),
    {
        self.calls.push(Call::Publish { topics, data });
    }

    /// Replace the contract's code.
    pub fn update_wasm(&mut self, hash: Hash32)
        ensures
            final(self).did(*old(self), seq![Call::UpdateWasm(hash)]),
    {
        self.calls.push(Call::UpdateWasm(hash));
    }
}

} // verus!

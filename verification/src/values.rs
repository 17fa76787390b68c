//! Plain values that the contracts keep and compare.

use vstd::prelude::*;

verus! {

/// A value that can be copied.
pub trait Dup: Sized {
    /// An equal value.
    fn dup(&self) -> (r: Self)
        ensures
            r == *self,
    ;
}

/// A value that can be copied, and compared by its view.
pub trait Key: View + Dup {
    /// Whether two keys stand for the same thing.
    fn same(&self, other: &Self) -> (r: bool)
        ensures
            r == (self@ == other@),
    ;
}

/// An account or contract address, in its textual form.
#[derive(Debug, PartialEq, Eq)]
pub struct Address {
    pub text: String,
}

/// A short name: an identifier, a role, a category.
#[derive(Debug, PartialEq, Eq)]
pub struct Symbol {
    pub text: String,
}

/// Two symbols that together identify an entry.
#[derive(Debug, PartialEq, Eq)]
pub struct Pair {
    pub first: Symbol,
    pub second: Symbol,
}

/// A digest of thirty-two bytes.
#[derive(Debug, PartialEq, Eq, Clone, Copy)]
pub struct Hash32 {
    pub bytes: [u8; 32],
}

impl View for Address {
    type V = Seq<char>;

    open spec fn view(&self) -> Seq<char> {
        self.text@
    }
}

impl View for Symbol {
    type V = Seq<char>;

    open spec fn view(&self) -> Seq<char> {
        self.text@
    }
}

impl View for Pair {
    type V = (Seq<char>, Seq<char>);

    open spec fn view(&self) -> (Seq<char>, Seq<char>) {
        (self.first@, self.second@)
    }
}

impl Clone for Address {
    fn clone(&self) -> (r: Self)
        ensures
            r == *self,
    {
        Address { text: self.text.clone() }
    }
}

impl Clone for Symbol {
    fn clone(&self) -> (r: Self)
        ensures
            r == *self,
    {
        Symbol { text: self.text.clone() }
    }
}

impl Clone for Pair {
    fn clone(&self) -> (r: Self)
        ensures
            r == *self,
    {
        Pair { first: self.first.clone(), second: self.second.clone() }
    }
}

impl Address {
    /// The address written `text`.
    pub fn new(text: &str) -> (r: Self)
        ensures
            r@ == text@,
    {
        Address { text: text.to_owned() }
    }
}

impl Symbol {
    /// The symbol written `text`.
    pub fn new(text: &str) -> (r: Self)
        ensures
            r@ == text@,
    {
        Symbol { text: text.to_owned() }
    }

    /// Whether the symbol is written `text`.
    pub fn is(&self, text: &str) -> (r: bool)
        ensures
            r == (self@ == text@),
    {
        self.text == text.to_owned()
    }
}

impl Dup for Address {
    fn dup(&self) -> (r: Self) {
        self.clone()
    }
}

impl Key for Address {
    fn same(&self, other: &Self) -> (r: bool) {
        self.text == other.text
    }
}

impl Dup for Symbol {
    fn dup(&self) -> (r: Self) {
        self.clone()
    }
}

impl Key for Symbol {
    fn same(&self, other: &Self) -> (r: bool) {
        self.text == other.text
    }
}

impl Dup for Pair {
    fn dup(&self) -> (r: Self) {
        self.clone()
    }
}

impl Key for Pair {
    fn same(&self, other: &Self) -> (r: bool) {
        self.first.same(&other.first) && self.second.same(&other.second)
    }
}

impl Dup for u64 {
    fn dup(&self) -> (r: Self) {
        *self
    }
}

impl Key for u64 {
    fn same(&self, other: &Self) -> (r: bool) {
        *self == *other
    }
}

} // verus!

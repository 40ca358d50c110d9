//! Immutable text and byte buffers passed around in messages.
use vstd::prelude::*;

verus! {

/// An immutable string.
#[derive(Debug, PartialEq, Eq)]
pub struct AtomicFixedString(pub String);

impl View for AtomicFixedString {
    type V = Seq<char>;

    open spec fn view(&self) -> Seq<char> {
        self.0@
    }
}

impl Clone for AtomicFixedString {
    fn clone(&self) -> (r: Self)
        ensures
            r@ == self@,
    {
        AtomicFixedString(self.0.clone())
    }
}

impl AtomicFixedString {
    pub fn from_str(s: &str) -> (r: Self)
        ensures
            r@ == s@,
    {
        AtomicFixedString(String::from_str(s))
    }

    pub fn from_string(s: String) -> (r: Self)
        ensures
            r@ == s@,
    {
        AtomicFixedString(s)
    }

    pub fn as_str(&self) -> (r: &str)
        ensures
            r@ == self@,
    {
        self.0.as_str()
    }
}

/// An immutable byte buffer.
#[derive(Debug, PartialEq, Eq)]
pub struct AtomicFixedBytes(pub Vec<u8>);

impl View for AtomicFixedBytes {
    type V = Seq<u8>;

    open spec fn view(&self) -> Seq<u8> {
        self.0@
    }
}

impl Clone for AtomicFixedBytes {
    fn clone(&self) -> (r: Self)
        ensures
            r@ == self@,
    {
        AtomicFixedBytes(self.0.clone())
    }
}

impl AtomicFixedBytes {
    pub fn from_vec(v: Vec<u8>) -> (r: Self)
        ensures
            r@ == v@,
    {
        AtomicFixedBytes(v)
    }

    pub fn as_slice(&self) -> (r: &[u8])
        ensures
            r@ == self@,
    {
        self.0.as_slice()
    }
}

} // verus!

//! Owned byte strings: the form in which keys and values cross the boundary
//! to the host runtime.
use vstd::prelude::*;

verus! {

/// An owned byte string.
#[derive(Debug, Clone, PartialEq, Eq, PartialOrd, Ord, Hash)]
pub struct Bin(Vec<u8>);

impl View for Bin {
    type V = Seq<u8>;

    closed spec fn view(&self) -> Seq<u8> {
        self.0@
    }
}

impl Bin {
    /// Wraps the bytes of `v`.
    pub fn from_vec(v: Vec<u8>) -> (bin: Bin)
        ensures
            bin@ == v@,
    {
        Bin(v)
    }

    /// The bytes, borrowed.
    pub fn as_bytes(&self) -> (bytes: &[u8])
        ensures
            bytes@ == self@,
    {
        self.0.as_slice()
    }
}

} // verus!

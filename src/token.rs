use vstd::prelude::*;

verus! {

/// An opaque, caller-chosen identifier attached to a registration and echoed
/// back on every readiness event for it.
#[derive(Clone, Copy, Debug, PartialEq, Eq, Structural)]
pub struct Token(pub usize);

/// The set of readiness conditions a registration asks to be told about.
#[derive(Clone, Copy, Debug, PartialEq, Eq, Structural)]
pub struct Interests {
    pub readable: bool,
    pub writable: bool,
}

impl Interests {
    pub fn new(readable: bool, writable: bool) -> (r: Interests)
        ensures
            r.readable == readable,
            r.writable == writable,
    {
        Interests { readable, writable }
    }

    pub fn is_readable(&self) -> (r: bool)
        ensures
            r == self.readable,
    {
        self.readable
    }

    pub fn is_writable(&self) -> (r: bool)
        ensures
            r == self.writable,
    {
        self.writable
    }
}

} // verus!

//! The opaque handle that crosses the boundary, and what the runtime
//! answers to a message.

use vstd::prelude::*;

verus! {

/// An untyped, nullable reference to a foreign object, held by its address.
/// Holding one implies no ownership: the object lives and dies by the
/// foreign runtime's reference counting.
#[derive(Clone, Copy, Debug, PartialEq, Eq, Hash, Structural)]
pub struct Id {
    pub addr: usize,
}

impl Id {
    /// Whether the handle refers to nothing.
    pub open spec fn null(&self) -> bool {
        self.addr == 0
    }

    /// The handle that refers to nothing.
    pub fn nil() -> (id: Id)
        ensures
            id.addr == 0,
    {
        Id { addr: 0 }
    }

    /// The handle of the object at `addr`.
    pub fn from_addr(addr: usize) -> (id: Id)
        ensures
            id.addr == addr,
    {
        Id { addr }
    }

    /// The address the handle holds.
    pub fn addr(&self) -> (addr: usize)
        ensures
            addr == self.addr,
    {
        self.addr
    }

    /// Whether the handle refers to nothing.
    #[verifier::when_used_as_spec(null)]
    pub fn is_null(&self) -> (r: bool)
        ensures
            r == self.null(),
    {
        self.addr == 0
    }
}

/// The foreign runtime's unsigned word.
#[allow(non_camel_case_types)]
pub type NS_uint = usize;

/// The foreign runtime's signed word.
#[allow(non_camel_case_types)]
pub type NS_int = isize;

/// What the runtime answered to a message that yields an object: the handle
/// that came back and, where that object is a string, the bytes of its UTF-8
/// form. A null handle comes with no bytes.
#[derive(Clone, Debug, PartialEq, Eq)]
pub struct Reply {
    pub ptr: Id,
    pub utf8: Vec<u8>,
}

impl Reply {
    /// The answer "no object".
    pub fn nil() -> (reply: Reply)
        ensures
            reply.ptr.null(),
            reply.utf8@ == Seq::<u8>::empty(),
    {
        Reply { ptr: Id::nil(), utf8: Vec::new() }
    }

    /// The answer that is the object at `ptr`, which is no string.
    pub fn object(ptr: Id) -> (reply: Reply)
        ensures
            reply.ptr == ptr,
            reply.utf8@ == Seq::<u8>::empty(),
    {
        Reply { ptr, utf8: Vec::new() }
    }

    /// The answer that is the string at `ptr`, whose UTF-8 form is `utf8`.
    pub fn string(ptr: Id, utf8: Vec<u8>) -> (reply: Reply)
        ensures
            reply.ptr == ptr,
            reply.utf8@ == utf8@,
    {
        Reply { ptr, utf8 }
    }
}

} // verus!

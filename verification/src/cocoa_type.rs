//! The contract between a typed wrapper and the handle it holds.

use vstd::prelude::*;
use crate::object::Id;

verus! {

/// A native value that wraps exactly one handle to a foreign object of a
/// known class. A wrapper never holds the null handle.
pub trait CocoaType: Sized {
    /// The handle that the wrapper holds.
    spec fn handle(&self) -> Id;

    /// The name the wrapper type was declared under.
    spec fn declared_name() -> Seq<char>;

    /// Wraps `ptr`, unless it is null. Looks at nothing but the handle.
    fn from_ptr(ptr: Id) -> (wrapper: Option<Self>)
        ensures
            ptr.null() ==> wrapper is None,
            !ptr.null() ==> wrapper is Some && wrapper->0.handle() == ptr,
    ;

    /// The handle that the wrapper holds.
    fn ptr(&self) -> (ptr: Id)
        ensures
            ptr == self.handle(),
            !ptr.null(),
    ;

    /// The class name: the name the wrapper type was declared under.
    fn class_name() -> (name: &'static str)
        ensures
            name@ == Self::declared_name(),
    ;

    /// A wrapper holds its handle and nothing else.
    proof fn lemma_handle_determines_wrapper(a: Self, b: Self)
        requires
            a.handle() == b.handle(),
        ensures
            a == b,
    ;
}

/// What `from_ptr` returns for `ptr`: nothing for the null handle, else the
/// wrapper of exactly that handle.
pub open spec fn wraps<T: CocoaType>(wrapper: Option<T>, ptr: Id) -> bool {
    if ptr.null() {
        wrapper is None
    } else {
        wrapper matches Some(w) && w.handle() == ptr
    }
}

/// Wrapping the handle of a wrapper again gives the same wrapper: if `again`
/// is what `from_ptr` returns for the handle of `wrapper`, it is `wrapper`.
pub proof fn lemma_from_ptr_round_trip<T: CocoaType>(wrapper: T, again: Option<T>)
    requires
        !wrapper.handle().null(),
        wraps(again, wrapper.handle()),
    ensures
        again == Some(wrapper),
{
    T::lemma_handle_determines_wrapper(again->0, wrapper);
}

/// What `from_ptr` returns for a handle is unique.
pub proof fn lemma_from_ptr_deterministic<T: CocoaType>(ptr: Id, first: Option<T>, second: Option<T>)
    requires
        wraps(first, ptr),
        wraps(second, ptr),
    ensures
        first == second,
{
    if !ptr.null() {
        T::lemma_handle_determines_wrapper(first->0, second->0);
    }
}

} // verus!

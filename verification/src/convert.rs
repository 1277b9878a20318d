//! What a property getter does with the answer to its message, one function
//! for each row of the conversion table and each of its two columns.
//!
//! | declared shape | object came back          | null came back              |
//! |----------------|---------------------------|-----------------------------|
//! | text           | its UTF-8 bytes, decoded  | optional: absent; else fatal |
//! | handle         | the handle as it is       | optional: absent; else fatal |
//! | scalar         | the value as it is        | (a scalar is never null)    |
//! | wrapped type   | the wrapper of the handle | optional: absent; else fatal |
//!
//! A getter declared without `Option` promises that its accessor never
//! yields null. Null is then no value to convert: the functions for those
//! getters take no null answer, and the caller ends the operation instead.

use vstd::prelude::*;
use vstd::utf8::*;
use crate::cocoa_type::CocoaType;
use crate::object::{Id, Reply};
use crate::string::{from_utf8_lossy, utf8_lossy};

verus! {

/// Text, declared without `Option`: the answer's bytes, decoded.
pub fn text(reply: &Reply) -> (value: String)
    requires
        !reply.ptr.null(),
    ensures
        value@ == utf8_lossy(reply.utf8@),
        valid_utf8(reply.utf8@) ==> value@ == decode_utf8(reply.utf8@),
{
    from_utf8_lossy(reply.utf8.as_slice())
}

/// Text, declared optional: absent for null, else the answer's bytes,
/// decoded.
pub fn optional_text(reply: &Reply) -> (value: Option<String>)
    ensures
        reply.ptr.null() ==> value is None,
        !reply.ptr.null() ==> value is Some && value->0@ == utf8_lossy(reply.utf8@),
        !reply.ptr.null() && valid_utf8(reply.utf8@) ==> value->0@ == decode_utf8(reply.utf8@),
{
    if reply.ptr.is_null() {
        None
    } else {
        Some(text(reply))
    }
}

/// A handle, declared without `Option`: the answer as it is.
pub fn handle(reply: Id) -> (value: Id)
    requires
        !reply.null(),
    ensures
        value == reply,
{
    reply
}

/// A handle, declared optional: absent for null, else the answer as it is.
pub fn optional_handle(reply: Id) -> (value: Option<Id>)
    ensures
        value == if reply.null() { None } else { Some(reply) },
{
    if reply.is_null() {
        None
    } else {
        Some(reply)
    }
}

/// A scalar: the answer as it is.
pub fn scalar<T>(reply: T) -> (value: T)
    ensures
        value == reply,
{
    reply
}

/// A wrapped type, declared without `Option`: the wrapper of the answer.
pub fn wrapped<T: CocoaType>(reply: Id) -> (value: T)
    requires
        !reply.null(),
    ensures
        value.handle() == reply,
{
    T::from_ptr(reply).unwrap()
}

/// A wrapped type, declared optional: absent for null, else the wrapper of
/// the answer.
pub fn optional_wrapped<T: CocoaType>(reply: Id) -> (value: Option<T>)
    ensures
        reply.null() ==> value is None,
        !reply.null() ==> value is Some && value->0.handle() == reply,
{
    T::from_ptr(reply)
}

} // verus!

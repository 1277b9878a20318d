//! The wrapper of a foreign URL and its accessors. Each accessor takes what
//! the runtime answered to its message and converts it as its declared
//! return type asks.

use vstd::prelude::*;
use vstd::utf8::*;
use crate::cocoa_type::CocoaType;
use crate::convert::{optional_text, optional_wrapped, text, wrapped};
use crate::object::{Id, Reply};
use crate::string::utf8_lossy;

verus! {

/// The wrapper of a foreign URL.
#[allow(clippy::upper_case_acronyms)]
pub struct URL {
    ptr: Id,
}

impl URL {
    #[verifier::type_invariant]
    spec fn holds_an_object(&self) -> bool {
        !self.ptr.null()
    }
}

impl CocoaType for URL {
    closed spec fn handle(&self) -> Id {
        self.ptr
    }

    open spec fn declared_name() -> Seq<char> {
        "URL"@
    }

    fn from_ptr(ptr: Id) -> (wrapper: Option<Self>) {
        if ptr.is_null() {
            None
        } else {
            Some(Self { ptr })
        }
    }

    fn ptr(&self) -> (ptr: Id) {
        proof {
            use_type_invariant(self);
        }
        self.ptr
    }

    fn class_name() -> (name: &'static str) {
        "URL"
    }

    proof fn lemma_handle_determines_wrapper(a: Self, b: Self) {
    }
}

impl URL {
    /// What `absoluteString` of the object yielded, as native text.
    pub fn absolute_string(&self, reply: &Reply) -> (value: String)
        requires
            !reply.ptr.null(),
        ensures
            value@ == utf8_lossy(reply.utf8@),
            valid_utf8(reply.utf8@) ==> value@ == decode_utf8(reply.utf8@),
    {
        text(reply)
    }

    /// What `absoluteURL` of the object yielded, wrapped.
    pub fn absolute_url(&self, reply: Id) -> (value: URL)
        requires
            !reply.null(),
        ensures
            value.handle() == reply,
    {
        wrapped(reply)
    }

    /// What `baseURL` of the object yielded, wrapped; absent for null.
    pub fn base_url(&self, reply: Id) -> (value: Option<URL>)
        ensures
            reply.null() ==> value is None,
            !reply.null() ==> value is Some && value->0.handle() == reply,
    {
        optional_wrapped(reply)
    }

    /// What `fragment` of the object yielded, as native text; absent for null.
    pub fn fragment(&self, reply: &Reply) -> (value: Option<String>)
        ensures
            reply.ptr.null() ==> value is None,
            !reply.ptr.null() ==> value is Some && value->0@ == utf8_lossy(reply.utf8@),
            !reply.ptr.null() && valid_utf8(reply.utf8@) ==> value->0@ == decode_utf8(reply.utf8@),
    {
        optional_text(reply)
    }

    /// What `host` of the object yielded, as native text; absent for null.
    pub fn host(&self, reply: &Reply) -> (value: Option<String>)
        ensures
            reply.ptr.null() ==> value is None,
            !reply.ptr.null() ==> value is Some && value->0@ == utf8_lossy(reply.utf8@),
            !reply.ptr.null() && valid_utf8(reply.utf8@) ==> value->0@ == decode_utf8(reply.utf8@),
    {
        optional_text(reply)
    }

    /// What `lastPathComponent` of the object yielded, as native text.
    pub fn last_path_component(&self, reply: &Reply) -> (value: String)
        requires
            !reply.ptr.null(),
        ensures
            value@ == utf8_lossy(reply.utf8@),
            valid_utf8(reply.utf8@) ==> value@ == decode_utf8(reply.utf8@),
    {
        text(reply)
    }

    /// What `path` of the object yielded, as native text.
    pub fn path(&self, reply: &Reply) -> (value: String)
        requires
            !reply.ptr.null(),
        ensures
            value@ == utf8_lossy(reply.utf8@),
            valid_utf8(reply.utf8@) ==> value@ == decode_utf8(reply.utf8@),
    {
        text(reply)
    }

    /// What `pathExtension` of the object yielded, as native text.
    pub fn path_extension(&self, reply: &Reply) -> (value: String)
        requires
            !reply.ptr.null(),
        ensures
            value@ == utf8_lossy(reply.utf8@),
            valid_utf8(reply.utf8@) ==> value@ == decode_utf8(reply.utf8@),
    {
        text(reply)
    }

    /// What `query` of the object yielded, as native text; absent for null.
    pub fn query(&self, reply: &Reply) -> (value: Option<String>)
        ensures
            reply.ptr.null() ==> value is None,
            !reply.ptr.null() ==> value is Some && value->0@ == utf8_lossy(reply.utf8@),
            !reply.ptr.null() && valid_utf8(reply.utf8@) ==> value->0@ == decode_utf8(reply.utf8@),
    {
        optional_text(reply)
    }

    /// What `relativePath` of the object yielded, as native text.
    pub fn relative_path(&self, reply: &Reply) -> (value: String)
        requires
            !reply.ptr.null(),
        ensures
            value@ == utf8_lossy(reply.utf8@),
            valid_utf8(reply.utf8@) ==> value@ == decode_utf8(reply.utf8@),
    {
        text(reply)
    }

    /// What `relativeString` of the object yielded, as native text.
    pub fn relative_string(&self, reply: &Reply) -> (value: String)
        requires
            !reply.ptr.null(),
        ensures
            value@ == utf8_lossy(reply.utf8@),
            valid_utf8(reply.utf8@) ==> value@ == decode_utf8(reply.utf8@),
    {
        text(reply)
    }

    /// What `scheme` of the object yielded, as native text; absent for null.
    pub fn scheme(&self, reply: &Reply) -> (value: Option<String>)
        ensures
            reply.ptr.null() ==> value is None,
            !reply.ptr.null() ==> value is Some && value->0@ == utf8_lossy(reply.utf8@),
            !reply.ptr.null() && valid_utf8(reply.utf8@) ==> value->0@ == decode_utf8(reply.utf8@),
    {
        optional_text(reply)
    }

    /// What `standardized` of the object yielded, wrapped.
    pub fn standardized(&self, reply: Id) -> (value: URL)
        requires
            !reply.null(),
        ensures
            value.handle() == reply,
    {
        wrapped(reply)
    }

    /// What `standardizedFileURL` of the object yielded, wrapped.
    pub fn standardized_file_url(&self, reply: Id) -> (value: URL)
        requires
            !reply.null(),
        ensures
            value.handle() == reply,
    {
        wrapped(reply)
    }

    /// What `user` of the object yielded, as native text; absent for null.
    pub fn user(&self, reply: &Reply) -> (value: Option<String>)
        ensures
            reply.ptr.null() ==> value is None,
            !reply.ptr.null() ==> value is Some && value->0@ == utf8_lossy(reply.utf8@),
            !reply.ptr.null() && valid_utf8(reply.utf8@) ==> value->0@ == decode_utf8(reply.utf8@),
    {
        optional_text(reply)
    }

    /// What `password` of the object yielded, as native text; absent for null.
    pub fn password(&self, reply: &Reply) -> (value: Option<String>)
        ensures
            reply.ptr.null() ==> value is None,
            !reply.ptr.null() ==> value is Some && value->0@ == utf8_lossy(reply.utf8@),
            !reply.ptr.null() && valid_utf8(reply.utf8@) ==> value->0@ == decode_utf8(reply.utf8@),
    {
        optional_text(reply)
    }
}

} // verus!

//! The wrapper of a running application and its accessors.

use vstd::prelude::*;
use vstd::utf8::*;
use crate::cocoa_type::CocoaType;
use crate::convert::{handle, optional_text, optional_wrapped, scalar, wrapped};
use crate::object::{Id, Reply};
use crate::string::{utf8_lossy, NS_String, StringInit};
use crate::url::URL;

verus! {

/// The wrapper of a foreign running application.
pub struct RunningApplication {
    ptr: Id,
}

impl RunningApplication {
    #[verifier::type_invariant]
    spec fn holds_an_object(&self) -> bool {
        !self.ptr.null()
    }
}

impl CocoaType for RunningApplication {
    closed spec fn handle(&self) -> Id {
        self.ptr
    }

    open spec fn declared_name() -> Seq<char> {
        "RunningApplication"@
    }

    fn from_ptr(ptr: Id) -> (wrapper: Option<Self>) {
        if ptr.is_null() {
            None
        } else {
            Some(Self { ptr })
        }
    }

    fn ptr(&self) -> (ptr: Id) {
        proof {
            use_type_invariant(self);
        }
        self.ptr
    }

    fn class_name() -> (name: &'static str) {
        "RunningApplication"
    }

    proof fn lemma_handle_determines_wrapper(a: Self, b: Self) {
    }
}

impl RunningApplication {
    /// What `currentApplication` of `NSRunningApplication` yielded, wrapped.
    pub fn current_application(reply: Id) -> (value: RunningApplication)
        requires
            !reply.null(),
        ensures
            value.handle() == reply,
    {
        wrapped(reply)
    }

    /// What `active` of the object yielded.
    pub fn active(&self, reply: bool) -> (value: bool)
        ensures
            value == reply,
    {
        scalar(reply)
    }

    /// What `hidden` of the object yielded.
    pub fn hidden(&self, reply: bool) -> (value: bool)
        ensures
            value == reply,
    {
        scalar(reply)
    }

    /// What `localizedName` of the object yielded, as native text; absent for null.
    pub fn localized_name(&self, reply: &Reply) -> (value: Option<String>)
        ensures
            reply.ptr.null() ==> value is None,
            !reply.ptr.null() ==> value is Some && value->0@ == utf8_lossy(reply.utf8@),
            !reply.ptr.null() && valid_utf8(reply.utf8@) ==> value->0@ == decode_utf8(reply.utf8@),
    {
        optional_text(reply)
    }

    /// What `bundleIdentifier` of the object yielded, as native text; absent for null.
    pub fn bundle_identifier(&self, reply: &Reply) -> (value: Option<String>)
        ensures
            reply.ptr.null() ==> value is None,
            !reply.ptr.null() ==> value is Some && value->0@ == utf8_lossy(reply.utf8@),
            !reply.ptr.null() && valid_utf8(reply.utf8@) ==> value->0@ == decode_utf8(reply.utf8@),
    {
        optional_text(reply)
    }

    /// What `bundleURL` of the object yielded, wrapped; absent for null.
    pub fn bundle_url(&self, reply: Id) -> (value: Option<URL>)
        ensures
            reply.null() ==> value is None,
            !reply.null() ==> value is Some && value->0.handle() == reply,
    {
        optional_wrapped(reply)
    }

    /// What `executableArchitecture` of the object yielded.
    pub fn executable_architecture(&self, reply: isize) -> (value: isize)
        ensures
            value == reply,
    {
        scalar(reply)
    }

    /// What `executableURL` of the object yielded, wrapped; absent for null.
    pub fn executable_url(&self, reply: Id) -> (value: Option<URL>)
        ensures
            reply.null() ==> value is None,
            !reply.null() ==> value is Some && value->0.handle() == reply,
    {
        optional_wrapped(reply)
    }

    /// What `isFinishedLaunching` of the object yielded.
    pub fn is_finished_launching(&self, reply: bool) -> (value: bool)
        ensures
            value == reply,
    {
        scalar(reply)
    }

    /// What `processIdentifier` of the object yielded.
    pub fn process_identifier(&self, reply: usize) -> (value: usize)
        ensures
            value == reply,
    {
        scalar(reply)
    }

    /// What `ownsMenuBar` of the object yielded.
    pub fn owns_menu_bar(&self, reply: bool) -> (value: bool)
        ensures
            value == reply,
    {
        scalar(reply)
    }

    /// What `icon` of the object yielded, as the handle it is.
    pub fn icon(&self, reply: Id) -> (value: Id)
        requires
            !reply.null(),
        ensures
            value == reply,
    {
        handle(reply)
    }

    /// Whether to go on and write the icon to `path`, and with what. Where
    /// something already exists at `path` the answer is no: nothing is
    /// written and the save has failed. Otherwise the answer is the
    /// initializer of the foreign string that names the path.
    pub fn save_icon_to_file(&self, path: &str, path_exists: bool) -> (write: Option<StringInit>)
        ensures
            path_exists ==> write is None,
            !path_exists ==> write is Some && write->0.holds(path@),
    {
        if path_exists {
            return None;
        }
        Some(NS_String::from(path))
    }
}

} // verus!

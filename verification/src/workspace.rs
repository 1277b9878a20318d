//! The wrapper of the shared workspace and its accessors.

use vstd::prelude::*;
use crate::cocoa_type::CocoaType;
use crate::convert::wrapped;
use crate::notification_center::NotificationCenter;
use crate::object::Id;
use crate::running_application::RunningApplication;

verus! {

/// The wrapper of the foreign workspace.
pub struct Workspace {
    ptr: Id,
}

impl Workspace {
    #[verifier::type_invariant]
    spec fn holds_an_object(&self) -> bool {
        !self.ptr.null()
    }
}

impl CocoaType for Workspace {
    closed spec fn handle(&self) -> Id {
        self.ptr
    }

    open spec fn declared_name() -> Seq<char> {
        "Workspace"@
    }

    fn from_ptr(ptr: Id) -> (wrapper: Option<Self>) {
        if ptr.is_null() {
            None
        } else {
            Some(Self { ptr })
        }
    }

    fn ptr(&self) -> (ptr: Id) {
        proof {
            use_type_invariant(self);
        }
        self.ptr
    }

    fn class_name() -> (name: &'static str) {
        "Workspace"
    }

    proof fn lemma_handle_determines_wrapper(a: Self, b: Self) {
    }
}

impl Workspace {
    /// What `sharedWorkspace` of `NSWorkspace` yielded, wrapped.
    pub fn shared_workspace(reply: Id) -> (value: Workspace)
        requires
            !reply.null(),
        ensures
            value.handle() == reply,
    {
        wrapped(reply)
    }

    /// What `notificationCenter` of the object yielded, wrapped.
    pub fn notification_center(&self, reply: Id) -> (value: NotificationCenter)
        requires
            !reply.null(),
        ensures
            value.handle() == reply,
    {
        wrapped(reply)
    }

    /// What `frontmostApplication` of the object yielded, wrapped.
    pub fn frontmost_application(&self, reply: Id) -> (value: RunningApplication)
        requires
            !reply.null(),
        ensures
            value.handle() == reply,
    {
        wrapped(reply)
    }
}

} // verus!

//! The wrapper of a notification center, and what to send it to subscribe
//! an observer and to unsubscribe it.

use vstd::prelude::*;
use crate::app_watcher::NSAppWatcher;
use crate::cocoa_type::CocoaType;
use crate::convert::optional_wrapped;
use crate::notification_type::NotificationType;
use crate::object::Id;
use crate::string::{NS_String, StringInit};
use crate::url::URL;

verus! {

/// The wrapper of a foreign notification center.
pub struct NotificationCenter {
    ptr: Id,
}

impl NotificationCenter {
    #[verifier::type_invariant]
    spec fn holds_an_object(&self) -> bool {
        !self.ptr.null()
    }
}

impl CocoaType for NotificationCenter {
    closed spec fn handle(&self) -> Id {
        self.ptr
    }

    open spec fn declared_name() -> Seq<char> {
        "NotificationCenter"@
    }

    fn from_ptr(ptr: Id) -> (wrapper: Option<Self>) {
        if ptr.is_null() {
            None
        } else {
            Some(Self { ptr })
        }
    }

    fn ptr(&self) -> (ptr: Id) {
        proof {
            use_type_invariant(self);
        }
        self.ptr
    }

    fn class_name() -> (name: &'static str) {
        "NotificationCenter"
    }

    proof fn lemma_handle_determines_wrapper(a: Self, b: Self) {
    }
}

/// The message that subscribes an observer: the center it goes to, the
/// observer, the selector the center is to call on it, the initializer of
/// the name of the notification, and the object to which the subscription
/// is restricted (null for none).
#[derive(Debug)]
pub struct AddObserver {
    pub center: Id,
    pub observer: Id,
    pub selector: &'static str,
    pub name: StringInit,
    pub object: Id,
}

/// The message that unsubscribes an observer: the center it goes to, the
/// observer, the initializer of the name of the notification, and the
/// object filter, which is always null.
#[derive(Debug)]
pub struct RemoveObserver {
    pub center: Id,
    pub observer: Id,
    pub name: StringInit,
    pub object: Id,
}

impl NotificationCenter {
    /// What `defaultCenter` of `NSNotificationCenter` yielded, wrapped;
    /// absent for null.
    pub fn default_center(reply: Id) -> (value: Option<NotificationCenter>)
        ensures
            reply.null() ==> value is None,
            !reply.null() ==> value is Some && value->0.handle() == reply,
    {
        optional_wrapped(reply)
    }

    /// The message that subscribes `observer` to the notifications of
    /// `notification_type`: sent to this center, with the trampoline of that
    /// phase as the selector, the phase's name, and the handle of `object`
    /// as the filter (null where there is none).
    pub fn add_observer(
        &mut self,
        observer: &NSAppWatcher,
        notification_type: NotificationType,
        object: Option<&URL>,
    ) -> (message: AddObserver)
        ensures
            *final(self) == *old(self),
            message.center == old(self).handle(),
            message.observer == observer.handle(),
            message.selector@ == notification_type.selector(),
            message.name.holds(notification_type.name()),
            message.object == match object {
                Some(url) => url.handle(),
                None => (Id { addr: 0 }),
            },
    {
        let name = NS_String::from(notification_type.get_name());
        let object = match object {
            Some(url) => url.ptr(),
            None => Id::nil(),
        };
        let selector = notification_type.get_sel();
        let observer = observer.ptr();
        AddObserver { center: self.ptr(), observer, selector, name, object }
    }

    /// The message that unsubscribes `observer` from the notifications of
    /// `notification_type`, whatever object they are about.
    pub fn remove_observer(&mut self, observer: &NSAppWatcher, notification_type: NotificationType) -> (message:
        RemoveObserver)
        ensures
            *final(self) == *old(self),
            message.center == old(self).handle(),
            message.observer == observer.handle(),
            message.name.holds(notification_type.name()),
            message.object.null(),
    {
        let name = NS_String::from(notification_type.get_name());
        RemoveObserver { center: self.ptr(), observer: observer.ptr(), name, object: Id::nil() }
    }
}

} // verus!

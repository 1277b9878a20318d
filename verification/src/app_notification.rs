//! The event that the bridge delivers, and how it is decoded from what the
//! runtime yielded for one notification.

use vstd::prelude::*;
use vstd::utf8::*;
use crate::cocoa_type::CocoaType;
use crate::dict::{find, keys_read, Dict, DictEntry};
use crate::notification_type::NotificationType;
use crate::object::{Id, Reply};
use crate::running_application::RunningApplication;
use crate::string::utf8_lossy;

verus! {

/// A snapshot of the application that an event is about, taken by value
/// when the event is decoded.
#[derive(Debug, Clone, PartialEq, Eq)]
pub struct RunningAppInfo {
    pub pid: usize,
    pub localized_name: Option<String>,
    pub bundle_identifier: Option<String>,
    pub bundle_url: Option<String>,
}

/// A snapshot with each text as the sequence of its characters.
pub struct RunningAppInfoView {
    pub pid: usize,
    pub localized_name: Option<Seq<char>>,
    pub bundle_identifier: Option<Seq<char>>,
    pub bundle_url: Option<Seq<char>>,
}

/// The characters of a text that may be absent.
pub open spec fn characters(text: Option<String>) -> Option<Seq<char>> {
    match text {
        Some(s) => Some(s@),
        None => None,
    }
}

impl View for RunningAppInfo {
    type V = RunningAppInfoView;

    open spec fn view(&self) -> RunningAppInfoView {
        RunningAppInfoView {
            pid: self.pid,
            localized_name: characters(self.localized_name),
            bundle_identifier: characters(self.bundle_identifier),
            bundle_url: characters(self.bundle_url),
        }
    }
}

/// A lifecycle event: the phase, and the application it is about.
#[derive(Debug, Clone, PartialEq, Eq)]
pub struct AppNotification {
    pub notification_type: NotificationType,
    pub app: RunningAppInfo,
}

/// An event with the snapshot taken by its view.
pub struct AppNotificationView {
    pub notification_type: NotificationType,
    pub app: RunningAppInfoView,
}

impl View for AppNotification {
    type V = AppNotificationView;

    open spec fn view(&self) -> AppNotificationView {
        AppNotificationView { notification_type: self.notification_type, app: self.app@ }
    }
}

/// What the accessors of a running application yielded: its process id,
/// its localized name, its bundle identifier, its bundle URL, and the
/// absolute string of that URL (null where there is no URL to ask).
#[derive(Debug, Clone, PartialEq, Eq)]
pub struct ApplicationReply {
    pub process_identifier: usize,
    pub localized_name: Reply,
    pub bundle_identifier: Reply,
    pub bundle_url: Id,
    pub absolute_string: Reply,
}

/// The text of an answer that may be null.
pub open spec fn text_of(reply: Reply) -> Option<Seq<char>> {
    if reply.ptr.null() {
        None
    } else {
        Some(utf8_lossy(reply.utf8@))
    }
}

/// That `text` is what the bytes of `reply` encode, where `reply` is an
/// object and its bytes are valid UTF-8.
pub open spec fn reads_as(reply: Reply, text: Option<Seq<char>>) -> bool {
    !reply.ptr.null() && valid_utf8(reply.utf8@) ==> text == Some(decode_utf8(reply.utf8@))
}

impl ApplicationReply {
    /// Whether the answers keep what the accessors promise: a URL that is
    /// there has an absolute string.
    pub open spec fn complete(&self) -> bool {
        !self.bundle_url.null() ==> !self.absolute_string.ptr.null()
    }

    /// The snapshot that the answers amount to.
    pub open spec fn snapshot(&self) -> RunningAppInfoView {
        RunningAppInfoView {
            pid: self.process_identifier,
            localized_name: text_of(self.localized_name),
            bundle_identifier: text_of(self.bundle_identifier),
            bundle_url: if self.bundle_url.null() {
                None
            } else {
                Some(utf8_lossy(self.absolute_string.utf8@))
            },
        }
    }

    /// That each text of `info` that the answers give in valid UTF-8 is
    /// the text those bytes encode: the name, the bundle identifier, and,
    /// where there is a URL, its absolute string.
    pub open spec fn read_into(&self, info: RunningAppInfoView) -> bool {
        &&& reads_as(self.localized_name, info.localized_name)
        &&& reads_as(self.bundle_identifier, info.bundle_identifier)
        &&& !self.bundle_url.null() ==> reads_as(self.absolute_string, info.bundle_url)
    }

    /// Whether the answers keep what the accessors promise.
    pub fn is_complete(&self) -> (r: bool)
        ensures
            r == self.complete(),
    {
        self.bundle_url.is_null() || !self.absolute_string.ptr.is_null()
    }
}

impl RunningAppInfo {
    /// The snapshot of `running_application`, from what its accessors
    /// yielded: the process id as it is, name and bundle identifier as
    /// text where they are there, and the bundle URL by its absolute string.
    pub fn from(running_application: RunningApplication, reply: &ApplicationReply) -> (info: Self)
        requires
            reply.complete(),
        ensures
            info@ == reply.snapshot(),
            reply.read_into(info@),
    {
        let pid = running_application.process_identifier(reply.process_identifier);
        let localized_name = running_application.localized_name(&reply.localized_name);
        let bundle_identifier = running_application.bundle_identifier(&reply.bundle_identifier);
        let bundle_url = match running_application.bundle_url(reply.bundle_url) {
            Some(url) => Some(url.absolute_string(&reply.absolute_string)),
            None => None,
        };
        RunningAppInfo { pid, localized_name, bundle_identifier, bundle_url }
    }
}

/// The key under which every lifecycle notification carries the application
/// it is about.
pub const APPLICATION_KEY: &'static str = "NSWorkspaceApplicationKey";

/// What the runtime yielded for one notification: its payload dictionary,
/// what enumerating the dictionary yielded, and what the accessors of the
/// application under `APPLICATION_KEY` yielded.
pub struct NotificationReply {
    pub user_info: Id,
    pub entries: Vec<DictEntry>,
    pub application: ApplicationReply,
}

impl NotificationReply {
    /// The handle of the application that the notification is about: what
    /// the payload holds under `APPLICATION_KEY`, unless that is null.
    pub open spec fn subject(&self) -> Option<Id> {
        match find(self.entries@, APPLICATION_KEY@) {
            Some(at) => if self.entries@[at].value().ptr.null() {
                None
            } else {
                Some(self.entries@[at].value().ptr)
            },
            None => None,
        }
    }

    /// Whether the notification keeps what the workspace promises of it: it
    /// has a payload, the payload names the application, and the
    /// application's accessors answered as they promise.
    pub open spec fn decodable(&self) -> bool {
        &&& !self.user_info.null()
        &&& self.subject() is Some
        &&& self.application.complete()
    }

    /// Whether the notification keeps what the workspace promises of it.
    pub fn is_decodable(&self) -> (r: bool)
        ensures
            r == self.decodable(),
            !self.user_info.null() ==> keys_read(self.entries@),
    {
        match Dict::from_ptr(self.user_info) {
            Some(dict) => dict.get_id(&self.entries, APPLICATION_KEY).is_some()
                && self.application.is_complete(),
            None => false,
        }
    }
}

impl AppNotification {
    /// The event of phase `notification_type` that `notification` amounts
    /// to: the phase as given, with the snapshot of the application that
    /// the payload names.
    pub fn parse_notification(notification: &NotificationReply, notification_type: NotificationType) -> (event:
        Result<AppNotification, String>)
        requires
            notification.decodable(),
        ensures
            event is Ok,
            event->Ok_0@ == (AppNotificationView {
                notification_type,
                app: notification.application.snapshot(),
            }),
            notification.application.read_into(event->Ok_0@.app),
            keys_read(notification.entries@),
    {
        let dict = Dict::from_ptr(notification.user_info).unwrap();
        let subject = dict.get_id(&notification.entries, APPLICATION_KEY).unwrap();
        let application = RunningApplication::from_ptr(subject).unwrap();
        let notif = AppNotification {
            notification_type,
            app: RunningAppInfo::from(application, &notification.application),
        };
        Ok(notif)
    }
}

} // verus!

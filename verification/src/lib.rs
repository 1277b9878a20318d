//! The verified core of a bridge to the Cocoa application-lifecycle
//! framework: everything the bridge decides without touching the foreign
//! runtime. Handles are plain addresses, what the runtime answered is handed
//! in as plain values, and what is to be sent comes back as plain values.

pub mod app_notification;
pub mod app_watcher;
pub mod cocoa_type;
pub mod convert;
pub mod dict;
pub mod notification_center;
pub mod notification_type;
pub mod object;
pub mod prelude;
pub mod property;
pub mod running_application;
pub mod string;
pub mod url;
pub mod workspace;

pub use app_notification::AppNotification;
pub use app_notification::RunningAppInfo;
pub use app_watcher::NSAppWatcher;
pub use dict::Dict;
pub use notification_center::NotificationCenter;
pub use notification_type::NotificationType;
pub use running_application::RunningApplication;
pub use string::NS_String;
pub use url::URL;
pub use workspace::Workspace;

//! What most users of the bridge need, in one place.

pub use crate::cocoa_type::CocoaType;
pub use crate::dict::Dict;
pub use crate::notification_center::NotificationCenter;
pub use crate::notification_type::NotificationType;
pub use crate::object::Id;
pub use crate::object::NS_int;
pub use crate::object::NS_uint;
pub use crate::object::Reply;
pub use crate::property::cocoa_instance_property;
pub use crate::property::cocoa_type_property;
pub use crate::running_application::RunningApplication;
pub use crate::string::NS_String;
pub use crate::url::URL;
pub use crate::workspace::Workspace;

use cocoa_utils::cocoa_type::CocoaType;
use cocoa_utils::convert::{handle, optional_handle, optional_text, optional_wrapped, scalar, text, wrapped};
use cocoa_utils::object::{Id, Reply};
use cocoa_utils::property::{derive_cocoatype, DeriveInput};
use cocoa_utils::string::{StringInit, UTF8_ENCODING};
use cocoa_utils::{Dict, NSAppWatcher, NS_String, NotificationCenter, RunningApplication, Workspace, URL};

#[test]
fn null_handle_is_null() {
    assert!(Id::nil().is_null());
    assert_eq!(Id::nil().addr(), 0);
    assert!(Id::from_addr(0).is_null());
    assert!(!Id::from_addr(0x7f00_1000).is_null());
    assert_eq!(Id::from_addr(0x7f00_1000).addr(), 0x7f00_1000);
    assert_eq!(Id::from_addr(8), Id::from_addr(8));
    assert_ne!(Id::from_addr(8), Id::from_addr(16));
}

#[test]
fn from_ptr_of_null_is_absent() {
    assert!(NS_String::from_ptr(Id::nil()).is_none());
    assert!(Dict::from_ptr(Id::nil()).is_none());
    assert!(URL::from_ptr(Id::nil()).is_none());
    assert!(Workspace::from_ptr(Id::nil()).is_none());
    assert!(RunningApplication::from_ptr(Id::nil()).is_none());
    assert!(NotificationCenter::from_ptr(Id::nil()).is_none());
    assert!(NSAppWatcher::from_ptr(Id::nil()).is_none());
}

#[test]
fn from_ptr_wraps_exactly_the_handle() {
    let h = Id::from_addr(0x1000);
    assert_eq!(NS_String::from_ptr(h).unwrap().ptr(), h);
    assert_eq!(Dict::from_ptr(h).unwrap().ptr(), h);
    assert_eq!(URL::from_ptr(h).unwrap().ptr(), h);
    assert_eq!(Workspace::from_ptr(h).unwrap().ptr(), h);
    assert_eq!(RunningApplication::from_ptr(h).unwrap().ptr(), h);
    assert_eq!(NotificationCenter::from_ptr(h).unwrap().ptr(), h);
    assert_eq!(NSAppWatcher::from_ptr(h).unwrap().ptr(), h);
    assert_eq!(URL::from_ptr(Id::from_addr(1)).unwrap().ptr().addr(), 1);
    assert_eq!(URL::from_ptr(Id::from_addr(usize::MAX)).unwrap().ptr().addr(), usize::MAX);
}

#[test]
fn from_ptr_round_trips() {
    let w = URL::from_ptr(Id::from_addr(0xdead_b000)).unwrap();
    let again = URL::from_ptr(w.ptr()).unwrap();
    assert_eq!(again.ptr(), w.ptr());
    let d = Dict::from_ptr(Id::from_addr(24)).unwrap();
    assert_eq!(Dict::from_ptr(d.ptr()).unwrap().ptr(), Id::from_addr(24));
}

#[test]
fn class_name_is_the_declared_name() {
    assert_eq!(NS_String::class_name(), "NS_String");
    assert_eq!(Dict::class_name(), "Dict");
    assert_eq!(URL::class_name(), "URL");
    assert_eq!(Workspace::class_name(), "Workspace");
    assert_eq!(RunningApplication::class_name(), "RunningApplication");
    assert_eq!(NotificationCenter::class_name(), "NotificationCenter");
    assert_eq!(NSAppWatcher::class_name(), "NSAppWatcher");
}

#[test]
fn derive_names_the_class_after_the_type() {
    let written = derive_cocoatype(&DeriveInput { ident: "Workspace".to_string() });
    assert_eq!(written.self_ty, "Workspace");
    assert_eq!(written.class_name, "Workspace");
    assert_eq!(written.class_name, Workspace::class_name());
}

#[test]
fn string_init_carries_utf8_bytes() {
    let init = NS_String::from("abc");
    assert_eq!(init, StringInit { bytes: vec![0x61, 0x62, 0x63], length: 3, encoding: 4 });
    assert_eq!(UTF8_ENCODING, 4);
    let init = NS_String::from("é€");
    assert_eq!(init.bytes, vec![0xc3, 0xa9, 0xe2, 0x82, 0xac]);
    assert_eq!(init.length, 5);
    let init = NS_String::from("");
    assert_eq!(init.bytes, Vec::<u8>::new());
    assert_eq!(init.length, 0);
    assert_eq!(init.encoding, 4);
}

#[test]
fn to_string_decodes_utf8() {
    let s = NS_String::from_ptr(Id::from_addr(64)).unwrap();
    assert_eq!(s.to_string(b"Preview"), "Preview");
    assert_eq!(s.to_string(&[0xc3, 0xa9]), "é");
    assert_eq!(s.to_string(&[]), "");
}

#[test]
fn to_string_replaces_what_is_not_utf8() {
    let s = NS_String::from_ptr(Id::from_addr(64)).unwrap();
    assert_eq!(s.to_string(&[0x61, 0xff, 0x62]), "a\u{fffd}b");
    assert_eq!(s.to_string(&[0xc3]), "\u{fffd}");
}

#[test]
fn text_survives_the_boundary() {
    let s = NS_String::from_ptr(Id::from_addr(64)).unwrap();
    for content in ["", "Finder", "naïve café", "日本語", "a\u{0}b"] {
        let init = NS_String::from(content);
        assert_eq!(s.to_string(&init.bytes), content);
    }
}

#[test]
fn text_conversion_decodes_the_reply() {
    let reply = Reply::string(Id::from_addr(8), b"com.apple.Preview".to_vec());
    assert_eq!(text(&reply), "com.apple.Preview");
    assert_eq!(optional_text(&reply), Some("com.apple.Preview".to_string()));
    let broken = Reply::string(Id::from_addr(8), vec![0x80]);
    assert_eq!(text(&broken), "\u{fffd}");
}

#[test]
fn optional_text_of_null_is_absent() {
    assert_eq!(optional_text(&Reply::nil()), None);
    let odd = Reply { ptr: Id::nil(), utf8: b"ignored".to_vec() };
    assert_eq!(optional_text(&odd), None);
    let empty = Reply::string(Id::from_addr(8), Vec::new());
    assert_eq!(optional_text(&empty), Some(String::new()));
}

#[test]
fn handle_conversions_pass_the_handle() {
    let h = Id::from_addr(0x2000);
    assert_eq!(handle(h), h);
    assert_eq!(optional_handle(h), Some(h));
    assert_eq!(optional_handle(Id::nil()), None);
}

#[test]
fn scalar_conversion_passes_the_value() {
    assert_eq!(scalar(4242usize), 4242);
    assert_eq!(scalar(-7isize), -7);
    assert!(scalar(true));
    assert!(!scalar(false));
}

#[test]
fn wrapped_conversions_wrap_the_handle() {
    let h = Id::from_addr(0x3000);
    let url: URL = wrapped(h);
    assert_eq!(url.ptr(), h);
    let maybe: Option<URL> = optional_wrapped(h);
    assert_eq!(maybe.unwrap().ptr(), h);
    let none: Option<URL> = optional_wrapped(Id::nil());
    assert!(none.is_none());
}

#[test]
fn reply_constructors() {
    assert_eq!(Reply::nil(), Reply { ptr: Id::nil(), utf8: vec![] });
    assert_eq!(Reply::object(Id::from_addr(5)), Reply { ptr: Id::from_addr(5), utf8: vec![] });
    assert_eq!(Reply::string(Id::from_addr(5), vec![1, 2]), Reply { ptr: Id::from_addr(5), utf8: vec![1, 2] });
}

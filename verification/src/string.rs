//! Text on both sides of the boundary.

use vstd::prelude::*;
use vstd::string::*;
use vstd::utf8::*;
use crate::cocoa_type::CocoaType;
use crate::object::{Id, NS_uint};

verus! {

/// The wrapper of a foreign string.
#[allow(non_camel_case_types)]
pub struct NS_String {
    ptr: Id,
}

impl NS_String {
    #[verifier::type_invariant]
    spec fn holds_an_object(&self) -> bool {
        !self.ptr.null()
    }
}

impl CocoaType for NS_String {
    closed spec fn handle(&self) -> Id {
        self.ptr
    }

    open spec fn declared_name() -> Seq<char> {
        "NS_String"@
    }

    fn from_ptr(ptr: Id) -> (wrapper: Option<Self>) {
        if ptr.is_null() {
            None
        } else {
            Some(Self { ptr })
        }
    }

    fn ptr(&self) -> (ptr: Id) {
        proof {
            use_type_invariant(self);
        }
        self.ptr
    }

    fn class_name() -> (name: &'static str) {
        "NS_String"
    }

    proof fn lemma_handle_determines_wrapper(a: Self, b: Self) {
    }
}

/// The number by which the foreign runtime knows the UTF-8 encoding.
pub const UTF8_ENCODING: NS_uint = 4;

/// The arguments of the initializer that makes a foreign string out of
/// bytes: the bytes, how many they are, and the encoding they are in.
#[derive(Clone, Debug, PartialEq, Eq)]
pub struct StringInit {
    pub bytes: Vec<u8>,
    pub length: usize,
    pub encoding: NS_uint,
}

impl StringInit {
    /// Whether this is the initializer of a foreign string that holds
    /// `content`: its UTF-8 bytes, their number, and the UTF-8 encoding.
    pub open spec fn holds(&self, content: Seq<char>) -> bool {
        &&& self.bytes@ == encode_utf8(content)
        &&& self.length == self.bytes@.len()
        &&& self.encoding == UTF8_ENCODING
    }
}

/// The text that `String::from_utf8_lossy` makes of `bytes`: the text they
/// encode, with U+FFFD in place of each part that is no valid UTF-8.
pub uninterp spec fn utf8_lossy(bytes: Seq<u8>) -> Seq<char>;

/// `String::from_utf8_lossy`, owned. The contract names the result, and
/// claims of it what the documentation gives for the case without
/// replacement: bytes that are valid UTF-8 come out as the text they encode.
#[verifier::external_body]
pub(crate) fn from_utf8_lossy(bytes: &[u8]) -> (text: String)
    ensures
        text@ == utf8_lossy(bytes@),
        valid_utf8(bytes@) ==> text@ == decode_utf8(bytes@),
{
    String::from_utf8_lossy(bytes).into_owned()
}

impl NS_String {
    /// What to initialize a foreign string with so that it holds `content`:
    /// the UTF-8 bytes of `content`, their number, and the UTF-8 encoding.
    pub fn from(content: &str) -> (init: StringInit)
        ensures
            init.holds(content@),
    {
        let bytes = content.as_bytes_vec();
        let length = bytes.len();
        StringInit { bytes, length, encoding: UTF8_ENCODING }
    }

    /// The native text of the string, given the bytes the runtime yielded
    /// as its UTF-8 form: decoded, with U+FFFD for what does not decode.
    pub fn to_string(&self, utf8: &[u8]) -> (text: String)
        ensures
            text@ == utf8_lossy(utf8@),
            valid_utf8(utf8@) ==> text@ == decode_utf8(utf8@),
    {
        from_utf8_lossy(utf8)
    }
}

/// Text survives the boundary: if `bytes` is what `from` hands over for
/// `content`, and `text` is what `to_string` makes of those bytes, then
/// `text` is `content`.
pub proof fn lemma_text_round_trip(content: Seq<char>, init: StringInit, text: Seq<char>)
    requires
        init.holds(content),
        valid_utf8(init.bytes@) ==> text == decode_utf8(init.bytes@),
    ensures
        text == content,
{
    encode_utf8_valid_utf8(content);
    encode_utf8_decode_utf8(content);
}

} // verus!

//! The bridge to a foreign dictionary. Every operation works on what one
//! enumeration of the dictionary yielded, and changes nothing.

use vstd::prelude::*;
use vstd::hash_map::StringHashMap;
use vstd::string::*;
use vstd::utf8::*;
use crate::cocoa_type::CocoaType;
use crate::convert::{optional_handle, optional_text};
use crate::object::{Id, Reply};
use crate::string::{from_utf8_lossy, utf8_lossy};

verus! {

/// The wrapper of a foreign dictionary.
pub struct Dict {
    ptr: Id,
}

impl Dict {
    #[verifier::type_invariant]
    spec fn holds_an_object(&self) -> bool {
        !self.ptr.null()
    }
}

impl CocoaType for Dict {
    closed spec fn handle(&self) -> Id {
        self.ptr
    }

    open spec fn declared_name() -> Seq<char> {
        "Dict"@
    }

    fn from_ptr(ptr: Id) -> (wrapper: Option<Self>) {
        if ptr.is_null() {
            None
        } else {
            Some(Self { ptr })
        }
    }

    fn ptr(&self) -> (ptr: Id) {
        proof {
            use_type_invariant(self);
        }
        self.ptr
    }

    fn class_name() -> (name: &'static str) {
        "Dict"
    }

    proof fn lemma_handle_determines_wrapper(a: Self, b: Self) {
    }
}

/// One pair that enumerating a dictionary yielded: the key, which is a
/// string and never null, and the object stored under it.
pub struct DictEntry {
    key: Reply,
    value: Reply,
}

impl DictEntry {
    #[verifier::type_invariant]
    spec fn key_is_an_object(&self) -> bool {
        !self.key.ptr.null()
    }

    /// The key as the runtime yielded it.
    pub closed spec fn key(&self) -> Reply {
        self.key
    }

    /// The object under the key as the runtime yielded it.
    pub closed spec fn value(&self) -> Reply {
        self.value
    }

    /// The key as native text.
    pub open spec fn key_text(&self) -> Seq<char> {
        utf8_lossy(self.key().utf8@)
    }

    /// That the key, where its bytes are valid UTF-8, is the text they
    /// encode.
    pub open spec fn key_reads(&self) -> bool {
        valid_utf8(self.key().utf8@) ==> self.key_text() == decode_utf8(self.key().utf8@)
    }

    /// The pair of `key` and `value`, unless the key is null.
    pub fn new(key: Reply, value: Reply) -> (entry: Option<DictEntry>)
        ensures
            key.ptr.null() ==> entry is None,
            !key.ptr.null() ==> entry is Some && entry->0.key() == key && entry->0.value() == value,
    {
        if key.ptr.is_null() {
            None
        } else {
            Some(DictEntry { key, value })
        }
    }

    /// The handle of the key.
    pub fn key_ptr(&self) -> (ptr: Id)
        ensures
            ptr == self.key().ptr,
            !ptr.null(),
    {
        proof {
            use_type_invariant(self);
        }
        self.key.ptr
    }

    /// The handle of the object under the key.
    pub fn value_ptr(&self) -> (ptr: Id)
        ensures
            ptr == self.value().ptr,
    {
        self.value.ptr
    }

    /// The key as native text.
    pub fn decode_key(&self) -> (text: String)
        ensures
            text@ == self.key_text(),
            valid_utf8(self.key().utf8@) ==> text@ == decode_utf8(self.key().utf8@),
    {
        from_utf8_lossy(self.key.utf8.as_slice())
    }
}

/// The texts of `keys`, in their order.
pub open spec fn texts(keys: Seq<String>) -> Seq<Seq<char>> {
    Seq::new(keys.len(), |i: int| keys[i]@)
}

/// The pairs of `pairs`, each key as the sequence of its characters.
pub open spec fn pairs_view(pairs: Seq<(String, Id)>) -> Seq<(Seq<char>, Id)> {
    Seq::new(pairs.len(), |i: int| (pairs[i].0@, pairs[i].1))
}

/// The last place in `keys` at which `key` stands.
pub open spec fn last_index(keys: Seq<Seq<char>>, key: Seq<char>) -> Option<int>
    decreases keys.len(),
{
    if keys.len() == 0 {
        None
    } else if keys.last() == key {
        Some(keys.len() - 1)
    } else {
        last_index(keys.drop_last(), key)
    }
}

/// The mapping that `pairs` amount to: each key with the handle paired
/// with it, a later pair replacing an earlier one of the same key.
pub open spec fn assoc(pairs: Seq<(Seq<char>, Id)>) -> Map<Seq<char>, Id>
    decreases pairs.len(),
{
    if pairs.len() == 0 {
        Map::empty()
    } else {
        assoc(pairs.drop_last()).insert(pairs.last().0, pairs.last().1)
    }
}

/// The keys of `entries` as native text, in the order of the enumeration.
pub open spec fn keys_of(entries: Seq<DictEntry>) -> Seq<Seq<char>> {
    Seq::new(entries.len(), |i: int| entries[i].key_text())
}

/// That every key of `entries` whose bytes are valid UTF-8 is the text
/// they encode.
pub open spec fn keys_read(entries: Seq<DictEntry>) -> bool {
    forall|i: int| 0 <= i < entries.len() ==> (#[trigger] entries[i]).key_reads()
}

/// The pairs of `entries`: each key as native text, with the handle of
/// the object under it.
pub open spec fn pairs_of(entries: Seq<DictEntry>) -> Seq<(Seq<char>, Id)> {
    Seq::new(entries.len(), |i: int| (entries[i].key_text(), entries[i].value().ptr))
}

/// The place of the last of `entries` whose key is `key`.
pub open spec fn find(entries: Seq<DictEntry>, key: Seq<char>) -> Option<int> {
    last_index(keys_of(entries), key)
}

/// The mapping that `entries` amount to: each key with the handle stored
/// under it, a later entry replacing an earlier one of the same key.
pub open spec fn mapping(entries: Seq<DictEntry>) -> Map<Seq<char>, Id> {
    assoc(pairs_of(entries))
}

/// Where `last_index` finds a key, the key stands, and in no later place;
/// where it finds none, the key stands nowhere.
pub proof fn lemma_last_index(keys: Seq<Seq<char>>, key: Seq<char>)
    ensures
        match last_index(keys, key) {
            Some(at) => {
                &&& 0 <= at < keys.len()
                &&& keys[at] == key
                &&& forall|j: int| at < j < keys.len() ==> #[trigger] keys[j] != key
            },
            None => forall|j: int| 0 <= j < keys.len() ==> #[trigger] keys[j] != key,
        },
    decreases keys.len(),
{
    if keys.len() > 0 && keys.last() != key {
        let shorter = keys.drop_last();
        lemma_last_index(shorter, key);
        match last_index(shorter, key) {
            Some(at) => {
                assert forall|j: int| at < j < keys.len() implies #[trigger] keys[j] != key by {
                    if j < shorter.len() {
                        assert(shorter[j] == keys[j]);
                    }
                }
            },
            None => {
                assert forall|j: int| 0 <= j < keys.len() implies #[trigger] keys[j] != key by {
                    if j < shorter.len() {
                        assert(shorter[j] == keys[j]);
                    }
                }
            },
        }
    }
}

/// The mapping of pairs holds a key exactly where the key stands among
/// the keys of the pairs, with the handle of the last pair of that key.
pub proof fn lemma_assoc_is_last_index(pairs: Seq<(Seq<char>, Id)>, key: Seq<char>)
    ensures
        assoc(pairs).contains_key(key) <==> last_index(pairs.map_values(|p: (Seq<char>, Id)| p.0), key)
            is Some,
        last_index(pairs.map_values(|p: (Seq<char>, Id)| p.0), key) matches Some(at) ==> 0 <= at
            < pairs.len() && assoc(pairs)[key] == pairs[at].1,
    decreases pairs.len(),
{
    let keys = pairs.map_values(|p: (Seq<char>, Id)| p.0);
    if pairs.len() > 0 {
        let shorter = pairs.drop_last();
        assert(shorter.map_values(|p: (Seq<char>, Id)| p.0) =~= keys.drop_last());
        lemma_assoc_is_last_index(shorter, key);
        lemma_last_index(keys.drop_last(), key);
        assert(keys.last() == pairs.last().0);
    }
}

/// Where `find` finds a key, the key stands, and in no later place.
pub proof fn lemma_find(entries: Seq<DictEntry>, key: Seq<char>)
    ensures
        match find(entries, key) {
            Some(at) => {
                &&& 0 <= at < entries.len()
                &&& entries[at].key_text() == key
                &&& forall|j: int| at < j < entries.len() ==> (#[trigger] entries[j]).key_text() != key
            },
            None => forall|j: int| 0 <= j < entries.len() ==> (#[trigger] entries[j]).key_text() != key,
        },
{
    lemma_last_index(keys_of(entries), key);
    match find(entries, key) {
        Some(at) => {
            assert forall|j: int| at < j < entries.len() implies (#[trigger] entries[j]).key_text()
                != key by {
                assert(keys_of(entries)[j] != key);
            }
        },
        None => {
            assert forall|j: int| 0 <= j < entries.len() implies (#[trigger] entries[j]).key_text()
                != key by {
                assert(keys_of(entries)[j] != key);
            }
        },
    }
}

/// The mapping holds a key exactly where `find` finds it, with the handle
/// stored in that place.
pub proof fn lemma_mapping_is_find(entries: Seq<DictEntry>, key: Seq<char>)
    ensures
        mapping(entries).contains_key(key) <==> find(entries, key) is Some,
        find(entries, key) matches Some(at) ==> 0 <= at < entries.len() && mapping(entries)[key]
            == entries[at].value().ptr,
{
    let pairs = pairs_of(entries);
    assert(pairs.map_values(|p: (Seq<char>, Id)| p.0) =~= keys_of(entries));
    lemma_assoc_is_last_index(pairs, key);
}

/// The keys of the mapping are the keys of the enumeration, as a set.
pub proof fn lemma_mapping_keys(entries: Seq<DictEntry>)
    ensures
        mapping(entries).dom() == keys_of(entries).to_set(),
{
    assert forall|key: Seq<char>| mapping(entries).dom().contains(key) <==> keys_of(
        entries,
    ).to_set().contains(key) by {
        lemma_mapping_is_find(entries, key);
        lemma_find(entries, key);
        if keys_of(entries).to_set().contains(key) {
            let i = choose|i: int| 0 <= i < keys_of(entries).len() && keys_of(entries)[i] == key;
            assert(entries[i].key_text() == key);
        }
        if find(entries, key) is Some {
            assert(keys_of(entries)[find(entries, key)->0] == key);
        }
    }
    assert(mapping(entries).dom() =~= keys_of(entries).to_set());
}

/// The last place in `keys` at which `key` stands.
pub fn last_index_of(keys: &Vec<String>, key: &str) -> (at: Option<usize>)
    ensures
        at is Some <==> last_index(texts(keys@), key@) is Some,
        at is Some ==> last_index(texts(keys@), key@) == Some(at->0 as int),
{
    let wanted = String::from_str(key);
    let mut i: usize = keys.len();
    proof {
        assert(texts(keys@).take(i as int) =~= texts(keys@));
    }
    while i > 0
        invariant
            i <= keys@.len(),
            wanted@ == key@,
            last_index(texts(keys@), key@) == last_index(texts(keys@).take(i as int), key@),
        decreases i,
    {
        i -= 1;
        proof {
            let longer = texts(keys@).take(i + 1);
            assert(longer.drop_last() =~= texts(keys@).take(i as int));
            assert(longer.last() == keys@[i as int]@);
        }
        if keys[i] == wanted {
            return Some(i);
        }
    }
    None
}

/// The mapping that `pairs` amount to. Should a key come twice, the later
/// pair stays.
pub fn collect(pairs: Vec<(String, Id)>) -> (hashmap: StringHashMap<Id>)
    ensures
        hashmap@ == assoc(pairs_view(pairs@)),
{
    let count = pairs.len();
    let mut hashmap: StringHashMap<Id> = StringHashMap::with_capacity(count);
    let mut i: usize = 0;
    while i < count
        invariant
            count == pairs@.len(),
            i <= count,
            hashmap@ == assoc(pairs_view(pairs@).take(i as int)),
        decreases count - i,
    {
        let key = pairs[i].0.clone();
        let value = pairs[i].1;
        hashmap.insert(key, value);
        proof {
            let longer = pairs_view(pairs@).take(i + 1);
            assert(longer.drop_last() =~= pairs_view(pairs@).take(i as int));
            assert(longer.last() == (pairs@[i as int].0@, pairs@[i as int].1));
        }
        i += 1;
    }
    proof {
        assert(pairs_view(pairs@).take(count as int) =~= pairs_view(pairs@));
    }
    hashmap
}

impl Dict {
    /// The keys as native text, in the order of the enumeration.
    pub fn get_keys(&self, entries: &Vec<DictEntry>) -> (keys: Vec<String>)
        ensures
            keys@.len() == entries@.len(),
            texts(keys@) == keys_of(entries@),
            forall|i: int|
                0 <= i < entries@.len() && valid_utf8(entries@[i].key().utf8@) ==> (#[trigger] keys@[i])@
                    == decode_utf8(entries@[i].key().utf8@),
            keys_read(entries@),
    {
        let count = entries.len();
        let mut keys_vec: Vec<String> = Vec::with_capacity(count);
        let mut i: usize = 0;
        while i < count
            invariant
                count == entries@.len(),
                i <= count,
                keys_vec@.len() == i,
                forall|j: int| 0 <= j < i ==> (#[trigger] keys_vec@[j])@ == entries@[j].key_text(),
                forall|j: int| 0 <= j < i ==> (#[trigger] entries@[j]).key_reads(),
            decreases count - i,
        {
            let key = entries[i].decode_key();
            keys_vec.push(key);
            i += 1;
        }
        proof {
            assert(texts(keys_vec@) =~= keys_of(entries@));
        }
        keys_vec
    }

    /// The pairs of the enumeration: each key as native text, with the
    /// handle of the object under it.
    pub fn get_pairs(&self, entries: &Vec<DictEntry>) -> (pairs: Vec<(String, Id)>)
        ensures
            pairs@.len() == entries@.len(),
            pairs_view(pairs@) == pairs_of(entries@),
            keys_read(entries@),
    {
        let count = entries.len();
        let mut pairs: Vec<(String, Id)> = Vec::with_capacity(count);
        let mut i: usize = 0;
        while i < count
            invariant
                count == entries@.len(),
                i <= count,
                pairs@.len() == i,
                forall|j: int|
                    0 <= j < i ==> (#[trigger] pairs@[j]).0@ == entries@[j].key_text() && pairs@[j].1
                        == entries@[j].value().ptr,
                forall|j: int| 0 <= j < i ==> (#[trigger] entries@[j]).key_reads(),
            decreases count - i,
        {
            let key = entries[i].decode_key();
            let value = entries[i].value_ptr();
            pairs.push((key, value));
            i += 1;
        }
        proof {
            assert(pairs_view(pairs@) =~= pairs_of(entries@));
        }
        pairs
    }

    /// The mapping from each key to the handle stored under it. Should a
    /// key come twice, the later entry stays.
    pub fn into_hashmap(&self, entries: &Vec<DictEntry>) -> (hashmap: StringHashMap<Id>)
        ensures
            hashmap@ == mapping(entries@),
            keys_read(entries@),
    {
        collect(self.get_pairs(entries))
    }

    /// The place of the last entry whose key is `key`.
    pub fn find_entry(&self, entries: &Vec<DictEntry>, key: &str) -> (at: Option<usize>)
        ensures
            at is Some <==> find(entries@, key@) is Some,
            at is Some ==> find(entries@, key@) == Some(at->0 as int),
            keys_read(entries@),
    {
        let keys = self.get_keys(entries);
        last_index_of(&keys, key)
    }

    /// The handle stored under `key`: absent where the enumeration has no
    /// such key, and where what is stored under it is null.
    pub fn get_id(&self, entries: &Vec<DictEntry>, key: &str) -> (value: Option<Id>)
        ensures
            value == match find(entries@, key@) {
                Some(at) => if entries@[at].value().ptr.null() {
                    None
                } else {
                    Some(entries@[at].value().ptr)
                },
                None => None,
            },
            value == if mapping(entries@).contains_key(key@) && !mapping(entries@)[key@].null() {
                Some(mapping(entries@)[key@])
            } else {
                None
            },
            keys_read(entries@),
    {
        proof {
            lemma_find(entries@, key@);
            lemma_mapping_is_find(entries@, key@);
        }
        match self.find_entry(entries, key) {
            Some(at) => optional_handle(entries[at].value_ptr()),
            None => None,
        }
    }

    /// The string stored under `key`, as native text: absent where the
    /// enumeration has no such key, and where what is stored under it is
    /// null.
    pub fn get_string(&self, entries: &Vec<DictEntry>, key: &str) -> (value: Option<String>)
        ensures
            match find(entries@, key@) {
                Some(at) => if entries@[at].value().ptr.null() {
                    value is None
                } else {
                    &&& value is Some
                    &&& value->0@ == utf8_lossy(entries@[at].value().utf8@)
                    &&& valid_utf8(entries@[at].value().utf8@) ==> value->0@ == decode_utf8(
                        entries@[at].value().utf8@,
                    )
                },
                None => value is None,
            },
            keys_read(entries@),
    {
        proof {
            lemma_find(entries@, key@);
        }
        match self.find_entry(entries, key) {
            Some(at) => entries[at].value_text(),
            None => None,
        }
    }

    /// What the runtime answered for `key`, taken as a `T` as it is. The
    /// bridge neither looks at the value nor checks that it is a `T`.
    pub fn get_value<T>(&self, key: &str, reply: T) -> (value: T)
        ensures
            value == reply,
    {
        reply
    }

    /// What `callback` makes of each pair of key handle and value handle,
    /// in the order of the enumeration.
    pub fn map<T, F: Fn(Id, Id) -> T>(self, entries: &Vec<DictEntry>, callback: F) -> (results: Vec<T>)
        requires
            forall|i: int|
                0 <= i < entries@.len() ==> call_requires(
                    callback,
                    ((#[trigger] entries@[i]).key().ptr, entries@[i].value().ptr),
                ),
        ensures
            results@.len() == entries@.len(),
            forall|i: int|
                0 <= i < entries@.len() ==> call_ensures(
                    callback,
                    (entries@[i].key().ptr, entries@[i].value().ptr),
                    #[trigger] results@[i],
                ),
    {
        let count = entries.len();
        let mut vec: Vec<T> = Vec::new();
        let mut i: usize = 0;
        while i < count
            invariant
                count == entries@.len(),
                i <= count,
                vec@.len() == i,
                forall|j: int|
                    0 <= j < entries@.len() ==> call_requires(
                        callback,
                        ((#[trigger] entries@[j]).key().ptr, entries@[j].value().ptr),
                    ),
                forall|j: int|
                    0 <= j < i ==> call_ensures(
                        callback,
                        (entries@[j].key().ptr, entries@[j].value().ptr),
                        #[trigger] vec@[j],
                    ),
            decreases count - i,
        {
            let key = entries[i].key_ptr();
            let value = entries[i].value_ptr();
            let result = callback(key, value);
            vec.push(result);
            i += 1;
        }
        vec
    }
}

impl DictEntry {
    /// The object under the key as native text, absent where it is null.
    pub fn value_text(&self) -> (text: Option<String>)
        ensures
            self.value().ptr.null() ==> text is None,
            !self.value().ptr.null() ==> text is Some && text->0@ == utf8_lossy(self.value().utf8@),
            !self.value().ptr.null() && valid_utf8(self.value().utf8@) ==> text->0@ == decode_utf8(
                self.value().utf8@,
            ),
    {
        optional_text(&self.value)
    }
}

} // verus!

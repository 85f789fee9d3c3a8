//! A model of JSON documents, holding what the service reads of them.
//!
//! Numbers keep the integer value where there is one; a floating-point
//! number keeps its decimal text, so that a document converts back to the
//! same JSON value.
//! Lookups follow the rules of indexing a JSON value by a key: a missing key,
//! or a value that is not an object, gives `null`.

use vstd::prelude::*;

verus! {

/// A JSON number: a non-negative integer, a negative integer, or a
/// floating-point number given by its shortest decimal text.
#[derive(Debug, Clone, PartialEq)]
pub enum JsonNumber {
    PosInt(u64),
    NegInt(i64),
    Float(String),
}

/// A JSON document. An object keeps its members in a list of
/// (key, value) pairs.
#[derive(Debug, PartialEq)]
pub enum JsonValue {
    Null,
    Bool(bool),
    Number(JsonNumber),
    String(String),
    Array(Vec<JsonValue>),
    Object(Vec<(String, JsonValue)>),
}

/// The value of the first member named `key`, or `null` when there is none.
pub open spec fn lookup(entries: Seq<(String, JsonValue)>, key: Seq<char>) -> JsonValue
    decreases entries.len(),
{
    if entries.len() == 0 {
        JsonValue::Null
    } else if entries[0].0@ == key {
        entries[0].1
    } else {
        lookup(entries.drop_first(), key)
    }
}

/// The keys of an object's members are pairwise distinct.
pub open spec fn keys_distinct(entries: Seq<(String, JsonValue)>) -> bool {
    forall|a: int, b: int|
        0 <= a < b < entries.len() ==> #[trigger] entries[a].0@ != #[trigger] entries[b].0@
}

/// With distinct keys, the lookup finds the member that carries the key, and
/// gives `null` when no member does.
pub proof fn lemma_lookup(entries: Seq<(String, JsonValue)>, key: Seq<char>)
    ensures
        (forall|j: int| 0 <= j < entries.len() ==> #[trigger] entries[j].0@ != key)
            ==> lookup(entries, key) == JsonValue::Null,
        forall|j: int|
            0 <= j < entries.len() && keys_distinct(entries) && #[trigger] entries[j].0@ == key
                ==> lookup(entries, key) == entries[j].1,
    decreases entries.len(),
{
    if entries.len() > 0 {
        let rest = entries.drop_first();
        lemma_lookup(rest, key);
        assert forall|j: int| 0 <= j < rest.len() implies #[trigger] rest[j] == entries[j + 1] by {}
        if (forall|j: int| 0 <= j < entries.len() ==> #[trigger] entries[j].0@ != key) {
            assert(entries[0].0@ != key);
            assert forall|j: int| 0 <= j < rest.len() implies #[trigger] rest[j].0@ != key by {
                assert(entries[j + 1].0@ != key);
            }
        }
        assert forall|j: int|
            0 <= j < entries.len() && keys_distinct(entries) && #[trigger] entries[j].0@ == key
            implies lookup(entries, key) == entries[j].1 by {
            if j > 0 {
                assert(entries[0].0@ != entries[j].0@);
                assert(rest[j - 1] == entries[j]);
                assert forall|a: int, b: int|
                    0 <= a < b < rest.len() implies #[trigger] rest[a].0@ != #[trigger] rest[b].0@ by {
                    assert(rest[a] == entries[a + 1]);
                    assert(rest[b] == entries[b + 1]);
                }
            }
        }
    }
}

/// The view of an optional string slice.
pub open spec fn str_opt_view(o: Option<&str>) -> Option<Seq<char>> {
    match o {
        Some(s) => Some(s@),
        None => None,
    }
}

/// The view of an optional string.
pub open spec fn string_opt_view(o: Option<String>) -> Option<Seq<char>> {
    match o {
        Some(s) => Some(s@),
        None => None,
    }
}

impl JsonNumber {
    /// The number as a 64-bit signed integer, where it is an integer that fits.
    pub open spec fn integer(self) -> Option<i64> {
        match self {
            JsonNumber::PosInt(n) => if n <= i64::MAX as u64 { Some(n as i64) } else { None },
            JsonNumber::NegInt(n) => Some(n),
            JsonNumber::Float(_) => None,
        }
    }

    /// Returns the number as an `i64` where it is an integer in range.
    pub fn as_i64(&self) -> (r: Option<i64>)
        ensures
            r == self.integer(),
    {
        match self {
            JsonNumber::PosInt(n) => {
                if *n <= 9223372036854775807u64 {
                    Some(*n as i64)
                } else {
                    None
                }
            },
            JsonNumber::NegInt(n) => Some(*n),
            JsonNumber::Float(_) => None,
        }
    }
}

impl JsonValue {
    /// The member named `key` of an object, `null` for anything else.
    pub open spec fn field(self, key: Seq<char>) -> JsonValue {
        match self {
            JsonValue::Object(entries) => lookup(entries@, key),
            _ => JsonValue::Null,
        }
    }

    /// The text of a string value.
    pub open spec fn text(self) -> Option<Seq<char>> {
        match self {
            JsonValue::String(s) => Some(s@),
            _ => None,
        }
    }

    /// The value of an integer that fits in an `i64`.
    pub open spec fn integer(self) -> Option<i64> {
        match self {
            JsonValue::Number(n) => n.integer(),
            _ => None,
        }
    }

    /// Returns the member named `key`, or `null` when `self` is not an object
    /// or has no such member.
    pub fn get_field<'a>(&'a self, key: &str) -> (r: &'a JsonValue)
        ensures
            *r == self.field(key@),
    {
        match self {
            JsonValue::Object(entries) => {
                let mut i: usize = 0;
                assert(entries@.skip(0) =~= entries@);
                while i < entries.len()
                    invariant
                        i <= entries@.len(),
                        self.field(key@) == lookup(entries@, key@),
                        lookup(entries@, key@) == lookup(entries@.skip(i as int), key@),
                    decreases entries@.len() - i,
                {
                    assert(entries@.skip(i as int).drop_first() =~= entries@.skip(i + 1));
                    assert(entries@.skip(i as int)[0] == entries@[i as int]);
                    if str_equal(entries[i].0.as_str(), key) {
                        return &entries[i].1;
                    }
                    i = i + 1;
                }
                &JsonValue::Null
            },
            _ => &JsonValue::Null,
        }
    }

    /// Returns the text of a string value.
    pub fn as_str(&self) -> (r: Option<&str>)
        ensures
            str_opt_view(r) == self.text(),
    {
        match self {
            JsonValue::String(s) => Some(s.as_str()),
            _ => None,
        }
    }

    /// Returns the value of an integer that fits in an `i64`.
    pub fn as_i64(&self) -> (r: Option<i64>)
        ensures
            r == self.integer(),
    {
        match self {
            JsonValue::Number(n) => n.as_i64(),
            _ => None,
        }
    }
}

/// Compares two string slices by their characters.
pub fn str_equal(a: &str, b: &str) -> (r: bool)
    ensures
        r == (a@ == b@),
{
    let x = String::from_str(a);
    let y = String::from_str(b);
    x == y
}

/// The text a request header contributes: its value, or the empty string
/// when the value could not be read as text.
pub open spec fn header_text(value: Option<String>) -> Seq<char> {
    match value {
        Some(s) => s@,
        None => Seq::empty(),
    }
}

/// The text of the last header named `name`, if any header has that name.
pub open spec fn last_header(headers: Seq<(String, Option<String>)>, name: Seq<char>) -> Option<
    Seq<char>,
>
    decreases headers.len(),
{
    if headers.len() == 0 {
        None
    } else if headers.last().0@ == name {
        Some(header_text(headers.last().1))
    } else {
        last_header(headers.drop_last(), name)
    }
}

/// `doc` is the object that records the request headers: one member per
/// header name, holding the text of the last header of that name.
pub open spec fn is_headers_document(doc: JsonValue, headers: Seq<(String, Option<String>)>) -> bool {
    match doc {
        JsonValue::Object(entries) => {
            &&& keys_distinct(entries@)
            &&& forall|j: int|
                0 <= j < entries@.len() ==> (#[trigger] entries@[j]).1 is String
            &&& forall|name: Seq<char>| #[trigger] doc.field(name).text() == last_header(headers, name)
            &&& forall|name: Seq<char>|
                last_header(headers, name) is None ==> #[trigger] doc.field(name) == JsonValue::Null
        },
        _ => false,
    }
}

/// Returns the index of the member named `key`.
pub fn find_key(entries: &Vec<(String, JsonValue)>, key: &str) -> (r: Option<usize>)
    ensures
        r matches Some(j) ==> j < entries@.len() && entries@[j as int].0@ == key@,
        r is None ==> forall|j: int| 0 <= j < entries@.len() ==> #[trigger] entries@[j].0@ != key@,
{
    let mut j: usize = 0;
    while j < entries.len()
        invariant
            j <= entries@.len(),
            forall|m: int| 0 <= m < j ==> #[trigger] entries@[m].0@ != key@,
        decreases entries@.len() - j,
    {
        if str_equal(entries[j].0.as_str(), key) {
            return Some(j);
        }
        j = j + 1;
    }
    None
}

/// Builds the JSON object recorded for the request headers, given each
/// header's name and its value where the value is readable as text. A header
/// whose value is not readable contributes the empty string; where a name
/// occurs more than once, the last occurrence wins.
pub fn headers_object(headers: &Vec<(String, Option<String>)>) -> (doc: JsonValue)
    ensures
        is_headers_document(doc, headers@),
{
    let mut entries: Vec<(String, JsonValue)> = Vec::new();
    let mut i: usize = 0;
    while i < headers.len()
        invariant
            i <= headers@.len(),
            keys_distinct(entries@),
            forall|j: int|
                0 <= j < entries@.len() ==> (#[trigger] entries@[j]).1 is String
                    && last_header(headers@.take(i as int), entries@[j].0@)
                    == entries@[j].1.text(),
            forall|name: Seq<char>|
                #[trigger] last_header(headers@.take(i as int), name) is Some ==> exists|j: int|
                    0 <= j < entries@.len() && #[trigger] entries@[j].0@ == name,
        decreases headers@.len() - i,
    {
        let name = headers[i].0.clone();
        let text = match &headers[i].1 {
            Some(v) => v.clone(),
            None => String::new(),
        };
        let ghost prefix = headers@.take(i as int);
        let ghost next = headers@.take(i + 1);
        let ghost key = headers@[i as int].0@;
        let ghost value = header_text(headers@[i as int].1);
        assert(next.drop_last() =~= prefix);
        assert(next.last() == headers@[i as int]);
        assert(text@ == value);
        assert forall|n: Seq<char>|
            #[trigger] last_header(next, n) == if n == key {
                Some(value)
            } else {
                last_header(prefix, n)
            } by {}
        let ghost old_entries = entries@;
        match find_key(&entries, name.as_str()) {
            Some(j) => {
                entries.set(j, (name, JsonValue::String(text)));
                assert forall|a: int, b: int|
                    0 <= a < b < entries@.len() implies #[trigger] entries@[a].0@
                    != #[trigger] entries@[b].0@ by {
                    assert(old_entries[a].0@ != old_entries[b].0@);
                }
                assert forall|n: Seq<char>|
                    #[trigger] last_header(next, n) is Some implies exists|m: int|
                        0 <= m < entries@.len() && #[trigger] entries@[m].0@ == n by {
                    if n == key {
                        assert(entries@[j as int].0@ == n);
                    } else {
                        assert(last_header(prefix, n) is Some);
                        let m = choose|m: int| 0 <= m < old_entries.len() && #[trigger] old_entries[m].0@ == n;
                        assert(entries@[m].0@ == n);
                    }
                }
            },
            None => {
                entries.push((name, JsonValue::String(text)));
                assert forall|a: int, b: int|
                    0 <= a < b < entries@.len() implies #[trigger] entries@[a].0@
                    != #[trigger] entries@[b].0@ by {
                    if b < old_entries.len() {
                        assert(old_entries[a].0@ != old_entries[b].0@);
                    } else {
                        assert(old_entries[a].0@ != key);
                    }
                }
                assert forall|n: Seq<char>|
                    #[trigger] last_header(next, n) is Some implies exists|m: int|
                        0 <= m < entries@.len() && #[trigger] entries@[m].0@ == n by {
                    if n == key {
                        assert(entries@[old_entries.len() as int].0@ == n);
                    } else {
                        assert(last_header(prefix, n) is Some);
                        let m = choose|m: int| 0 <= m < old_entries.len() && #[trigger] old_entries[m].0@ == n;
                        assert(entries@[m].0@ == n);
                    }
                }
            },
        }
        i = i + 1;
    }
    assert(headers@.take(headers@.len() as int) =~= headers@);
    let doc = JsonValue::Object(entries);
    assert forall|name: Seq<char>| #[trigger] doc.field(name).text() == last_header(headers@, name) by {
        lemma_lookup(entries@, name);
        if exists|j: int| 0 <= j < entries@.len() && #[trigger] entries@[j].0@ == name {
            let j = choose|j: int| 0 <= j < entries@.len() && #[trigger] entries@[j].0@ == name;
            assert(doc.field(name) == entries@[j].1);
        } else {
            assert(doc.field(name) == JsonValue::Null);
        }
    }
    assert forall|name: Seq<char>|
        last_header(headers@, name) is None implies #[trigger] doc.field(name) == JsonValue::Null by {
        lemma_lookup(entries@, name);
        if exists|j: int| 0 <= j < entries@.len() && #[trigger] entries@[j].0@ == name {
            let j = choose|j: int| 0 <= j < entries@.len() && #[trigger] entries@[j].0@ == name;
            assert(doc.field(name) == entries@[j].1);
        }
    }
    doc
}

/// How the headers document accumulates: with no headers no name has a
/// value; after one more header `(name, value)`, `name` holds the value's
/// text (the empty text when the value is unreadable) and every other name
/// keeps what it held.
pub proof fn lemma_last_header_steps(
    headers: Seq<(String, Option<String>)>,
    name: String,
    value: Option<String>,
    other: Seq<char>,
)
    ensures
        last_header(Seq::empty(), other) is None,
        last_header(headers.push((name, value)), name@) == Some(
            match value {
                Some(v) => v@,
                None => Seq::<char>::empty(),
            },
        ),
        other != name@ ==> last_header(headers.push((name, value)), other) == last_header(
            headers,
            other,
        ),
{
    assert(headers.push((name, value)).drop_last() =~= headers);
}

/// What the accessors read: a string value has its text and nothing else
/// has text; a non-negative integer up to `i64::MAX` and every negative
/// integer are read as that integer, and every other value, a larger
/// integer or a floating-point number included, reads as no integer.
pub proof fn lemma_json_accessors(v: JsonValue)
    ensures
        v.text() is Some <==> v is String,
        v matches JsonValue::String(s) ==> v.text() == Some(s@),
        v matches JsonValue::Number(JsonNumber::PosInt(n)) ==> (v.integer() is Some <==> n
            <= 9223372036854775807u64),
        v matches JsonValue::Number(JsonNumber::PosInt(n)) ==> (n <= 9223372036854775807u64
            ==> v.integer() == Some(n as i64)),
        v matches JsonValue::Number(JsonNumber::NegInt(n)) ==> v.integer() == Some(n),
        !(v is Number) ==> v.integer() is None,
        v matches JsonValue::Number(JsonNumber::Float(_)) ==> v.integer() is None,
        !(v is Object) ==> forall|key: Seq<char>| #[trigger] v.field(key) == JsonValue::Null,
{
}

/// What the headers document holds: an object in which every header name
/// has the text of its last header, and every other name is `null`.
pub proof fn lemma_headers_document_fields(
    doc: JsonValue,
    headers: Seq<(String, Option<String>)>,
    name: Seq<char>,
)
    requires
        is_headers_document(doc, headers),
    ensures
        doc is Object,
        doc.field(name).text() == last_header(headers, name),
        last_header(headers, name) is None ==> doc.field(name) == JsonValue::Null,
{
}

} // verus!

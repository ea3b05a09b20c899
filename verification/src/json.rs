//! JSON documents as plain data.
//!
//! Report formats and server replies are JSON. The text is read by
//! `serde_json`; what the rest of the library looks at is [`Json`], a tree that
//! holds exactly what the readers of a document ask of it: the kind of each
//! node, strings, integers, the items of arrays and the members of objects.

use vstd::prelude::*;

verus! {

/// The mathematical content of a JSON document.
pub enum JsonValue {
    Null,
    Bool(bool),
    /// A number, with its value where it is an integer that fits 64 signed bits.
    Number(Option<i64>),
    Text(Seq<char>),
    Array(Seq<JsonValue>),
    /// The members of an object, each a name and a value.
    Object(Seq<(Seq<char>, JsonValue)>),
}

/// A JSON document.
pub enum Json {
    Null,
    Bool(bool),
    /// A number, with its value where it is an integer that fits 64 signed bits.
    Number(Option<i64>),
    Text(String),
    Array(Vec<Json>),
    Object(Vec<JsonField>),
}

/// One member of a JSON object.
pub struct JsonField {
    pub name: String,
    pub value: Json,
}

/// The content of a list of documents.
pub open spec fn contents(docs: Seq<Json>) -> Seq<JsonValue>
    decreases docs, 0int,
{
    Seq::new(
        docs.len(),
        |i: int|
            if 0 <= i < docs.len() {
                content(docs[i])
            } else {
                JsonValue::Null
            },
    )
}

/// The name and content of each member of a list.
pub open spec fn member_contents(fields: Seq<JsonField>) -> Seq<(Seq<char>, JsonValue)>
    decreases fields, 0int,
{
    Seq::new(
        fields.len(),
        |i: int|
            if 0 <= i < fields.len() {
                (fields[i].name@, content(fields[i].value))
            } else {
                (Seq::empty(), JsonValue::Null)
            },
    )
}

/// The content of a document.
pub open spec fn content(doc: Json) -> JsonValue
    decreases doc, 1int,
{
    match doc {
        Json::Null => JsonValue::Null,
        Json::Bool(b) => JsonValue::Bool(b),
        Json::Number(n) => JsonValue::Number(n),
        Json::Text(s) => JsonValue::Text(s@),
        Json::Array(items) => JsonValue::Array(contents(items@)),
        Json::Object(fields) => JsonValue::Object(member_contents(fields@)),
    }
}

impl View for Json {
    type V = JsonValue;

    open spec fn view(&self) -> JsonValue {
        content(*self)
    }
}

/// The value of the first member called `key` among `fields`.
pub open spec fn lookup(fields: Seq<(Seq<char>, JsonValue)>, key: Seq<char>) -> Option<JsonValue>
    decreases fields.len(),
{
    if fields.len() == 0 {
        None
    } else if fields[0].0 == key {
        Some(fields[0].1)
    } else {
        lookup(fields.drop_first(), key)
    }
}

impl JsonValue {
    /// The member called `key`, where this is an object that has one.
    pub open spec fn member(self, key: Seq<char>) -> Option<JsonValue> {
        match self {
            JsonValue::Object(fields) => lookup(fields, key),
            _ => None,
        }
    }

    /// The items, where this is an array.
    pub open spec fn items(self) -> Option<Seq<JsonValue>> {
        match self {
            JsonValue::Array(items) => Some(items),
            _ => None,
        }
    }

    /// The characters, where this is a string.
    pub open spec fn text(self) -> Option<Seq<char>> {
        match self {
            JsonValue::Text(s) => Some(s),
            _ => None,
        }
    }

    /// The value, where this is an integer that fits 64 signed bits.
    pub open spec fn integer(self) -> Option<i64> {
        match self {
            JsonValue::Number(n) => n,
            _ => None,
        }
    }

    /// The characters of the member called `key`, where it is a string.
    pub open spec fn text_member(self, key: Seq<char>) -> Option<Seq<char>> {
        match self.member(key) {
            Some(m) => m.text(),
            None => None,
        }
    }

    /// The items of the member called `key`, where it is an array.
    pub open spec fn array_member(self, key: Seq<char>) -> Option<Seq<JsonValue>> {
        match self.member(key) {
            Some(m) => m.items(),
            None => None,
        }
    }

    /// The items of the member called `key`, and nothing where it is no array.
    pub open spec fn listed(self, key: Seq<char>) -> Seq<JsonValue> {
        match self.array_member(key) {
            Some(items) => items,
            None => Seq::empty(),
        }
    }
}

/// The member called `key` of a value that may be absent.
pub open spec fn member_of(doc: Option<JsonValue>, key: Seq<char>) -> Option<JsonValue> {
    match doc {
        Some(d) => d.member(key),
        None => None,
    }
}

/// The characters of a value that may be absent, where it is a string.
pub open spec fn text_of(doc: Option<JsonValue>) -> Option<Seq<char>> {
    match doc {
        Some(d) => d.text(),
        None => None,
    }
}

/// The content of an optional document.
pub open spec fn view_of(doc: Option<Json>) -> Option<JsonValue> {
    match doc {
        Some(j) => Some(j@),
        None => None,
    }
}

/// The content of an optional reference to a document.
pub open spec fn view_of_ref(doc: Option<&Json>) -> Option<JsonValue> {
    match doc {
        Some(j) => Some(j@),
        None => None,
    }
}

impl Json {
    /// The member called `key`, where this is an object that has one.
    pub fn get(&self, key: &str) -> (found: Option<&Json>)
        ensures
            view_of_ref(found) == self@.member(key@),
    {
        match self {
            Json::Object(fields) => {
                assert(member_contents(fields@).subrange(0, fields@.len() as int)
                    =~= member_contents(fields@));
                let mut i: usize = 0;
                while i < fields.len()
                    invariant
                        i <= fields@.len(),
                        self@ == JsonValue::Object(member_contents(fields@)),
                        lookup(member_contents(fields@), key@) == lookup(
                            member_contents(fields@).subrange(i as int, fields@.len() as int),
                            key@,
                        ),
                    decreases fields@.len() - i,
                {
                    let ghost all = member_contents(fields@);
                    let ghost rest = all.subrange(i as int, fields@.len() as int);
                    assert(rest[0] == all[i as int]);
                    assert(rest.drop_first() =~= all.subrange(i as int + 1, fields@.len() as int));
                    if crate::text::same(fields[i].name.as_str(), key) {
                        return Some(&fields[i].value);
                    }
                    i = i + 1;
                }
                assert(member_contents(fields@).subrange(i as int, fields@.len() as int).len() == 0);
                None
            },
            _ => None,
        }
    }

    /// The items, where this is an array.
    pub fn as_array(&self) -> (items: Option<&Vec<Json>>)
        ensures
            match items {
                Some(v) => self@.items() == Some(contents(v@)),
                None => self@.items() is None,
            },
    {
        match self {
            Json::Array(items) => {
                Some(items)
            },
            _ => None,
        }
    }

    /// The characters, where this is a string.
    pub fn as_str(&self) -> (text: Option<&str>)
        ensures
            match text {
                Some(s) => self@.text() == Some(s@),
                None => self@.text() is None,
            },
    {
        match self {
            Json::Text(s) => Some(s.as_str()),
            _ => None,
        }
    }

    /// The value, where this is an integer that fits 64 signed bits.
    pub fn as_i64(&self) -> (n: Option<i64>)
        ensures
            n == self@.integer(),
    {
        match self {
            Json::Number(n) => *n,
            _ => None,
        }
    }

    /// Whether this is an object.
    pub fn is_object(&self) -> (yes: bool)
        ensures
            yes == (self@ is Object),
    {
        match self {
            Json::Object(_) => true,
            _ => false,
        }
    }

    /// The characters of the member called `key`, where it is a string.
    pub fn get_str(&self, key: &str) -> (text: Option<&str>)
        ensures
            match text {
                Some(s) => self@.text_member(key@) == Some(s@),
                None => self@.text_member(key@) is None,
            },
    {
        match self.get(key) {
            Some(m) => m.as_str(),
            None => None,
        }
    }

    /// The items of the member called `key`, where it is an array.
    pub fn get_array(&self, key: &str) -> (items: Option<&Vec<Json>>)
        ensures
            match items {
                Some(v) => self@.array_member(key@) == Some(contents(v@)),
                None => self@.array_member(key@) is None,
            },
    {
        match self.get(key) {
            Some(m) => m.as_array(),
            None => None,
        }
    }
}

/// The member called `key` of a document that may be absent.
pub fn get_in<'a>(doc: Option<&'a Json>, key: &str) -> (found: Option<&'a Json>)
    ensures
        view_of_ref(found) == member_of(view_of_ref(doc), key@),
{
    match doc {
        Some(d) => d.get(key),
        None => None,
    }
}

/// The contents of the first `n + 1` documents are those of the first `n`
/// followed by that of the next.
pub proof fn lemma_contents_take(docs: Seq<Json>, n: int)
    requires
        0 <= n < docs.len(),
    ensures
        contents(docs).take(n + 1) == contents(docs).take(n).push(docs[n]@),
        contents(docs)[n] == docs[n]@,
        contents(docs).len() == docs.len(),
{
    assert(contents(docs).take(n + 1) =~= contents(docs).take(n).push(docs[n]@));
}

/// What `serde_json::from_str` makes of `text`: the document it reads, or
/// nothing where it reports an error.
pub uninterp spec fn value_read(text: Seq<char>) -> Option<serde_json::Value>;

/// What a `serde_json::Value` holds.
pub uninterp spec fn value_content(value: serde_json::Value) -> JsonValue;

/// The document that `text` spells, or nothing where `text` is not JSON.
pub open spec fn document(text: Seq<char>) -> Option<JsonValue> {
    match value_read(text) {
        Some(v) => Some(value_content(v)),
        None => None,
    }
}

#[verifier::external_type_specification]
#[verifier::external_body]
pub struct ExValue(serde_json::Value);

/// Calls `serde_json::from_str` for a `serde_json::Value`. The contract only
/// names the outcome: the same text always reads as the same value, and an
/// error of the reader is reported as `None`.
#[verifier::external_body]
fn read_value(text: &str) -> (value: Option<serde_json::Value>)
    ensures
        value == value_read(text@),
{
    match serde_json::from_str::<serde_json::Value>(text) {
        Ok(v) => Some(v),
        Err(_) => None,
    }
}

/// Copies a `serde_json::Value` into a [`Json`], node by node: a number keeps
/// what `Number::as_i64` gives, an object its members in the order in which
/// `Map::iter` yields them. The contract names the content copied.
#[verifier::external_body]
fn copy_value(value: &serde_json::Value) -> (doc: Json)
    ensures
        doc@ == value_content(*value),
{
    match value {
        serde_json::Value::Null => Json::Null,
        serde_json::Value::Bool(b) => Json::Bool(*b),
        serde_json::Value::Number(n) => Json::Number(n.as_i64()),
        serde_json::Value::String(s) => Json::Text(s.clone()),
        serde_json::Value::Array(a) => Json::Array(a.iter().map(copy_value).collect()),
        serde_json::Value::Object(o) => Json::Object(
            o.iter().map(|(k, v)| JsonField { name: k.clone(), value: copy_value(v) }).collect(),
        ),
    }
}

/// Reads `text` as a JSON document.
pub fn parse(text: &str) -> (doc: Option<Json>)
    ensures
        view_of(doc) == document(text@),
{
    match read_value(text) {
        Some(v) => Some(copy_value(&v)),
        None => None,
    }
}

} // verus!

//! JSON documents.
//!
//! `Json` is the mathematical content of a JSON value. `Document` and `Fields`
//! are the executable values that carry one; they hold `serde_json` values,
//! and every call into `serde_json` is made from this module.

use vstd::prelude::*;

verus! {

/// The mathematical content of a JSON value.
///
/// A number is kept as the text that is written for it, an object as the map
/// from its keys to its members.
pub enum Json {
    Null,
    Bool(bool),
    Number(Seq<char>),
    Text(Seq<char>),
    Array(Seq<Json>),
    Object(Map<Seq<char>, Json>),
}

impl Json {
    /// The member under `key`, where this is an object that has one.
    pub open spec fn member(self, key: Seq<char>) -> Option<Json> {
        match self {
            Json::Object(members) => if members.contains_key(key) {
                Some(members[key])
            } else {
                None
            },
            _ => None,
        }
    }

    /// The characters of this value, where it is a string.
    pub open spec fn text(self) -> Option<Seq<char>> {
        match self {
            Json::Text(chars) => Some(chars),
            _ => None,
        }
    }

    /// The number of elements of this value, where it is an array.
    pub open spec fn array_len(self) -> Option<nat> {
        match self {
            Json::Array(items) => Some(items.len()),
            _ => None,
        }
    }
}

/// `serde_json::Value`, a JSON value as `serde_json` holds it. What it holds
/// is known through `value_model` alone.
#[verifier::external_type_specification]
#[verifier::external_body]
pub struct ExValue(serde_json::Value);

/// `serde_json::Error`, the error of a parse. What it says is known through
/// `error_message` alone.
#[verifier::external_type_specification]
#[verifier::external_body]
pub struct ExError(serde_json::Error);

/// `serde_json::Map`, the members of a JSON object as `serde_json` holds
/// them. What it holds is known through `map_model` alone.
#[verifier::external_type_specification]
#[verifier::external_body]
#[verifier::reject_recursive_types(K)]
#[verifier::reject_recursive_types(V)]
pub struct ExMap<K, V>(serde_json::Map<K, V>);

/// The JSON value that a `serde_json::Value` holds.
pub uninterp spec fn value_model(v: serde_json::Value) -> Json;

/// The keys of a `serde_json::Map` and the value held under each.
pub uninterp spec fn map_model(m: serde_json::Map<String, serde_json::Value>) -> Map<
    Seq<char>,
    Json,
>;

/// The message that a `serde_json::Error` displays.
pub uninterp spec fn error_message(e: serde_json::Error) -> Seq<char>;

/// What `serde_json::from_str` makes of a text: the value it reads, or the
/// message of the error it reports.
pub uninterp spec fn parse_text(text: Seq<char>) -> Result<Json, Seq<char>>;

/// What `serde_json::from_slice` makes of a run of bytes: the value it reads,
/// or the message of the error it reports.
pub uninterp spec fn parse_bytes(bytes: Seq<u8>) -> Result<Json, Seq<char>>;

/// The compact text that `serde_json` writes for a value.
pub uninterp spec fn compact_text(json: Json) -> Seq<char>;

/// The members of the empty object.
pub open spec fn no_members() -> Map<Seq<char>, Json> {
    Map::empty()
}

/// The outcome of a parse, as the value read or the message reported.
pub open spec fn parse_outcome(r: Result<serde_json::Value, serde_json::Error>) -> Result<
    Json,
    Seq<char>,
> {
    match r {
        Ok(v) => Ok(value_model(v)),
        Err(e) => Err(error_message(e)),
    }
}

/// Calls `serde_json::from_str` at type `Value`. Claimed: the outcome depends
/// on the text alone, so it is the one that `parse_text` names.
#[verifier::external_body]
fn value_from_str(text: &str) -> (r: Result<serde_json::Value, serde_json::Error>)
    ensures
        parse_outcome(r) == parse_text(text@),
{
    serde_json::from_str::<serde_json::Value>(text)
}

/// Calls `serde_json::from_slice` at type `Value`. Claimed: the outcome
/// depends on the bytes alone, so it is the one that `parse_bytes` names.
#[verifier::external_body]
fn value_from_slice(bytes: &[u8]) -> (r: Result<serde_json::Value, serde_json::Error>)
    ensures
        parse_outcome(r) == parse_bytes(bytes@),
{
    serde_json::from_slice::<serde_json::Value>(bytes)
}

/// Calls `serde_json::Value::get` with a string key. Claimed: it returns the
/// member under that key where the value is an object that has one, and
/// `None` otherwise.
#[verifier::external_body]
fn value_get<'a>(v: &'a serde_json::Value, key: &str) -> (r: Option<&'a serde_json::Value>)
    ensures
        match r {
            Some(found) => value_model(*v).member(key@) == Some(value_model(*found)),
            None => value_model(*v).member(key@) is None,
        },
{
    v.get(key)
}

/// Calls `serde_json::Value::as_str`. Claimed: it returns the characters of a
/// string value, and `None` for every other value.
#[verifier::external_body]
fn value_as_str<'a>(v: &'a serde_json::Value) -> (r: Option<&'a str>)
    ensures
        match r {
            Some(chars) => value_model(*v).text() == Some(chars@),
            None => value_model(*v).text() is None,
        },
{
    v.as_str()
}

/// Calls `serde_json::Value::as_array`. Claimed: it returns the elements of
/// an array value, in order, and `None` for every other value.
#[verifier::external_body]
fn value_as_array<'a>(v: &'a serde_json::Value) -> (r: Option<&'a Vec<serde_json::Value>>)
    ensures
        match r {
            Some(items) => value_model(*v) == Json::Array(
                items@.map_values(|item: serde_json::Value| value_model(item)),
            ),
            None => value_model(*v).array_len() is None,
        },
{
    v.as_array()
}

/// Calls `to_string` on a `serde_json::Value`, which writes it through the
/// compact serializer. Claimed: the text depends on the value's content
/// alone, so it is the one that `compact_text` names.
#[verifier::external_body]
fn value_to_string(v: &serde_json::Value) -> (r: String)
    ensures
        r@ == compact_text(value_model(*v)),
{
    v.to_string()
}

/// Calls `to_string` on a `serde_json::Error`. Claimed: the text is the
/// message that `error_message` names.
#[verifier::external_body]
fn error_to_string(e: &serde_json::Error) -> (r: String)
    ensures
        r@ == error_message(*e),
{
    e.to_string()
}

/// Calls `clone` on a `serde_json::Value`. Claimed: the copy holds the same
/// JSON value.
#[verifier::external_body]
fn value_clone(v: &serde_json::Value) -> (r: serde_json::Value)
    ensures
        value_model(r) == value_model(*v),
{
    v.clone()
}

/// Builds the variant `serde_json::Value::String`. Claimed: it is the JSON
/// string with the given characters.
#[verifier::external_body]
fn value_from_string(s: String) -> (r: serde_json::Value)
    ensures
        value_model(r) == Json::Text(s@),
{
    serde_json::Value::String(s)
}

/// Builds the variant `serde_json::Value::Object`. Claimed: it is the JSON
/// object with the members of the map.
#[verifier::external_body]
fn value_from_map(m: serde_json::Map<String, serde_json::Value>) -> (r: serde_json::Value)
    ensures
        value_model(r) == Json::Object(map_model(m)),
{
    serde_json::Value::Object(m)
}

/// Calls `serde_json::Map::new`. Claimed: the new map has no entry.
#[verifier::external_body]
fn map_new() -> (r: serde_json::Map<String, serde_json::Value>)
    ensures
        map_model(r) == no_members(),
{
    serde_json::Map::new()
}

/// Calls `serde_json::Map::insert`. Claimed: afterwards the map holds the
/// value under the key and every other entry as before; the value that the
/// key held before is returned.
#[verifier::external_body]
fn map_insert(
    m: &mut serde_json::Map<String, serde_json::Value>,
    key: String,
    value: serde_json::Value,
) -> (r: Option<serde_json::Value>)
    ensures
        map_model(*final(m)) == map_model(*old(m)).insert(key@, value_model(value)),
        match r {
            Some(previous) => map_model(*old(m)).contains_key(key@) && value_model(previous)
                == map_model(*old(m))[key@],
            None => !map_model(*old(m)).contains_key(key@),
        },
{
    m.insert(key, value)
}

/// A JSON document.
#[derive(Debug)]
pub struct Document {
    value: serde_json::Value,
}

impl View for Document {
    type V = Json;

    closed spec fn view(&self) -> Json {
        value_model(self.value)
    }
}

impl Clone for Document {
    fn clone(&self) -> (r: Self)
        ensures
            r@ == self@,
    {
        Document { value: value_clone(&self.value) }
    }
}

/// The members of a JSON object under construction.
#[derive(Debug)]
pub struct Fields {
    map: serde_json::Map<String, serde_json::Value>,
}

impl View for Fields {
    type V = Map<Seq<char>, Json>;

    closed spec fn view(&self) -> Map<Seq<char>, Json> {
        map_model(self.map)
    }
}

impl Fields {
    /// No members.
    pub fn new() -> (r: Fields)
        ensures
            r@ == no_members(),
    {
        Fields { map: map_new() }
    }

    /// Puts `value` under `key`, in place of what the key held before.
    pub fn insert(&mut self, key: String, value: Document)
        ensures
            final(self)@ == old(self)@.insert(key@, value@),
    {
        let _ = map_insert(&mut self.map, key, value.value);
    }
}

impl Document {
    /// Reads one JSON document from a text. On a text that is no JSON
    /// document the parser's message is returned.
    pub fn parse_str(text: &str) -> (r: Result<Document, String>)
        ensures
            match r {
                Ok(doc) => parse_text(text@) is Ok && parse_text(text@)->Ok_0 == doc@,
                Err(message) => parse_text(text@) is Err && parse_text(text@)->Err_0 == message@,
            },
    {
        match value_from_str(text) {
            Ok(value) => Ok(Document { value }),
            Err(e) => Err(error_to_string(&e)),
        }
    }

    /// Reads one JSON document from bytes. On bytes that are no JSON document
    /// the parser's message is returned.
    pub fn parse_slice(bytes: &[u8]) -> (r: Result<Document, String>)
        ensures
            match r {
                Ok(doc) => parse_bytes(bytes@) is Ok && parse_bytes(bytes@)->Ok_0 == doc@,
                Err(message) => parse_bytes(bytes@) is Err && parse_bytes(bytes@)->Err_0
                    == message@,
            },
    {
        match value_from_slice(bytes) {
            Ok(value) => Ok(Document { value }),
            Err(e) => Err(error_to_string(&e)),
        }
    }

    /// The JSON string with the characters of `s`.
    pub fn from_text(s: String) -> (r: Document)
        ensures
            r@ == Json::Text(s@),
    {
        Document { value: value_from_string(s) }
    }

    /// The JSON object with the given members.
    pub fn from_fields(fields: Fields) -> (r: Document)
        ensures
            r@ == Json::Object(fields@),
    {
        Document { value: value_from_map(fields.map) }
    }

    /// A copy of the member under `key`, where the document is an object that
    /// has one.
    pub fn member(&self, key: &str) -> (r: Option<Document>)
        ensures
            match r {
                Some(found) => self@.member(key@) == Some(found@),
                None => self@.member(key@) is None,
            },
    {
        match value_get(&self.value, key) {
            Some(found) => Some(Document { value: value_clone(found) }),
            None => None,
        }
    }

    /// The characters of the document, where it is a JSON string.
    pub fn as_text(&self) -> (r: Option<String>)
        ensures
            match r {
                Some(chars) => self@.text() == Some(chars@),
                None => self@.text() is None,
            },
    {
        match value_as_str(&self.value) {
            Some(chars) => Some(chars.to_owned()),
            None => None,
        }
    }

    /// The number of elements of the document, where it is a JSON array.
    pub fn array_len(&self) -> (r: Option<usize>)
        ensures
            match r {
                Some(n) => self@.array_len() == Some(n as nat),
                None => self@.array_len() is None,
            },
    {
        match value_as_array(&self.value) {
            Some(items) => Some(items.len()),
            None => None,
        }
    }

    /// The document as compact JSON text.
    pub fn to_text(&self) -> (r: String)
        ensures
            r@ == compact_text(self@),
    {
        value_to_string(&self.value)
    }
}

} // verus!

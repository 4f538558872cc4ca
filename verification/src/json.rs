//! A mathematical model of JSON documents and the bridge to `serde_json`.
//!
//! Verified code never looks inside a `serde_json::Value`. It reads and builds
//! documents through a handful of one-line functions, each of which makes one
//! call into `serde_json` and is believed to relate the document to its
//! model, a [`Json`] tree, as its contract says. Everything else in this file
//! is proved from those contracts.
use vstd::prelude::*;

verus! {

/// The model of a JSON number.
pub enum JsonNumber {
    /// A whole number from zero up to the largest unsigned 64-bit integer.
    Unsigned(u64),
    /// A whole number below zero, down to the smallest signed 64-bit integer.
    Negative(i64),
    /// Any other number, by the 64 bits that hold it.
    Other(u64),
}

/// The model of a JSON document.
pub enum Json {
    Null,
    Bool(bool),
    Number(JsonNumber),
    Text(Seq<char>),
    Array(Seq<Json>),
    Object(Map<Seq<char>, Json>),
}

impl Json {
    /// The member stored under `key`, if this is an object that has one.
    pub open spec fn member(self, key: Seq<char>) -> Option<Json> {
        match self {
            Json::Object(members) => if members.contains_key(key) {
                Some(members[key])
            } else {
                None
            },
            _ => None,
        }
    }

    /// The characters of a JSON string.
    pub open spec fn text(self) -> Option<Seq<char>> {
        match self {
            Json::Text(t) => Some(t),
            _ => None,
        }
    }

    /// The value of a JSON number that is an unsigned 64-bit integer.
    pub open spec fn number(self) -> Option<u64> {
        match self {
            Json::Number(JsonNumber::Unsigned(n)) => Some(n),
            _ => None,
        }
    }

    /// The JSON number with the value `n`.
    pub open spec fn unsigned(n: u64) -> Json {
        Json::Number(JsonNumber::Unsigned(n))
    }

    /// The elements of a JSON array.
    pub open spec fn items(self) -> Option<Seq<Json>> {
        match self {
            Json::Array(items) => Some(items),
            _ => None,
        }
    }
}

#[verifier::external_type_specification]
#[verifier::external_body]
pub struct ExJsonValue(serde_json::Value);

#[verifier::external_type_specification]
#[verifier::external_body]
pub struct ExJsonError(serde_json::Error);

/// The model of a `serde_json::Value`.
pub uninterp spec fn json_model(value: serde_json::Value) -> Json;

/// The document that `serde_json::from_slice` reads from `bytes`, or `None`
/// where it reports an error.
pub uninterp spec fn json_parse(bytes: Seq<u8>) -> Option<Json>;

/// The bytes that `serde_json::to_vec` prints for a document.
pub uninterp spec fn json_print(doc: Json) -> Seq<u8>;

/// The models of a sequence of documents.
pub open spec fn json_models(values: Seq<serde_json::Value>) -> Seq<Json> {
    values.map_values(|v: serde_json::Value| json_model(v))
}

/// `serde_json::from_slice` for a `Value`: the result depends on the bytes
/// alone, and the value returned has the model named by [`json_parse`].
#[verifier::external_body]
pub(crate) fn parse(bytes: &[u8]) -> (r: Result<serde_json::Value, serde_json::Error>)
    ensures
        match r {
            Ok(value) => json_parse(bytes@) == Some(json_model(value)),
            Err(_) => json_parse(bytes@).is_none(),
        },
{
    serde_json::from_slice::<serde_json::Value>(bytes)
}

/// `serde_json::to_vec` for a `Value`: it succeeds, since a `Value` has
/// nothing that its printer refuses (strings for keys, no number that is not
/// finite) and writing to a vector does not fail; the bytes depend on the
/// document alone and are those named by [`json_print`]; and what is
/// printed of a document of one level parses as that document.
#[verifier::external_body]
pub(crate) fn print(value: &serde_json::Value) -> (r: Result<Vec<u8>, serde_json::Error>)
    ensures
        r is Ok,
        r matches Ok(bytes) ==> bytes@ == json_print(json_model(*value)),
        r matches Ok(bytes) ==> (is_flat(json_model(*value)) ==> json_parse(bytes@) == Some(
            json_model(*value),
        )),
{
    serde_json::to_vec(value)
}

/// `Value::get` with a string key: the member of an object, `None` for a
/// missing key and for anything that is not an object.
#[verifier::external_body]
pub(crate) fn member<'a>(value: &'a serde_json::Value, key: &str) -> (r: Option<&'a serde_json::Value>)
    ensures
        match r {
            Some(m) => json_model(*value).member(key@) == Some(json_model(*m)),
            None => json_model(*value).member(key@).is_none(),
        },
{
    value.get(key)
}

/// `Value::is_object`: whether the document is an object.
#[verifier::external_body]
pub(crate) fn is_object(value: &serde_json::Value) -> (r: bool)
    ensures
        r == (json_model(*value) is Object),
{
    value.is_object()
}

/// `Value::as_str`: the characters of a string, `None` for anything else.
#[verifier::external_body]
pub(crate) fn text<'a>(value: &'a serde_json::Value) -> (r: Option<&'a str>)
    ensures
        match r {
            Some(t) => json_model(*value).text() == Some(t@),
            None => json_model(*value).text().is_none(),
        },
{
    value.as_str()
}

/// `Value::as_u64`: a number that is an unsigned 64-bit integer, `None` for
/// every other number and for anything that is not a number.
#[verifier::external_body]
pub(crate) fn number(value: &serde_json::Value) -> (r: Option<u64>)
    ensures
        r == json_model(*value).number(),
{
    value.as_u64()
}

/// `Value::as_array`: the elements of an array, `None` for anything else.
#[verifier::external_body]
pub(crate) fn items<'a>(value: &'a serde_json::Value) -> (r: Option<&'a Vec<serde_json::Value>>)
    ensures
        match r {
            Some(v) => json_model(*value).items() == Some(json_models(v@)),
            None => json_model(*value).items().is_none(),
        },
{
    value.as_array()
}

/// `Value::from` for a string slice: a JSON string with the same characters.
#[verifier::external_body]
pub(crate) fn from_text(t: &str) -> (r: serde_json::Value)
    ensures
        json_model(r) == Json::Text(t@),
{
    serde_json::Value::from(t)
}

/// `Value::from` for a `u64`: the JSON number with that value.
#[verifier::external_body]
pub(crate) fn from_number(n: u64) -> (r: serde_json::Value)
    ensures
        json_model(r) == Json::unsigned(n),
{
    serde_json::Value::from(n)
}

/// `Value::from` for a vector of values: the array of its elements, in order.
#[verifier::external_body]
pub(crate) fn from_items(items: Vec<serde_json::Value>) -> (r: serde_json::Value)
    ensures
        json_model(r) == Json::Array(json_models(items@)),
{
    serde_json::Value::from(items)
}

/// `Value::from` for an empty `serde_json::Map`: the object without members.
#[verifier::external_body]
pub(crate) fn empty_object() -> (r: serde_json::Value)
    ensures
        json_model(r) == Json::Object(Map::empty()),
{
    serde_json::Value::from(serde_json::Map::new())
}

/// `serde_json::Map::insert` on the map of an object: the member under `key`
/// is set to `member`, replacing an earlier one; the others stay.
#[verifier::external_body]
pub(crate) fn with_member(object: serde_json::Value, key: &str, member: serde_json::Value) -> (r:
    serde_json::Value)
    requires
        json_model(object) is Object,
    ensures
        json_model(r) == Json::Object(json_model(object)->Object_0.insert(key@, json_model(member))),
{
    let mut object = object;
    if let Some(members) = object.as_object_mut() {
        members.insert(key.to_string(), member);
    }
    object
}

/// A string, an unsigned number, or an array of strings.
pub open spec fn is_simple(member: Json) -> bool {
    ||| member is Text
    ||| member matches Json::Number(JsonNumber::Unsigned(_))
    ||| member matches Json::Array(items) && forall|i: int|
        0 <= i < items.len() ==> (#[trigger] items[i]) is Text
}

/// A document of one level: an object whose every member is simple. Such a
/// document has no number with a fraction and no depth to speak of, so
/// that what is printed of it parses as the same document.
pub open spec fn is_flat(doc: Json) -> bool {
    doc matches Json::Object(members) && forall|key: Seq<char>| #[trigger]
        members.contains_key(key) ==> is_simple(members[key])
}

/// The characters of the string stored under `key`, if there is one.
pub open spec fn text_member(doc: Json, key: Seq<char>) -> Option<Seq<char>> {
    match doc.member(key) {
        Some(m) => m.text(),
        None => None,
    }
}

/// The unsigned number stored under `key`, if there is one.
pub open spec fn number_member(doc: Json, key: Seq<char>) -> Option<u64> {
    match doc.member(key) {
        Some(m) => m.number(),
        None => None,
    }
}

/// The character sequences of `items`, if every one of them is a string.
pub open spec fn all_texts(items: Seq<Json>) -> Option<Seq<Seq<char>>> {
    if forall|i: int| 0 <= i < items.len() ==> (#[trigger] items[i]) is Text {
        Some(items.map_values(|item: Json| item->Text_0))
    } else {
        None
    }
}

/// The array of strings stored under `key`, if there is one.
pub open spec fn texts_member(doc: Json, key: Seq<char>) -> Option<Seq<Seq<char>>> {
    match doc.member(key) {
        Some(m) => match m.items() {
            Some(items) => all_texts(items),
            None => None,
        },
        None => None,
    }
}

/// The array whose elements are the strings `texts`, in order.
pub open spec fn text_array(texts: Seq<Seq<char>>) -> Json {
    Json::Array(texts.map_values(|t: Seq<char>| Json::Text(t)))
}

/// The character sequence of an optional string.
pub open spec fn text_of(s: Option<String>) -> Option<Seq<char>> {
    match s {
        Some(s) => Some(s@),
        None => None,
    }
}

/// The character sequences of an optional vector of strings.
pub open spec fn texts_of(v: Option<Vec<String>>) -> Option<Seq<Seq<char>>> {
    match v {
        Some(v) => Some(crate::text::texts(v@)),
        None => None,
    }
}

/// Reading back what [`text_array`] builds gives the same strings.
pub proof fn all_texts_of_text_array(texts: Seq<Seq<char>>)
    ensures
        all_texts(text_array(texts)->Array_0) == Some(texts),
{
    let items = text_array(texts)->Array_0;
    assert(forall|i: int| 0 <= i < items.len() ==> (#[trigger] items[i]) is Text);
    assert(items.map_values(|item: Json| item->Text_0) =~= texts);
}

/// Reads the string stored under `key`.
pub fn get_text(doc: &serde_json::Value, key: &str) -> (r: Option<String>)
    ensures
        text_of(r) == text_member(json_model(*doc), key@),
{
    match member(doc, key) {
        Some(m) => match text(m) {
            Some(t) => Some(t.to_owned()),
            None => None,
        },
        None => None,
    }
}

/// Reads the unsigned number stored under `key`.
pub fn get_number(doc: &serde_json::Value, key: &str) -> (r: Option<u64>)
    ensures
        r == number_member(json_model(*doc), key@),
{
    match member(doc, key) {
        Some(m) => number(m),
        None => None,
    }
}

/// Reads the array of strings stored under `key`.
pub fn get_texts(doc: &serde_json::Value, key: &str) -> (r: Option<Vec<String>>)
    ensures
        texts_of(r) == texts_member(json_model(*doc), key@),
{
    let m = match member(doc, key) {
        Some(m) => m,
        None => { return None; },
    };
    let values = match items(m) {
        Some(values) => values,
        None => { return None; },
    };
    let ghost models = json_models(values@);
    let mut out: Vec<String> = Vec::new();
    let mut i: usize = 0;
    while i < values.len()
        invariant
            i <= values.len(),
            models == json_models(values@),
            json_model(*doc).member(key@) == Some(json_model(*m)),
            json_model(*m).items() == Some(models),
            out@.len() == i,
            forall|j: int| 0 <= j < i ==> (#[trigger] models[j]) == Json::Text(out@[j]@),
        decreases values.len() - i,
    {
        match text(&values[i]) {
            Some(t) => {
                out.push(t.to_owned());
            },
            None => {
                assert(models[i as int] == json_model(values@[i as int]));
                assert(!(models[i as int] is Text));
                return None;
            },
        }
        i += 1;
    }
    proof {
        assert(forall|j: int| 0 <= j < models.len() ==> (#[trigger] models[j]) is Text);
        assert(models.map_values(|item: Json| item->Text_0) =~= crate::text::texts(out@));
    }
    Some(out)
}

/// Builds the array of the strings of `texts`.
pub fn texts_to_json(texts: &Vec<String>) -> (r: serde_json::Value)
    ensures
        json_model(r) == text_array(crate::text::texts(texts@)),
{
    let mut values: Vec<serde_json::Value> = Vec::new();
    let mut i: usize = 0;
    while i < texts.len()
        invariant
            i <= texts.len(),
            values@.len() == i,
            forall|j: int| 0 <= j < i ==> json_model(#[trigger] values@[j]) == Json::Text(texts@[j]@),
        decreases texts.len() - i,
    {
        values.push(from_text(texts[i].as_str()));
        i += 1;
    }
    proof {
        assert(json_models(values@) =~= text_array(crate::text::texts(texts@))->Array_0);
    }
    from_items(values)
}

/// The characters of the string stored under `key`, or `default` where the
/// document has no such member. `None` where the member is no string.
pub open spec fn text_member_or(doc: Json, key: Seq<char>, default: Seq<char>) -> Option<Seq<char>> {
    match doc.member(key) {
        Some(m) => m.text(),
        None => Some(default),
    }
}

/// Reads the string stored under `key`, or takes `default` where the
/// document has no such member.
pub fn get_text_or(doc: &serde_json::Value, key: &str, default: String) -> (r: Option<String>)
    ensures
        text_of(r) == text_member_or(json_model(*doc), key@, default@),
{
    match member(doc, key) {
        Some(m) => match text(m) {
            Some(t) => Some(t.to_owned()),
            None => None,
        },
        None => Some(default),
    }
}

} // verus!

//! A plain model of JSON documents, as `serde_json` parses them, and the
//! reading of members and scalars from it.
use vstd::prelude::*;

verus! {

/// What a JSON value is, in the model.
pub enum JsonDocKind {
    Null,
    Bool(bool),
    /// A number: what `as_u64` and `as_i64` give for it.
    Number { as_u64: Option<u64>, as_i64: Option<i64> },
    Str(Seq<char>),
    Array(Seq<JsonDoc>),
    /// The members of an object, in the order of the parsed map; keys are unique.
    Object(Seq<(Seq<char>, JsonDoc)>),
}

/// A JSON value in the model: its compact text and what it is.
pub struct JsonDoc {
    pub text: Seq<char>,
    pub kind: JsonDocKind,
}

/// A member of a JSON object.
#[derive(Debug)]
pub struct JsonMember {
    pub key: String,
    pub value: Json,
}

/// What a parsed JSON value is.
#[derive(Debug)]
pub enum JsonKind {
    Null,
    Bool(bool),
    Number { as_u64: Option<u64>, as_i64: Option<i64> },
    Str(String),
    Array(Vec<Json>),
    Object(Vec<JsonMember>),
}

/// A parsed JSON value: its compact text and what it is.
#[derive(Debug)]
pub struct Json {
    pub text: String,
    pub kind: JsonKind,
}

/// The model of a parsed value.
pub open spec fn doc_of(j: Json) -> JsonDoc
    decreases j,
{
    JsonDoc {
        text: j.text@,
        kind: match j.kind {
            JsonKind::Null => JsonDocKind::Null,
            JsonKind::Bool(b) => JsonDocKind::Bool(b),
            JsonKind::Number { as_u64, as_i64 } => JsonDocKind::Number { as_u64, as_i64 },
            JsonKind::Str(s) => JsonDocKind::Str(s@),
            JsonKind::Array(items) => JsonDocKind::Array(
                Seq::new(
                    items.len() as nat,
                    |i: int|
                        if 0 <= i < items.len() {
                            doc_of(items[i])
                        } else {
                            JsonDoc { text: Seq::empty(), kind: JsonDocKind::Null }
                        },
                ),
            ),
            JsonKind::Object(members) => JsonDocKind::Object(
                Seq::new(
                    members.len() as nat,
                    |i: int|
                        if 0 <= i < members.len() {
                            (members[i].key@, doc_of(members[i].value))
                        } else {
                            (Seq::empty(), JsonDoc { text: Seq::empty(), kind: JsonDocKind::Null })
                        },
                ),
            ),
        },
    }
}

/// The value of the first member called `key`, scanning from `from`.
pub open spec fn member_from(members: Seq<(Seq<char>, JsonDoc)>, key: Seq<char>, from: int) -> Option<JsonDoc>
    decreases members.len() - from,
{
    if from < 0 || from >= members.len() {
        None
    } else if members[from].0 == key {
        Some(members[from].1)
    } else {
        member_from(members, key, from + 1)
    }
}

/// `Value::get` with a string key: the member of an object with that key;
/// nothing for a missing key or a value that is not an object.
pub open spec fn doc_get(d: JsonDoc, key: Seq<char>) -> Option<JsonDoc> {
    match d.kind {
        JsonDocKind::Object(members) => member_from(members, key, 0),
        _ => None,
    }
}

/// `Value::as_u64`.
pub open spec fn doc_as_u64(d: JsonDoc) -> Option<u64> {
    match d.kind {
        JsonDocKind::Number { as_u64, as_i64 } => as_u64,
        _ => None,
    }
}

/// `Value::as_i64`.
pub open spec fn doc_as_i64(d: JsonDoc) -> Option<i64> {
    match d.kind {
        JsonDocKind::Number { as_u64, as_i64 } => as_i64,
        _ => None,
    }
}

/// `Value::as_bool`.
pub open spec fn doc_as_bool(d: JsonDoc) -> Option<bool> {
    match d.kind {
        JsonDocKind::Bool(b) => Some(b),
        _ => None,
    }
}

/// `Value::as_str`.
pub open spec fn doc_as_str(d: JsonDoc) -> Option<Seq<char>> {
    match d.kind {
        JsonDocKind::Str(s) => Some(s),
        _ => None,
    }
}

/// `Value::as_array`.
pub open spec fn doc_as_array(d: JsonDoc) -> Option<Seq<JsonDoc>> {
    match d.kind {
        JsonDocKind::Array(items) => Some(items),
        _ => None,
    }
}

/// The member of `j` called `key`, if `j` is an object that has one.
pub fn json_get<'a>(j: &'a Json, key: &str) -> (r: Option<&'a Json>)
    ensures
        match doc_get(doc_of(*j), key@) {
            Some(d) => r matches Some(x) && doc_of(*x) == d,
            None => r is None,
        },
{
    match &j.kind {
        JsonKind::Object(members) => {
            let ghost ms = match doc_of(*j).kind {
                JsonDocKind::Object(ms) => ms,
                _ => Seq::empty(),
            };
            let key_s = key.to_owned();
            let mut i: usize = 0;
            while i < members.len()
                invariant
                    i <= members.len(),
                    key_s@ == key@,
                    ms.len() == members.len(),
                    forall|k: int| 0 <= k < members.len() ==> #[trigger] ms[k] == (members[k].key@, doc_of(members[k].value)),
                    doc_get(doc_of(*j), key@) == member_from(ms, key@, i as int),
                decreases members.len() - i,
            {
                assert(ms[i as int] == (members[i as int].key@, doc_of(members[i as int].value)));
                if members[i].key == key_s {
                    return Some(&members[i].value);
                }
                i += 1;
            }
            None
        },
        _ => None,
    }
}

/// The integer, as `u64`, if `j` is one that fits.
pub fn json_as_u64(j: &Json) -> (r: Option<u64>)
    ensures
        r == doc_as_u64(doc_of(*j)),
{
    match &j.kind {
        JsonKind::Number { as_u64, .. } => *as_u64,
        _ => None,
    }
}

/// The integer, as `i64`, if `j` is one that fits.
pub fn json_as_i64(j: &Json) -> (r: Option<i64>)
    ensures
        r == doc_as_i64(doc_of(*j)),
{
    match &j.kind {
        JsonKind::Number { as_i64, .. } => *as_i64,
        _ => None,
    }
}

/// The boolean, if `j` is one.
pub fn json_as_bool(j: &Json) -> (r: Option<bool>)
    ensures
        r == doc_as_bool(doc_of(*j)),
{
    match &j.kind {
        JsonKind::Bool(b) => Some(*b),
        _ => None,
    }
}

/// The text of a JSON string.
pub fn json_as_str(j: &Json) -> (r: Option<&str>)
    ensures
        match doc_as_str(doc_of(*j)) {
            Some(s) => r matches Some(x) && x@ == s,
            None => r is None,
        },
{
    match &j.kind {
        JsonKind::Str(s) => Some(s.as_str()),
        _ => None,
    }
}

/// The elements of a JSON array.
pub fn json_as_array(j: &Json) -> (r: Option<&Vec<Json>>)
    ensures
        match doc_as_array(doc_of(*j)) {
            Some(items) => r matches Some(v) && v@.len() == items.len() && forall|i: int|
                0 <= i < items.len() ==> #[trigger] doc_of(v@[i]) == items[i],
            None => r is None,
        },
{
    match &j.kind {
        JsonKind::Array(items) => Some(items),
        _ => None,
    }
}

// ---------------------------------------------------------------------------
// Parsing, by serde_json
// ---------------------------------------------------------------------------

/// A JSON value, as `serde_json` parses it. Nothing inside it is visible here.
#[verifier::external_type_specification]
#[verifier::external_body]
pub struct ExJsonValue(serde_json::Value);

/// The error of a failed JSON parse.
#[verifier::external_type_specification]
#[verifier::external_body]
pub struct ExJsonError(serde_json::Error);

/// The model of what `serde_json::from_str::<Value>` parses `text` into;
/// nothing where it fails.
pub uninterp spec fn parsed_json(text: Seq<char>) -> Option<JsonDoc>;

/// The model of what `serde_json::from_slice::<Value>` parses `bytes` into;
/// nothing where it fails.
pub uninterp spec fn parsed_json_bytes(bytes: Seq<u8>) -> Option<JsonDoc>;

/// The library's copy of a parsed `serde_json::Value`, node for node: each
/// node's compact text (`Value::to_string`), its variant, a string's text, a
/// number's `as_u64` and `as_i64`, an array's elements and an object's members
/// in the map's order. It is used only inside the two parsing functions below,
/// whose contracts speak of the whole conversion.
#[verifier::external_body]
fn json_model(v: &serde_json::Value) -> Json {
    let kind = match v {
        serde_json::Value::Null => JsonKind::Null,
        serde_json::Value::Bool(b) => JsonKind::Bool(*b),
        serde_json::Value::Number(n) => JsonKind::Number { as_u64: n.as_u64(), as_i64: n.as_i64() },
        serde_json::Value::String(s) => JsonKind::Str(s.clone()),
        serde_json::Value::Array(a) => JsonKind::Array(a.iter().map(json_model).collect()),
        serde_json::Value::Object(m) => JsonKind::Object(
            m.iter().map(|(k, x)| JsonMember { key: k.clone(), value: json_model(x) }).collect(),
        ),
    };
    Json { text: v.to_string(), kind }
}

/// `serde_json::from_str::<Value>`, converted into the library's model: it
/// succeeds exactly when `parsed_json(s@)` names a document, and gives that document.
#[verifier::external_body]
pub(crate) fn parse_json(s: &str) -> (r: Result<Json, serde_json::Error>)
    ensures
        r is Ok <==> parsed_json(s@) is Some,
        r matches Ok(j) ==> parsed_json(s@) == Some(doc_of(j)),
{
    serde_json::from_str::<serde_json::Value>(s).map(|v| json_model(&v))
}

/// `serde_json::from_slice::<Value>`, converted into the library's model: it
/// succeeds exactly when `parsed_json_bytes(b@)` names a document, and gives
/// that document.
#[verifier::external_body]
pub(crate) fn parse_json_bytes(b: &[u8]) -> (r: Result<Json, serde_json::Error>)
    ensures
        r is Ok <==> parsed_json_bytes(b@) is Some,
        r matches Ok(j) ==> parsed_json_bytes(b@) == Some(doc_of(j)),
{
    serde_json::from_slice::<serde_json::Value>(b).map(|v| json_model(&v))
}

} // verus!

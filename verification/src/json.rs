//! JSON documents as trees of plain values. The bytes are read and written
//! by `serde_json`; everything that looks into a document is verified here.

use crate::result::FdownError;
use vstd::prelude::*;

verus! {

/// `serde_json::Number`: a JSON number, which nothing here looks into.
#[verifier::external_type_specification]
#[verifier::external_body]
pub struct ExNumber(serde_json::Number);

/// `serde_json::Value`: a document as `serde_json` holds it.
#[verifier::external_type_specification]
#[verifier::external_body]
pub struct ExValue(serde_json::Value);

/// `serde_json::Error`: why `serde_json` refused to read or to write.
#[verifier::external_type_specification]
#[verifier::external_body]
pub struct ExError(serde_json::Error);

/// A JSON document. An object keeps its members in order; a number is carried through unread.
#[derive(Debug, PartialEq)]
pub enum Json {
    Null,
    Bool(bool),
    Number(serde_json::Number),
    Str(String),
    Array(Vec<Json>),
    Object(Vec<Member>),
}

/// One member of a JSON object: its name and its value.
#[derive(Debug, PartialEq)]
pub struct Member {
    pub name: String,
    pub value: Json,
}

/// The mathematical value of a [`Member`].
pub struct MemberView {
    pub name: Seq<char>,
    pub value: JsonView,
}

/// The mathematical value of a [`Json`] document.
pub enum JsonView {
    Null,
    Bool(bool),
    Number(serde_json::Number),
    Str(Seq<char>),
    Array(Seq<JsonView>),
    Object(Seq<MemberView>),
}

impl View for Json {
    type V = JsonView;

    open spec fn view(&self) -> JsonView
        decreases self,
    {
        match self {
            Json::Null => JsonView::Null,
            Json::Bool(b) => JsonView::Bool(*b),
            Json::Number(n) => JsonView::Number(*n),
            Json::Str(s) => JsonView::Str(s@),
            Json::Array(items) => JsonView::Array(
                Seq::new(
                    items@.len(),
                    |i: int|
                        if 0 <= i < items@.len() {
                            items@[i].view()
                        } else {
                            JsonView::Null
                        },
                ),
            ),
            Json::Object(members) => JsonView::Object(
                Seq::new(
                    members@.len(),
                    |i: int|
                        if 0 <= i < members@.len() {
                            MemberView { name: members@[i].name@, value: members@[i].value.view() }
                        } else {
                            MemberView { name: Seq::empty(), value: JsonView::Null }
                        },
                ),
            ),
        }
    }
}

/// The document that `serde_json` reads from `bytes`, or nothing where it
/// refuses them: a fixed function of the bytes.
pub uninterp spec fn json_decoded(bytes: Seq<u8>) -> Option<JsonView>;

/// The bytes that `serde_json` writes for `doc` in its compact form, or
/// nothing where it refuses the document: a fixed function of the document.
pub uninterp spec fn json_encoded(doc: JsonView) -> Option<Seq<u8>>;

/// Moves a `serde_json::Value` into a [`Json`], variant by variant, the
/// members of an object in the order of its map.
#[verifier::external_body]
fn json_of_value(value: serde_json::Value) -> Json {
    match value {
        serde_json::Value::Null => Json::Null,
        serde_json::Value::Bool(b) => Json::Bool(b),
        serde_json::Value::Number(n) => Json::Number(n),
        serde_json::Value::String(s) => Json::Str(s),
        serde_json::Value::Array(a) => Json::Array(a.into_iter().map(json_of_value).collect()),
        serde_json::Value::Object(m) => Json::Object(
            m.into_iter().map(|(k, v)| Member { name: k, value: json_of_value(v) }).collect(),
        ),
    }
}

/// Copies a [`Json`] into a `serde_json::Value`, variant by variant, the
/// members of an object inserted into its map in their order.
#[verifier::external_body]
fn value_of_json(doc: &Json) -> serde_json::Value {
    match doc {
        Json::Null => serde_json::Value::Null,
        Json::Bool(b) => serde_json::Value::Bool(*b),
        Json::Number(n) => serde_json::Value::Number(n.clone()),
        Json::Str(s) => serde_json::Value::String(s.clone()),
        Json::Array(a) => serde_json::Value::Array(a.iter().map(value_of_json).collect()),
        Json::Object(m) => serde_json::Value::Object(
            m.iter().map(|e| (e.name.clone(), value_of_json(&e.value))).collect(),
        ),
    }
}

/// `serde_json::from_slice`, at the type `serde_json::Value`: the document
/// that the bytes hold, or the crate's error where they hold none. The
/// contract claims only that the outcome is a function of the bytes.
#[verifier::external_body]
fn read_document(bytes: &[u8]) -> (r: Result<Json, serde_json::Error>)
    ensures
        match r {
            Ok(doc) => json_decoded(bytes@) == Some(doc@),
            Err(_) => json_decoded(bytes@) is None,
        },
{
    serde_json::from_slice::<serde_json::Value>(bytes).map(json_of_value)
}

/// `serde_json::to_vec`, on the `serde_json::Value` of `doc`: the compact
/// JSON text of the document. The contract claims only that the outcome is a
/// function of the document.
#[verifier::external_body]
fn write_document(doc: &Json) -> (r: Result<Vec<u8>, serde_json::Error>)
    ensures
        match r {
            Ok(bytes) => json_encoded(doc@) == Some(bytes@),
            Err(_) => json_encoded(doc@) is None,
        },
{
    serde_json::to_vec(&value_of_json(doc))
}

/// The `Display` text of a `serde_json::Error`; nothing is claimed of it.
#[verifier::external_body]
fn error_text(error: &serde_json::Error) -> String {
    error.to_string()
}

impl Json {
    /// Reads one JSON document from `bytes`. It fails with `SerdeJson`
    /// exactly where `serde_json` refuses the bytes.
    pub fn parse(bytes: &[u8]) -> (r: Result<Json, FdownError>)
        ensures
            match r {
                Ok(doc) => json_decoded(bytes@) == Some(doc@),
                Err(e) => json_decoded(bytes@) is None && e is SerdeJson,
            },
    {
        match read_document(bytes) {
            Ok(doc) => Ok(doc),
            Err(e) => Err(FdownError::SerdeJson(error_text(&e))),
        }
    }

    /// Writes the document as compact JSON text. It fails with `SerdeJson`
    /// exactly where `serde_json` refuses the document.
    pub fn to_bytes(&self) -> (r: Result<Vec<u8>, FdownError>)
        ensures
            match r {
                Ok(bytes) => json_encoded(self@) == Some(bytes@),
                Err(e) => json_encoded(self@) is None && e is SerdeJson,
            },
    {
        match write_document(self) {
            Ok(bytes) => Ok(bytes),
            Err(e) => Err(FdownError::SerdeJson(error_text(&e))),
        }
    }
}

/// The views of an object's members, in their order.
pub open spec fn members_view(members: Seq<Member>) -> Seq<MemberView> {
    Seq::new(
        members.len(),
        |i: int| MemberView { name: members[i].name@, value: members[i].value@ },
    )
}

/// The views of an array's items, in their order.
pub open spec fn items_view(items: Seq<Json>) -> Seq<JsonView> {
    Seq::new(items.len(), |i: int| items[i]@)
}

/// The view of an object is the object of its members' views.
pub proof fn lemma_object_view(members: Vec<Member>)
    ensures
        Json::Object(members)@ == JsonView::Object(members_view(members@)),
{
    assert(Json::Object(members)@->Object_0 =~= members_view(members@));
}

/// The view of an array is the array of its items' views.
pub proof fn lemma_array_view(items: Vec<Json>)
    ensures
        Json::Array(items)@ == JsonView::Array(items_view(items@)),
{
    assert(Json::Array(items)@->Array_0 =~= items_view(items@));
}

/// The value of the first member named `key` among `members[from..]`.
pub open spec fn member_from(members: Seq<MemberView>, key: Seq<char>, from: int)
    -> Option<JsonView>
    decreases members.len() - from,
{
    if from < 0 || from >= members.len() {
        None
    } else if members[from].name == key {
        Some(members[from].value)
    } else {
        member_from(members, key, from + 1)
    }
}

/// The value of the first member named `key`, if there is one.
pub open spec fn member(members: Seq<MemberView>, key: Seq<char>) -> Option<JsonView> {
    member_from(members, key, 0)
}

/// The first member of `members` named `key`.
pub fn find_member<'a>(members: &'a Vec<Member>, key: &str) -> (r: Option<&'a Json>)
    ensures
        match r {
            Some(value) => member(members_view(members@), key@) == Some(value@),
            None => member(members_view(members@), key@) is None,
        },
{
    let wanted = key.to_owned();
    let mut i: usize = 0;
    while i < members.len()
        invariant
            i <= members.len(),
            wanted@ == key@,
            member(members_view(members@), key@) == member_from(
                members_view(members@),
                key@,
                i as int,
            ),
        decreases members.len() - i,
    {
        if members[i].name == wanted {
            return Some(&members[i].value);
        }
        i += 1;
    }
    None
}

} // verus!

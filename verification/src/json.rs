//! JSON documents as plain data.
//!
//! Parsing is left to `serde_json`; what it produces is carried over, variant
//! for variant, into [`Json`], on which the rest of the crate works.

use crate::lookup::{first_from, first_under};
use vstd::prelude::*;

verus! {

/// `serde_json::Value`, as the parser hands it out. Nothing is known of what
/// is inside one until it has been carried over into a [`Json`].
#[verifier::external_type_specification]
#[verifier::external_body]
pub struct ExValue(serde_json::Value);

/// `serde_json::Number`. A [`Json`] keeps the numbers of a document as they
/// are; nothing in this crate looks into one.
#[verifier::external_type_specification]
#[verifier::external_body]
pub struct ExNumber(serde_json::Number);

/// `serde_json::Error`, of which only the message is taken.
#[verifier::external_type_specification]
#[verifier::external_body]
pub struct ExError(serde_json::Error);

/// A JSON document. The entries of an object stand in document order.
#[derive(Debug, PartialEq)]
pub enum Json {
    Null,
    Bool(bool),
    Number(serde_json::Number),
    Text(String),
    Array(Vec<Json>),
    Object(Vec<Member>),
}

/// One entry of a JSON object.
#[derive(Debug, PartialEq)]
pub struct Member {
    pub key: String,
    pub value: Json,
}

/// The mathematical value of a [`Json`] document.
pub ghost enum JsonValue {
    Null,
    Bool(bool),
    Number(serde_json::Number),
    Text(Seq<char>),
    Array(Seq<JsonValue>),
    Object(Seq<(Seq<char>, JsonValue)>),
}

impl Json {
    /// The value of the document.
    pub open spec fn value(self) -> JsonValue
        decreases self,
    {
        match self {
            Json::Null => JsonValue::Null,
            Json::Bool(flag) => JsonValue::Bool(flag),
            Json::Number(number) => JsonValue::Number(number),
            Json::Text(text) => JsonValue::Text(text@),
            Json::Array(items) => JsonValue::Array(
                Seq::new(
                    items@.len(),
                    |i: int|
                        if 0 <= i < items@.len() {
                            items@[i].value()
                        } else {
                            JsonValue::Null
                        },
                ),
            ),
            Json::Object(entries) => JsonValue::Object(
                Seq::new(
                    entries@.len(),
                    |i: int|
                        if 0 <= i < entries@.len() {
                            (entries@[i].key@, entries@[i].value.value())
                        } else {
                            (Seq::<char>::empty(), JsonValue::Null)
                        },
                ),
            ),
        }
    }
}

impl View for Json {
    type V = JsonValue;

    open spec fn view(&self) -> JsonValue {
        self.value()
    }
}

/// The values of a run of documents.
pub open spec fn values_of(items: Seq<Json>) -> Seq<JsonValue> {
    Seq::new(items.len(), |i: int| items[i]@)
}

/// The keys and values of a run of object entries.
pub open spec fn entries_of(entries: Seq<Member>) -> Seq<(Seq<char>, JsonValue)> {
    Seq::new(entries.len(), |i: int| (entries[i].key@, entries[i].value@))
}

/// The view of an array is the views of its elements.
pub proof fn lemma_array_view(items: Vec<Json>)
    ensures
        Json::Array(items)@ == JsonValue::Array(values_of(items@)),
{
    assert(Json::Array(items)@->Array_0 =~= values_of(items@));
}

/// The view of an object is the keys and views of its entries.
pub proof fn lemma_object_view(entries: Vec<Member>)
    ensures
        Json::Object(entries)@ == JsonValue::Object(entries_of(entries@)),
{
    assert(Json::Object(entries)@->Object_0 =~= entries_of(entries@));
}

impl JsonValue {
    /// The value under `name`, when `self` is an object that has such an entry:
    /// the first one in document order.
    pub open spec fn member(self, name: Seq<char>) -> Option<JsonValue> {
        match self {
            JsonValue::Object(entries) => first_under(entries, name),
            _ => None,
        }
    }
}

/// What `serde_json::from_str` makes of a text when asked for a
/// `serde_json::Value`: the document, or the message of the error.
pub uninterp spec fn parsed_document(text: Seq<char>) -> Result<JsonValue, Seq<char>>;

/// The document that a `serde_json::Value` holds.
pub uninterp spec fn document_of(value: serde_json::Value) -> JsonValue;

/// The message that a `serde_json::Error` displays.
pub uninterp spec fn failure_text(error: serde_json::Error) -> Seq<char>;

/// Calls `serde_json::from_str` for a `serde_json::Value`. Nothing is proved
/// of the parser: the contract only names its outcome, which depends on the
/// text alone.
#[verifier::external_body]
fn read_value(text: &str) -> (outcome: Result<serde_json::Value, serde_json::Error>)
    ensures
        match outcome {
            Ok(value) => parsed_document(text@) == Ok::<JsonValue, Seq<char>>(document_of(value)),
            Err(error) => parsed_document(text@) == Err::<JsonValue, Seq<char>>(
                failure_text(error),
            ),
        },
{
    serde_json::from_str::<serde_json::Value>(text)
}

/// One level of a `serde_json::Value`: its variant, and what the variant
/// holds, with the values below it still unopened.
enum Node {
    Null,
    Bool(bool),
    Number(serde_json::Number),
    Text(String),
    Array(Vec<serde_json::Value>),
    Object(Vec<(String, serde_json::Value)>),
}

/// The document of an opened value, over the documents of the values below
/// it.
spec fn node_document(node: Node) -> JsonValue {
    match node {
        Node::Null => JsonValue::Null,
        Node::Bool(flag) => JsonValue::Bool(flag),
        Node::Number(number) => JsonValue::Number(number),
        Node::Text(text) => JsonValue::Text(text@),
        Node::Array(items) => JsonValue::Array(
            Seq::new(items@.len(), |i: int| document_of(items@[i])),
        ),
        Node::Object(entries) => JsonValue::Object(
            Seq::new(entries@.len(), |i: int| (entries@[i].0@, document_of(entries@[i].1))),
        ),
    }
}

/// Tells the variants of a `serde_json::Value` apart and hands out what the
/// variant holds; the entries of an object in the order in which its map
/// hands them out. Trusted: this is what the crate takes a value to hold.
#[verifier::external_body]
fn open(value: serde_json::Value) -> (node: Node)
    ensures
        document_of(value) == node_document(node),
{
    match value {
        serde_json::Value::Null => Node::Null,
        serde_json::Value::Bool(flag) => Node::Bool(flag),
        serde_json::Value::Number(number) => Node::Number(number),
        serde_json::Value::String(text) => Node::Text(text),
        serde_json::Value::Array(items) => Node::Array(items),
        serde_json::Value::Object(entries) => Node::Object(entries.into_iter().collect()),
    }
}

/// Carries a `serde_json::Value` over into a [`Json`], level by level.
fn from_value(value: serde_json::Value) -> (json: Json)
    ensures
        json@ == document_of(value),
    decreases document_of(value),
{
    match open(value) {
        Node::Null => Json::Null,
        Node::Bool(flag) => Json::Bool(flag),
        Node::Number(number) => Json::Number(number),
        Node::Text(text) => Json::Text(text),
        Node::Array(items) => {
            let ghost below = Seq::new(items@.len(), |i: int| document_of(items@[i]));
            let mut converted: Vec<Json> = Vec::new();
            for item in iter: items
                invariant
                    document_of(value) == JsonValue::Array(below),
                    below.len() == iter.seq().len(),
                    forall|i: int| 0 <= i < below.len() ==> below[i] == document_of(iter.seq()[i]),
                    converted@.len() == iter.index(),
                    forall|i: int| 0 <= i < iter.index() ==> converted@[i]@ == below[i],
            {
                proof {
                    let whole = document_of(value);
                    let at = iter.index() as int;
                    assert(document_of(item) == whole->Array_0[at]);
                    assert(decreases_to!(whole => whole->Array_0));
                    assert(decreases_to!(whole->Array_0 => whole->Array_0[at]));
                }
                converted.push(from_value(item));
            }
            proof {
                lemma_array_view(converted);
                assert(values_of(converted@) =~= below);
            }
            Json::Array(converted)
        },
        Node::Object(entries) => {
            let ghost below = Seq::new(
                entries@.len(),
                |i: int| (entries@[i].0@, document_of(entries@[i].1)),
            );
            let mut converted: Vec<Member> = Vec::new();
            for entry in iter: entries
                invariant
                    document_of(value) == JsonValue::Object(below),
                    below.len() == iter.seq().len(),
                    forall|i: int|
                        0 <= i < below.len() ==> below[i] == (
                            iter.seq()[i].0@,
                            document_of(iter.seq()[i].1),
                        ),
                    converted@.len() == iter.index(),
                    forall|i: int|
                        0 <= i < iter.index() ==> (converted@[i].key@, converted@[i].value@)
                            == below[i],
            {
                let (key, item) = entry;
                proof {
                    let whole = document_of(value);
                    let at = iter.index() as int;
                    assert(document_of(item) == whole->Object_0[at].1);
                    assert(decreases_to!(whole => whole->Object_0));
                    assert(decreases_to!(whole->Object_0 => whole->Object_0[at]));
                    assert(decreases_to!(whole->Object_0[at] => whole->Object_0[at].1));
                }
                converted.push(Member { key, value: from_value(item) });
            }
            proof {
                lemma_object_view(converted);
                assert(entries_of(converted@) =~= below);
            }
            Json::Object(converted)
        },
    }
}

/// The `Display` text of a `serde_json::Error`, through `to_string`.
#[verifier::external_body]
fn describe(error: &serde_json::Error) -> (message: String)
    ensures
        message@ == failure_text(*error),
{
    error.to_string()
}

/// Parses a JSON text.
pub fn parse(text: &str) -> (outcome: Result<Json, String>)
    ensures
        match outcome {
            Ok(json) => parsed_document(text@) == Ok::<JsonValue, Seq<char>>(json@),
            Err(message) => parsed_document(text@) == Err::<JsonValue, Seq<char>>(message@),
        },
{
    match read_value(text) {
        Ok(value) => Ok(from_value(value)),
        Err(error) => Err(describe(&error)),
    }
}

impl Json {
    /// The member of an object under a key: the first entry of that key, if
    /// the document is an object and has one.
    pub fn member(&self, name: &str) -> (found: Option<&Json>)
        ensures
            match found {
                Some(json) => self@.member(name@) == Some(json@),
                None => self@.member(name@) is None,
            },
    {
        match self {
            Json::Object(entries) => {
                let wanted = name.to_owned();
                let ghost model = entries_of(entries@);
                proof {
                    lemma_object_view(*entries);
                }
                let mut index: usize = 0;
                while index < entries.len()
                    invariant
                        index <= entries.len(),
                        wanted@ == name@,
                        model == entries_of(entries@),
                        self@ == JsonValue::Object(model),
                        first_under(model, name@) == first_from(model, name@, index as int),
                    decreases entries.len() - index,
                {
                    if entries[index].key == wanted {
                        return Some(&entries[index].value);
                    }
                    index += 1;
                }
                None
            },
            _ => None,
        }
    }
}

} // verus!

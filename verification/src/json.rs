//! JSON documents as plain data, and the text form that `serde_json` gives them.
//!
//! Reading and writing JSON text is `serde_json`'s work. Everything the node
//! runtime decides about a document (which members it has, what they hold) is
//! decided on [`Json`], whose mathematical value is a [`Document`].

use vstd::prelude::*;

verus! {

/// `serde_json::Value`, a JSON value as `serde_json` holds it. Nothing is
/// known of what is inside one but through [`value_document`].
#[verifier::external_type_specification]
#[verifier::external_body]
pub struct ExValue(serde_json::Value);

/// `serde_json::Number`, a JSON number as `serde_json` holds it. It is only
/// carried along.
#[verifier::external_type_specification]
#[verifier::external_body]
pub struct ExNumber(serde_json::Number);

/// `serde_json::Error`, the error of a text that is not JSON. It is only
/// told apart from success.
#[verifier::external_type_specification]
#[verifier::external_body]
pub struct ExError(serde_json::Error);

/// A JSON document.
///
/// An object keeps its members in the order in which they are written. In a
/// document that was read, a whole number from `0` to `u64::MAX` is an
/// `Unsigned`, and any other number is carried as `serde_json` holds it.
#[derive(Debug, PartialEq, Eq)]
pub enum Json {
    Null,
    Bool(bool),
    Unsigned(u64),
    Number(serde_json::Number),
    Text(String),
    Array(Vec<Json>),
    Object(Vec<(String, Json)>),
}

/// The members of an object: names with their values, in order.
pub type Members = Seq<(Seq<char>, Document)>;

/// The mathematical value of a [`Json`].
pub enum Document {
    Null,
    Bool(bool),
    Unsigned(u64),
    Number(serde_json::Number),
    Text(Seq<char>),
    Array(Seq<Document>),
    Object(Members),
}

/// The value of a document: texts by their characters, arrays and objects by
/// the values of what they hold.
pub open spec fn document_of(json: Json) -> Document
    decreases json,
{
    match json {
        Json::Null => Document::Null,
        Json::Bool(b) => Document::Bool(b),
        Json::Unsigned(n) => Document::Unsigned(n),
        Json::Number(n) => Document::Number(n),
        Json::Text(s) => Document::Text(s@),
        Json::Array(items) => Document::Array(
            Seq::new(
                items@.len(),
                |i: int|
                    if 0 <= i < items@.len() {
                        document_of(items@[i])
                    } else {
                        Document::Null
                    },
            ),
        ),
        Json::Object(members) => Document::Object(
            Seq::new(
                members@.len(),
                |i: int|
                    if 0 <= i < members@.len() {
                        (members@[i].0@, document_of(members@[i].1))
                    } else {
                        (Seq::empty(), Document::Null)
                    },
            ),
        ),
    }
}

impl View for Json {
    type V = Document;

    open spec fn view(&self) -> Document {
        document_of(*self)
    }
}

/// The values of a list of documents.
pub open spec fn items_view(items: Seq<Json>) -> Seq<Document> {
    Seq::new(items.len(), |i: int| items[i]@)
}

/// The values of a list of members.
pub open spec fn members_view(members: Seq<(String, Json)>) -> Members {
    Seq::new(members.len(), |i: int| (members[i].0@, members[i].1@))
}

/// The view of an array is the list of its items' views.
pub proof fn lemma_array_view(items: Vec<Json>)
    ensures
        Json::Array(items)@ == Document::Array(items_view(items@)),
{
    assert(Json::Array(items)@->Array_0 =~= items_view(items@));
}

/// The view of an object is the list of its members' views.
pub proof fn lemma_object_view(members: Vec<(String, Json)>)
    ensures
        Json::Object(members)@ == Document::Object(members_view(members@)),
{
    assert(Json::Object(members)@->Object_0 =~= members_view(members@));
}

/// The value of the first member named `key`, if there is one.
pub open spec fn lookup(members: Members, key: Seq<char>) -> Option<Document>
    decreases members.len(),
{
    if members.len() == 0 {
        None
    } else if members[0].0 == key {
        Some(members[0].1)
    } else {
        lookup(members.drop_first(), key)
    }
}

/// A lookup in a concatenation searches the first part, then the second.
pub proof fn lemma_lookup_concat(first: Members, second: Members, key: Seq<char>)
    ensures
        lookup(first + second, key) == match lookup(first, key) {
            Some(found) => Some(found),
            None => lookup(second, key),
        },
    decreases first.len(),
{
    if first.len() == 0 {
        assert(first + second =~= second);
    } else {
        assert((first + second).drop_first() =~= first.drop_first() + second);
        lemma_lookup_concat(first.drop_first(), second, key);
    }
}

/// A lookup finds nothing exactly when no member has that name.
pub proof fn lemma_lookup_none(members: Members, key: Seq<char>)
    ensures
        lookup(members, key) is None <==> forall|i: int|
            0 <= i < members.len() ==> (#[trigger] members[i]).0 != key,
    decreases members.len(),
{
    if members.len() > 0 {
        let rest = members.drop_first();
        lemma_lookup_none(rest, key);
        if members[0].0 != key {
            if lookup(rest, key) is None {
                assert forall|i: int| 0 <= i < members.len() implies (#[trigger] members[i]).0
                    != key by {
                    if i > 0 {
                        assert(members[i] == rest[i - 1]);
                    }
                }
            } else {
                let j = choose|j: int| 0 <= j < rest.len() && (#[trigger] rest[j]).0 == key;
                assert(members[j + 1] == rest[j]);
            }
        }
    }
}

/// Whether a text holds no line feed, so that it can stand as one line.
pub open spec fn single_line(text: Seq<char>) -> bool {
    forall|i: int| 0 <= i < text.len() ==> text[i] != '\n'
}

/// The document that `serde_json::from_str` reads from a text, where it reads one.
pub uninterp spec fn parsed_value(text: Seq<char>) -> Option<serde_json::Value>;

/// What a `serde_json::Value` holds.
pub uninterp spec fn value_document(value: serde_json::Value) -> Document;

/// The `serde_json::Value` that holds a document.
pub uninterp spec fn document_value(document: Document) -> serde_json::Value;

/// The text that `serde_json::to_string` writes for a value.
pub uninterp spec fn value_text(value: serde_json::Value) -> Seq<char>;

/// The document that a text stands for, where it is JSON.
pub open spec fn parsed_document(text: Seq<char>) -> Option<Document> {
    match parsed_value(text) {
        Some(value) => Some(value_document(value)),
        None => None,
    }
}

/// The text of a document.
pub open spec fn document_text(document: Document) -> Seq<char> {
    value_text(document_value(document))
}

/// Calls `serde_json::from_str` for a `serde_json::Value`. The value read from
/// a text depends on the text alone; the contract gives it a name and says that
/// an error comes exactly when there is no such value.
#[verifier::external_body]
fn parse_value(text: &str) -> (r: Result<serde_json::Value, serde_json::Error>)
    ensures
        match r {
            Ok(value) => parsed_value(text@) == Some(value),
            Err(_) => parsed_value(text@) is None,
        },
{
    serde_json::from_str::<serde_json::Value>(text)
}

/// Moves what a `serde_json::Value` holds into a [`Json`], variant by variant.
/// A number goes to `Unsigned` where `serde_json::Number::as_u64` gives its
/// value, and is carried along unchanged where it does not. The contract only
/// names the outcome.
#[verifier::external_body]
fn json_of_value(value: serde_json::Value) -> (json: Json)
    ensures
        json@ == value_document(value),
{
    match value {
        serde_json::Value::Null => Json::Null,
        serde_json::Value::Bool(b) => Json::Bool(b),
        serde_json::Value::Number(n) => match n.as_u64() {
            Some(u) => Json::Unsigned(u),
            None => Json::Number(n),
        },
        serde_json::Value::String(s) => Json::Text(s),
        serde_json::Value::Array(items) => Json::Array(items.into_iter().map(json_of_value).collect()),
        serde_json::Value::Object(members) => Json::Object(
            members.into_iter().map(|(k, v)| (k, json_of_value(v))).collect(),
        ),
    }
}

/// Builds the `serde_json::Value` for a [`Json`], variant by variant; an
/// `Unsigned` becomes a number through `serde_json::Number::from`, an object a
/// `serde_json::Map` filled in the members' order. The contract only names the
/// outcome, which depends on the document alone.
#[verifier::external_body]
fn value_of_json(json: &Json) -> (value: serde_json::Value)
    ensures
        value == document_value(json@),
{
    match json {
        Json::Null => serde_json::Value::Null,
        Json::Bool(b) => serde_json::Value::Bool(*b),
        Json::Unsigned(u) => serde_json::Value::Number(serde_json::Number::from(*u)),
        Json::Number(n) => serde_json::Value::Number(n.clone()),
        Json::Text(s) => serde_json::Value::String(s.clone()),
        Json::Array(items) => serde_json::Value::Array(items.iter().map(value_of_json).collect()),
        Json::Object(members) => serde_json::Value::Object(
            members.iter().map(|(k, v)| (k.clone(), value_of_json(v))).collect(),
        ),
    }
}

/// Calls `serde_json::to_string` on a `serde_json::Value`. Its documentation
/// gives two causes of failure, a `Serialize` impl that fails and a map whose
/// keys are not strings; a `Value` has neither, so the contract promises the
/// text, and names it. The text is the compact form, which has no white space
/// between its parts and writes a line feed inside a string as `\n`: it holds
/// no line feed.
#[verifier::external_body]
fn print_value(value: &serde_json::Value) -> (r: Result<String, serde_json::Error>)
    ensures
        match r {
            Ok(text) => text@ == value_text(*value) && single_line(text@),
            Err(_) => false,
        },
{
    serde_json::to_string(value)
}

impl Json {
    /// Reads a document from JSON text; `None` where the text is not JSON.
    pub fn parse(text: &str) -> (r: Option<Json>)
        ensures
            match r {
                Some(json) => parsed_document(text@) == Some(json@),
                None => parsed_document(text@) is None,
            },
    {
        match parse_value(text) {
            Ok(value) => Some(json_of_value(value)),
            Err(_) => None,
        }
    }

    /// Writes the document as JSON text, all on one line.
    pub fn print(&self) -> (text: String)
        ensures
            text@ == document_text(self@),
            single_line(text@),
    {
        let value = value_of_json(self);
        print_value(&value).expect("serializing a document failed")
    }
}

/// Finds the first member named `key`.
pub fn find<'a>(members: &'a Vec<(String, Json)>, key: &str) -> (r: Option<&'a Json>)
    ensures
        match r {
            Some(json) => lookup(members_view(members@), key@) == Some(json@),
            None => lookup(members_view(members@), key@) is None,
        },
{
    let wanted = key.to_owned();
    let mut i: usize = 0;
    assert(members_view(members@).skip(0) =~= members_view(members@));
    while i < members.len()
        invariant
            i <= members.len(),
            wanted@ == key@,
            lookup(members_view(members@), key@) == lookup(members_view(members@).skip(i as int), key@),
        decreases members.len() - i,
    {
        let ghost rest = members_view(members@).skip(i as int);
        assert(rest.drop_first() =~= members_view(members@).skip(i + 1));
        if members[i].0 == wanted {
            return Some(&members[i].1);
        }
        i += 1;
    }
    None
}

} // verus!

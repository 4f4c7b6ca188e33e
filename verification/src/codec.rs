//! The envelope codec: a message as a JSON document, and as one line of text.
//!
//! An envelope is the object `{"src": .., "dest": .., "body": {..}}`. The body
//! holds `msg_id` and `in_reply_to` where the message has them, and after them
//! the members of the payload, in the same object.

use crate::error::Malformation;
use crate::json::{
    document_text, find, lemma_lookup_concat, lemma_object_view, lookup, members_view,
    parsed_document, single_line, Document, Json, Members,
};
use crate::message::{
    all_reserved, envelopes, outcome, texts, Body, Envelope, Message, MessageBody, Payload,
};
use crate::names::lemma_names;
use vstd::prelude::*;

verus! {

/// The member that an identifier is written as: none where it is absent.
pub open spec fn identifier_member(key: Seq<char>, id: Option<usize>) -> Members {
    match id {
        Some(n) => seq![(key, Document::Unsigned(n as u64))],
        None => Seq::empty(),
    }
}

/// The members of a body: the identifiers it has, then its payload.
pub open spec fn body_members<P: Payload>(body: Body<P::V>) -> Members {
    identifier_member("msg_id"@, body.id) + identifier_member("in_reply_to"@, body.in_reply_to)
        + P::members_of(body.payload)
}

/// The document that an envelope is written as.
pub open spec fn envelope_document<P: Payload>(envelope: Envelope<P::V>) -> Document {
    Document::Object(
        seq![
            ("src"@, Document::Text(envelope.src)),
            ("dest"@, Document::Text(envelope.dst)),
            ("body"@, Document::Object(body_members::<P>(envelope.body))),
        ],
    )
}

/// The identifier that the member `key` gives: absent where there is no such
/// member or it is `null`, an error where it is anything but a whole number
/// that a `usize` holds.
pub open spec fn identifier_of(members: Members, key: Seq<char>) -> Result<
    Option<usize>,
    Malformation,
> {
    match lookup(members, key) {
        None => Ok(None),
        Some(Document::Null) => Ok(None),
        Some(Document::Unsigned(n)) => if n <= usize::MAX {
            Ok(Some(n as usize))
        } else {
            Err(Malformation::InvalidEnvelope)
        },
        Some(_) => Err(Malformation::InvalidEnvelope),
    }
}

/// The body that the members of an object stand for.
pub open spec fn members_body<P: Payload>(members: Members) -> Result<Body<P::V>, Malformation> {
    match identifier_of(members, "msg_id"@) {
        Err(e) => Err(e),
        Ok(id) => match identifier_of(members, "in_reply_to"@) {
            Err(e) => Err(e),
            Ok(in_reply_to) => match P::payload_of(members) {
                None => Err(Malformation::InvalidPayload),
                Some(payload) => Ok(Body { id, in_reply_to, payload }),
            },
        },
    }
}

/// The envelope that a document stands for.
pub open spec fn document_envelope<P: Payload>(document: Document) -> Result<
    Envelope<P::V>,
    Malformation,
> {
    match document {
        Document::Object(members) => match lookup(members, "src"@) {
            Some(Document::Text(src)) => match lookup(members, "dest"@) {
                Some(Document::Text(dst)) => match lookup(members, "body"@) {
                    Some(Document::Object(inner)) => match members_body::<P>(inner) {
                        Ok(body) => Ok(Envelope { src, dst, body }),
                        Err(e) => Err(e),
                    },
                    _ => Err(Malformation::InvalidEnvelope),
                },
                _ => Err(Malformation::InvalidEnvelope),
            },
            _ => Err(Malformation::InvalidEnvelope),
        },
        _ => Err(Malformation::InvalidEnvelope),
    }
}

/// The line that an envelope is written as.
pub open spec fn encoded<P: Payload>(envelope: Envelope<P::V>) -> Seq<char> {
    document_text(envelope_document::<P>(envelope))
}

/// The envelope that a line stands for.
pub open spec fn decoded<P: Payload>(line: Seq<char>) -> Result<Envelope<P::V>, Malformation> {
    match parsed_document(line) {
        None => Err(Malformation::InvalidJson),
        Some(document) => document_envelope::<P>(document),
    }
}

/// The lines that a list of envelopes is written as, one line each, in the
/// order of the list.
pub open spec fn encoded_all<P: Payload>(envelopes: Seq<Envelope<P::V>>) -> Seq<Seq<char>> {
    Seq::new(envelopes.len(), |i: int| encoded::<P>(envelopes[i]))
}

/// Whether every text of a list can stand as one line.
pub open spec fn single_lines(lines: Seq<Seq<char>>) -> bool {
    forall|i: int| 0 <= i < lines.len() ==> single_line(#[trigger] lines[i])
}

/// The views of two lists of members, one after the other, are the view of
/// their concatenation.
pub proof fn lemma_members_view_concat(first: Seq<(String, Json)>, second: Seq<(String, Json)>)
    ensures
        members_view(first + second) == members_view(first) + members_view(second),
{
}

/// An identifier that was written is read back, whatever reserved member of
/// another name stands before it and whatever members follow it.
proof fn lemma_identifier_read_back(
    before: Members,
    key: Seq<char>,
    id: Option<usize>,
    after: Members,
)
    requires
        lookup(before, key) is None,
        lookup(after, key) is None,
    ensures
        identifier_of(before + identifier_member(key, id) + after, key) == Ok::<_, Malformation>(id),
{
    let written = identifier_member(key, id);
    lemma_lookup_concat(before + written, after, key);
    lemma_lookup_concat(before, written, key);
}

/// The document that an envelope is written as stands for that envelope.
pub proof fn law_document_round_trip<P: Payload>(envelope: Envelope<P::V>)
    ensures
        document_envelope::<P>(envelope_document::<P>(envelope)) == Ok::<_, Malformation>(envelope),
{
    lemma_names();
    let body = envelope.body;
    let first = identifier_member("msg_id"@, body.id);
    let second = identifier_member("in_reply_to"@, body.in_reply_to);
    let third = P::members_of(body.payload);
    let inner = body_members::<P>(body);
    P::lemma_members(body.payload);
    assert(identifier_of(inner, "msg_id"@) == Ok::<_, Malformation>(body.id)) by {
        lemma_lookup_concat(second, third, "msg_id"@);
        assert(lookup(second, "msg_id"@) is None) by {
            reveal_with_fuel(lookup, 2);
        }
    }
    assert(identifier_of(inner, "in_reply_to"@) == Ok::<_, Malformation>(body.in_reply_to)) by {
        assert(lookup(first, "in_reply_to"@) is None) by {
            reveal_with_fuel(lookup, 2);
        }
        lemma_identifier_read_back(first, "in_reply_to"@, body.in_reply_to, third);
    }
    assert(P::payload_of(inner) == Some(body.payload)) by {
        P::lemma_read_back(body.payload, first + second);
    }
    reveal_with_fuel(lookup, 4);
}

/// Decoding the line that a message was encoded as gives the message back,
/// where `serde_json` reads from that line the document it was written from.
pub proof fn law_round_trip<P: Payload>(envelope: Envelope<P::V>)
    requires
        parsed_document(encoded::<P>(envelope)) == Some(envelope_document::<P>(envelope)),
    ensures
        decoded::<P>(encoded::<P>(envelope)) == Ok::<_, Malformation>(envelope),
{
    law_document_round_trip::<P>(envelope);
}

/// An identifier that is written as `null` is read as absent: a body whose
/// identifiers are both `null` stands for the body without identifiers.
pub proof fn law_null_identifiers_are_absent<P: Payload>(payload: P::V)
    ensures
        members_body::<P>(
            seq![("msg_id"@, Document::Null), ("in_reply_to"@, Document::Null)] + P::members_of(
                payload,
            ),
        ) == Ok::<_, Malformation>(Body { id: None, in_reply_to: None, payload }),
{
    let before = seq![("msg_id"@, Document::Null), ("in_reply_to"@, Document::Null)];
    P::lemma_read_back(payload, before);
    reveal_with_fuel(lookup, 3);
}

/// A body without a `type` member that is a text stands for no message: it
/// fails on an identifier, or on the payload.
pub proof fn law_payload_needs_type<P: Payload>(members: Members)
    requires
        !(lookup(members, "type"@) matches Some(Document::Text(_))),
    ensures
        members_body::<P>(members) is Err,
{
    P::lemma_tagged(members);
}

/// The lines of two lists of envelopes, one after the other, are the lines of
/// their concatenation.
pub proof fn lemma_encoded_all_concat<P: Payload>(
    first: Seq<Envelope<P::V>>,
    second: Seq<Envelope<P::V>>,
)
    ensures
        encoded_all::<P>(first + second) == encoded_all::<P>(first) + encoded_all::<P>(second),
{
}

/// Writes a message as a document.
pub fn to_document<P: Payload>(message: &Message<P>) -> (json: Json)
    ensures
        json@ == envelope_document::<P>(message@),
{
    let mut inner: Vec<(String, Json)> = Vec::new();
    if let Some(id) = message.body.id {
        inner.push(("msg_id".to_owned(), Json::Unsigned(id as u64)));
    }
    assert(members_view(inner@) =~= identifier_member("msg_id"@, message.body.id));
    let ghost first = inner@;
    if let Some(id) = message.body.in_reply_to {
        inner.push(("in_reply_to".to_owned(), Json::Unsigned(id as u64)));
    }
    assert(members_view(inner@) =~= members_view(first) + identifier_member(
        "in_reply_to"@,
        message.body.in_reply_to,
    ));
    let ghost second = inner@;
    let mut payload = message.body.payload.to_members();
    let ghost third = payload@;
    inner.append(&mut payload);
    proof {
        lemma_members_view_concat(second, third);
        lemma_object_view(inner);
    }
    let mut outer: Vec<(String, Json)> = Vec::new();
    outer.push(("src".to_owned(), Json::Text(message.src.clone())));
    outer.push(("dest".to_owned(), Json::Text(message.dst.clone())));
    outer.push(("body".to_owned(), Json::Object(inner)));
    proof {
        lemma_object_view(outer);
        assert(members_view(outer@) =~= envelope_document::<P>(message@)->Object_0);
    }
    Json::Object(outer)
}

/// Reads the identifier that the member `key` gives.
fn read_identifier(members: &Vec<(String, Json)>, key: &str) -> (r: Result<
    Option<usize>,
    Malformation,
>)
    ensures
        r == identifier_of(members_view(members@), key@),
{
    match find(members, key) {
        None => Ok(None),
        Some(Json::Null) => Ok(None),
        Some(Json::Unsigned(n)) => {
            if *n <= usize::MAX as u64 {
                Ok(Some(*n as usize))
            } else {
                Err(Malformation::InvalidEnvelope)
            }
        },
        Some(_) => Err(Malformation::InvalidEnvelope),
    }
}

/// Reads a body from the members of an object.
fn read_body<P: Payload>(members: &Vec<(String, Json)>) -> (r: Result<
    MessageBody<P>,
    Malformation,
>)
    ensures
        outcome(r) == members_body::<P>(members_view(members@)),
{
    let id = match read_identifier(members, "msg_id") {
        Ok(id) => id,
        Err(e) => return Err(e),
    };
    let in_reply_to = match read_identifier(members, "in_reply_to") {
        Ok(id) => id,
        Err(e) => return Err(e),
    };
    match P::from_members(members) {
        Some(payload) => Ok(MessageBody { id, in_reply_to, payload }),
        None => Err(Malformation::InvalidPayload),
    }
}

/// Reads a message from a document.
pub fn from_document<P: Payload>(json: &Json) -> (r: Result<Message<P>, Malformation>)
    ensures
        outcome(r) == document_envelope::<P>(json@),
{
    match json {
        Json::Object(members) => {
            proof {
                lemma_object_view(*members);
            }
            let src = match find(members, "src") {
                Some(Json::Text(text)) => text.clone(),
                _ => return Err(Malformation::InvalidEnvelope),
            };
            let dst = match find(members, "dest") {
                Some(Json::Text(text)) => text.clone(),
                _ => return Err(Malformation::InvalidEnvelope),
            };
            match find(members, "body") {
                Some(Json::Object(inner)) => {
                    proof {
                        lemma_object_view(*inner);
                    }
                    match read_body::<P>(inner) {
                        Ok(body) => Ok(Message { src, dst, body }),
                        Err(e) => Err(e),
                    }
                },
                _ => Err(Malformation::InvalidEnvelope),
            }
        },
        _ => Err(Malformation::InvalidEnvelope),
    }
}

/// Writes a message as one line of JSON text, without the line's end.
pub fn encode<P: Payload>(message: &Message<P>) -> (line: String)
    ensures
        line@ == encoded::<P>(message@),
        single_line(line@),
{
    to_document(message).print()
}

/// Writes each message of a list as a line, in the order of the list.
pub fn encode_all<P: Payload>(messages: &Vec<Message<P>>) -> (lines: Vec<String>)
    ensures
        texts(lines@) == encoded_all::<P>(envelopes(messages@)),
        single_lines(texts(lines@)),
{
    let mut lines: Vec<String> = Vec::new();
    let mut i: usize = 0;
    while i < messages.len()
        invariant
            i <= messages.len(),
            lines@.len() == i,
            forall|k: int| 0 <= k < i ==> (#[trigger] lines@[k])@ == encoded::<P>(messages@[k]@),
            forall|k: int| 0 <= k < i ==> single_line((#[trigger] lines@[k])@),
        decreases messages.len() - i,
    {
        lines.push(encode(&messages[i]));
        i += 1;
    }
    lines
}

/// Reads a message from one line of JSON text.
pub fn decode<P: Payload>(line: &str) -> (r: Result<Message<P>, Malformation>)
    ensures
        outcome(r) == decoded::<P>(line@),
{
    match Json::parse(line) {
        None => Err(Malformation::InvalidJson),
        Some(json) => from_document(&json),
    }
}

} // verus!

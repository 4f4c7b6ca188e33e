//! The message envelope and the contract that a payload type fulfils.

use crate::json::{lookup, members_view, Document, Json, Members};
use vstd::prelude::*;

verus! {

/// The name of a node, unique within a cluster.
pub type NodeIdentifier = String;

/// The number a sender gives to a message it originates.
pub type MessageIdentifier = usize;

/// One protocol message: who sent it, whom it is for, and its body.
#[derive(Debug, Clone, PartialEq, Eq)]
pub struct Message<Payload> {
    pub src: NodeIdentifier,
    pub dst: NodeIdentifier,
    pub body: MessageBody<Payload>,
}

/// The identifiers of a message and its payload.
#[derive(Debug, Clone, PartialEq, Eq)]
pub struct MessageBody<Payload> {
    pub id: Option<MessageIdentifier>,
    pub in_reply_to: Option<MessageIdentifier>,
    pub payload: Payload,
}

/// The mathematical value of a [`MessageBody`].
pub struct Body<P> {
    pub id: Option<MessageIdentifier>,
    pub in_reply_to: Option<MessageIdentifier>,
    pub payload: P,
}

/// The mathematical value of a [`Message`].
pub struct Envelope<P> {
    pub src: Seq<char>,
    pub dst: Seq<char>,
    pub body: Body<P>,
}

impl<Payload: View> View for MessageBody<Payload> {
    type V = Body<Payload::V>;

    open spec fn view(&self) -> Body<Payload::V> {
        Body { id: self.id, in_reply_to: self.in_reply_to, payload: self.payload@ }
    }
}

impl<Payload: View> View for Message<Payload> {
    type V = Envelope<Payload::V>;

    open spec fn view(&self) -> Envelope<Payload::V> {
        Envelope { src: self.src@, dst: self.dst@, body: self.body@ }
    }
}

/// The values of a list of messages.
pub open spec fn envelopes<Payload: View>(messages: Seq<Message<Payload>>) -> Seq<
    Envelope<Payload::V>,
> {
    Seq::new(messages.len(), |i: int| messages[i]@)
}

/// The values of a list of texts.
pub open spec fn texts(strings: Seq<String>) -> Seq<Seq<char>> {
    Seq::new(strings.len(), |i: int| strings[i]@)
}

/// The mathematical value of a result: that of what it holds on success, the
/// error as it is.
pub open spec fn outcome<T: View, E>(r: Result<T, E>) -> Result<T::V, E> {
    match r {
        Ok(value) => Ok(value@),
        Err(e) => Err(e),
    }
}

/// Whether a member name belongs to the body itself and not to its payload.
pub open spec fn is_reserved(key: Seq<char>) -> bool {
    key == "msg_id"@ || key == "in_reply_to"@
}

/// Whether every member of a list has a reserved name.
pub open spec fn all_reserved(members: Members) -> bool {
    forall|i: int| 0 <= i < members.len() ==> is_reserved((#[trigger] members[i]).0)
}

/// A payload: a tagged union that is written into the body object itself, as a
/// `type` member that names the variant and the members of that variant.
///
/// The runtime never looks into a payload; it only carries it between its
/// members and its value, and relies on the three laws below.
pub trait Payload: View + Sized {
    /// The members that a payload writes, its `type` among them.
    spec fn members_of(payload: Self::V) -> Members;

    /// The payload that the members of a body stand for, where they stand for one.
    spec fn payload_of(members: Members) -> Option<Self::V>;

    /// Writes the payload as members of a body.
    fn to_members(&self) -> (members: Vec<(String, Json)>)
        ensures
            members_view(members@) == Self::members_of(self@),
    ;

    /// Reads the payload from the members of a body.
    fn from_members(members: &Vec<(String, Json)>) -> (r: Option<Self>)
        ensures
            match r {
                Some(payload) => Self::payload_of(members_view(members@)) == Some(payload@),
                None => Self::payload_of(members_view(members@)) is None,
            },
    ;

    /// A payload names its variant in a `type` member that is a text, and
    /// leaves the reserved names to the body.
    proof fn lemma_members(payload: Self::V)
        ensures
            lookup(Self::members_of(payload), "type"@) matches Some(Document::Text(_)),
            lookup(Self::members_of(payload), "msg_id"@) is None,
            lookup(Self::members_of(payload), "in_reply_to"@) is None,
    ;

    /// Members without a `type` that is a text stand for no payload.
    proof fn lemma_tagged(members: Members)
        requires
            !(lookup(members, "type"@) matches Some(Document::Text(_))),
        ensures
            Self::payload_of(members) is None,
    ;

    /// What was written is read back, whatever reserved members stand before it.
    proof fn lemma_read_back(payload: Self::V, before: Members)
        requires
            all_reserved(before),
        ensures
            Self::payload_of(before + Self::members_of(payload)) == Some(payload),
    ;
}

} // verus!

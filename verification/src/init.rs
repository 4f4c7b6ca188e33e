//! The initialization handshake: the first message of a node's life.

use crate::error::{Fault, FaultView};
use crate::json::{
    find, items_view, lemma_array_view, lemma_lookup_concat, lemma_lookup_none, lookup,
    members_view, Document, Json, Members,
};
use crate::message::{texts, Body, Envelope, Message, MessageBody, NodeIdentifier, Payload};
use crate::names::lemma_names;
use vstd::prelude::*;

verus! {

/// A node's identity: its own name and the names of all nodes of the cluster.
#[derive(Debug, Clone, PartialEq, Eq)]
pub struct Init {
    pub node_id: NodeIdentifier,
    pub node_ids: Vec<NodeIdentifier>,
}

/// The mathematical value of an [`Init`].
pub struct Identity {
    pub node_id: Seq<char>,
    pub node_ids: Seq<Seq<char>>,
}

impl View for Init {
    type V = Identity;

    open spec fn view(&self) -> Identity {
        Identity { node_id: self.node_id@, node_ids: texts(self.node_ids@) }
    }
}

/// The payloads of the handshake.
#[derive(Debug, Clone, PartialEq, Eq)]
pub enum InitPayload {
    Init(Init),
    InitOk,
}

/// The mathematical value of an [`InitPayload`].
pub enum InitPayloadView {
    Init(Identity),
    InitOk,
}

impl View for InitPayload {
    type V = InitPayloadView;

    open spec fn view(&self) -> InitPayloadView {
        match self {
            InitPayload::Init(init) => InitPayloadView::Init(init@),
            InitPayload::InitOk => InitPayloadView::InitOk,
        }
    }
}

/// The documents that a list of texts is written as.
pub open spec fn text_documents(names: Seq<Seq<char>>) -> Seq<Document> {
    Seq::new(names.len(), |i: int| Document::Text(names[i]))
}

/// Whether every document of a list is a text.
pub open spec fn all_texts(documents: Seq<Document>) -> bool {
    forall|i: int| 0 <= i < documents.len() ==> (#[trigger] documents[i]) is Text
}

/// The texts that a list of documents holds.
pub open spec fn document_texts(documents: Seq<Document>) -> Seq<Seq<char>> {
    Seq::new(documents.len(), |i: int| documents[i]->Text_0)
}

/// The identity that the members of an `init` payload hold.
pub open spec fn members_identity(members: Members) -> Option<Identity> {
    match lookup(members, "node_id"@) {
        Some(Document::Text(node_id)) => match lookup(members, "node_ids"@) {
            Some(Document::Array(items)) => if all_texts(items) {
                Some(Identity { node_id, node_ids: document_texts(items) })
            } else {
                None
            },
            _ => None,
        },
        _ => None,
    }
}

/// Writes a list of names as an array of texts.
fn names_to_json(names: &Vec<String>) -> (json: Json)
    ensures
        json@ == Document::Array(text_documents(texts(names@))),
{
    let mut items: Vec<Json> = Vec::new();
    let mut i: usize = 0;
    while i < names.len()
        invariant
            i <= names.len(),
            items@.len() == i,
            forall|k: int| 0 <= k < i ==> (#[trigger] items@[k])@ == Document::Text(names@[k]@),
        decreases names.len() - i,
    {
        items.push(Json::Text(names[i].clone()));
        i += 1;
    }
    proof {
        lemma_array_view(items);
        assert(items_view(items@) =~= text_documents(texts(names@)));
    }
    Json::Array(items)
}

/// Reads a list of names from the items of an array: `None` where an item is
/// no text.
fn names_from_json(items: &Vec<Json>) -> (r: Option<Vec<String>>)
    ensures
        match r {
            Some(names) => all_texts(items_view(items@)) && texts(names@) == document_texts(
                items_view(items@),
            ),
            None => !all_texts(items_view(items@)),
        },
{
    let mut names: Vec<String> = Vec::new();
    let mut i: usize = 0;
    while i < items.len()
        invariant
            i <= items.len(),
            names@.len() == i,
            forall|k: int| 0 <= k < i ==> (#[trigger] items_view(items@)[k]) is Text,
            forall|k: int|
                0 <= k < i ==> (#[trigger] names@[k])@ == items_view(items@)[k]->Text_0,
        decreases items.len() - i,
    {
        match &items[i] {
            Json::Text(text) => {
                names.push(text.clone());
            },
            _ => {
                assert(!(items_view(items@)[i as int] is Text));
                return None;
            },
        }
        i += 1;
    }
    Some(names)
}

impl Payload for InitPayload {
    open spec fn members_of(payload: InitPayloadView) -> Members {
        match payload {
            InitPayloadView::Init(identity) => seq![
                ("type"@, Document::Text("init"@)),
                ("node_id"@, Document::Text(identity.node_id)),
                ("node_ids"@, Document::Array(text_documents(identity.node_ids))),
            ],
            InitPayloadView::InitOk => seq![("type"@, Document::Text("init_ok"@))],
        }
    }

    open spec fn payload_of(members: Members) -> Option<InitPayloadView> {
        match lookup(members, "type"@) {
            Some(Document::Text(tag)) => if tag == "init"@ {
                match members_identity(members) {
                    Some(identity) => Some(InitPayloadView::Init(identity)),
                    None => None,
                }
            } else if tag == "init_ok"@ {
                Some(InitPayloadView::InitOk)
            } else {
                None
            },
            _ => None,
        }
    }

    fn to_members(&self) -> (members: Vec<(String, Json)>) {
        let mut members: Vec<(String, Json)> = Vec::new();
        match self {
            InitPayload::Init(init) => {
                members.push(("type".to_owned(), Json::Text("init".to_owned())));
                members.push(("node_id".to_owned(), Json::Text(init.node_id.clone())));
                members.push(("node_ids".to_owned(), names_to_json(&init.node_ids)));
            },
            InitPayload::InitOk => {
                members.push(("type".to_owned(), Json::Text("init_ok".to_owned())));
            },
        }
        members
    }

    fn from_members(members: &Vec<(String, Json)>) -> (r: Option<Self>) {
        let tag = match find(members, "type") {
            Some(Json::Text(tag)) => tag,
            _ => return None,
        };
        if *tag == "init".to_owned() {
            let node_id = match find(members, "node_id") {
                Some(Json::Text(text)) => text.clone(),
                _ => return None,
            };
            match find(members, "node_ids") {
                Some(Json::Array(items)) => {
                    proof {
                        lemma_array_view(*items);
                    }
                    match names_from_json(items) {
                        Some(node_ids) => Some(InitPayload::Init(Init { node_id, node_ids })),
                        None => None,
                    }
                },
                _ => None,
            }
        } else if *tag == "init_ok".to_owned() {
            Some(InitPayload::InitOk)
        } else {
            None
        }
    }

    proof fn lemma_members(payload: InitPayloadView) {
        lemma_names();
        reveal_with_fuel(lookup, 4);
    }

    proof fn lemma_tagged(members: Members) {
    }

    proof fn lemma_read_back(payload: InitPayloadView, before: Members) {
        lemma_names();
        let written = Self::members_of(payload);
        lemma_lookup_none(before, "type"@);
        lemma_lookup_none(before, "node_id"@);
        lemma_lookup_none(before, "node_ids"@);
        lemma_lookup_concat(before, written, "type"@);
        lemma_lookup_concat(before, written, "node_id"@);
        lemma_lookup_concat(before, written, "node_ids"@);
        reveal_with_fuel(lookup, 4);
        match payload {
            InitPayloadView::Init(identity) => {
                let items = text_documents(identity.node_ids);
                assert(all_texts(items));
                assert(document_texts(items) =~= identity.node_ids);
            },
            InitPayloadView::InitOk => {},
        }
    }
}

/// What the handshake makes of the first message: the identity it gives and
/// the reply it is owed, or the violation that it is.
///
/// The reply goes back to the sender, answers the first message's identifier
/// and carries the identifier `0`, whatever the node numbers its own messages
/// with later.
pub open spec fn handshake(first: Envelope<InitPayloadView>) -> Result<
    (Identity, Envelope<InitPayloadView>),
    FaultView,
> {
    match first.body.payload {
        InitPayloadView::Init(identity) => Ok(
            (
                identity,
                Envelope {
                    src: first.dst,
                    dst: first.src,
                    body: Body {
                        id: Some(0usize),
                        in_reply_to: first.body.id,
                        payload: InitPayloadView::InitOk,
                    },
                },
            ),
        ),
        InitPayloadView::InitOk => Err(FaultView::ProtocolViolation("expected init as first message"@)),
    }
}

/// The mathematical value of what [`init_node`] returns.
pub open spec fn handshake_view(r: Result<(Init, Message<InitPayload>), Fault>) -> Result<
    (Identity, Envelope<InitPayloadView>),
    FaultView,
> {
    match r {
        Ok((init, reply)) => Ok((init@, reply@)),
        Err(fault) => Err(fault@),
    }
}

/// Performs the handshake on the first inbound message: gives the node's
/// identity and the acknowledgement to write, or fails where the message is
/// not an `init`.
pub fn init_node(first: Message<InitPayload>) -> (r: Result<(Init, Message<InitPayload>), Fault>)
    ensures
        handshake_view(r) == handshake(first@),
        r is Ok <==> first.body.payload is Init,
        r matches Ok((init, reply)) ==> {
            &&& first.body.payload == InitPayload::Init(init)
            &&& reply.src == first.dst
            &&& reply.dst == first.src
            &&& reply.body.id == Some(0usize)
            &&& reply.body.in_reply_to == first.body.id
            &&& reply.body.payload is InitOk
        },
        r matches Err(fault) ==> fault@ == FaultView::ProtocolViolation(
            "expected init as first message"@,
        ),
{
    match first.body.payload {
        InitPayload::Init(init) => {
            let reply = Message {
                src: first.dst,
                dst: first.src,
                body: MessageBody {
                    id: Some(0),
                    in_reply_to: first.body.id,
                    payload: InitPayload::InitOk,
                },
            };
            Ok((init, reply))
        },
        InitPayload::InitOk => Err(
            Fault::ProtocolViolation("expected init as first message".to_owned()),
        ),
    }
}

} // verus!

//! The unique-id node: it answers every `generate` with a `generate_ok` that
//! carries an identifier no other answer of the cluster carries.

use crate::decimal::{decimal, decimal_text, lemma_decimal_injective};
use crate::error::{Fault, FaultView};
use crate::init::{Identity, Init};
use crate::json::{
    find, lemma_lookup_concat, lemma_lookup_none, lookup, members_view, Document, Json, Members,
};
use crate::message::{
    Body, Envelope, Message, MessageBody, MessageIdentifier, NodeIdentifier, Payload,
};
use crate::node::{course, exhausted, next_identifier, Node, Outbox, Reaction};
use vstd::prelude::*;
use vstd::string::StringExecFns;

verus! {

/// The payloads of the unique-id workload.
#[derive(Debug, Clone, PartialEq, Eq)]
pub enum UniqueIdPayload {
    Generate,
    GenerateOk { id: String },
}

/// The mathematical value of a [`UniqueIdPayload`].
pub enum UniqueIdPayloadView {
    Generate,
    GenerateOk { id: Seq<char> },
}

impl View for UniqueIdPayload {
    type V = UniqueIdPayloadView;

    open spec fn view(&self) -> UniqueIdPayloadView {
        match self {
            UniqueIdPayload::Generate => UniqueIdPayloadView::Generate,
            UniqueIdPayload::GenerateOk { id } => UniqueIdPayloadView::GenerateOk { id: id@ },
        }
    }
}

/// The names and tags of the unique-id workload differ from one another and
/// from the reserved names.
pub proof fn lemma_unique_id_names()
    ensures
        "id"@ != "type"@,
        "id"@ != "msg_id"@,
        "id"@ != "in_reply_to"@,
        "generate"@ != "generate_ok"@,
        "type"@ != "msg_id"@,
        "type"@ != "in_reply_to"@,
{
    reveal_strlit("id");
    reveal_strlit("generate");
    reveal_strlit("generate_ok");
    reveal_strlit("type");
    reveal_strlit("msg_id");
    reveal_strlit("in_reply_to");
    assert("id"@.len() == 2);
    assert("type"@.len() == 4);
    assert("generate"@.len() == 8);
    assert("generate_ok"@.len() == 11);
    assert("msg_id"@.len() == 6);
    assert("in_reply_to"@.len() == 11);
}

impl Payload for UniqueIdPayload {
    open spec fn members_of(payload: UniqueIdPayloadView) -> Members {
        match payload {
            UniqueIdPayloadView::Generate => seq![("type"@, Document::Text("generate"@))],
            UniqueIdPayloadView::GenerateOk { id } => seq![
                ("type"@, Document::Text("generate_ok"@)),
                ("id"@, Document::Text(id)),
            ],
        }
    }

    open spec fn payload_of(members: Members) -> Option<UniqueIdPayloadView> {
        match lookup(members, "type"@) {
            Some(Document::Text(tag)) => if tag == "generate"@ {
                Some(UniqueIdPayloadView::Generate)
            } else if tag == "generate_ok"@ {
                match lookup(members, "id"@) {
                    Some(Document::Text(id)) => Some(UniqueIdPayloadView::GenerateOk { id }),
                    _ => None,
                }
            } else {
                None
            },
            _ => None,
        }
    }

    fn to_members(&self) -> (members: Vec<(String, Json)>) {
        let mut members: Vec<(String, Json)> = Vec::new();
        match self {
            UniqueIdPayload::Generate => {
                members.push(("type".to_owned(), Json::Text("generate".to_owned())));
            },
            UniqueIdPayload::GenerateOk { id } => {
                members.push(("type".to_owned(), Json::Text("generate_ok".to_owned())));
                members.push(("id".to_owned(), Json::Text(id.clone())));
            },
        }
        members
    }

    fn from_members(members: &Vec<(String, Json)>) -> (r: Option<Self>) {
        let tag = match find(members, "type") {
            Some(Json::Text(tag)) => tag,
            _ => return None,
        };
        if *tag == "generate".to_owned() {
            Some(UniqueIdPayload::Generate)
        } else if *tag == "generate_ok".to_owned() {
            match find(members, "id") {
                Some(Json::Text(id)) => Some(UniqueIdPayload::GenerateOk { id: id.clone() }),
                _ => None,
            }
        } else {
            None
        }
    }

    proof fn lemma_members(payload: UniqueIdPayloadView) {
        lemma_unique_id_names();
        reveal_with_fuel(lookup, 3);
    }

    proof fn lemma_tagged(members: Members) {
    }

    proof fn lemma_read_back(payload: UniqueIdPayloadView, before: Members) {
        lemma_unique_id_names();
        let written = Self::members_of(payload);
        lemma_lookup_none(before, "type"@);
        lemma_lookup_none(before, "id"@);
        lemma_lookup_concat(before, written, "type"@);
        lemma_lookup_concat(before, written, "id"@);
        reveal_with_fuel(lookup, 3);
    }
}

/// The identifier that the node named `node` generates with its counter at
/// `count`: the name, a hyphen, and the count in decimal.
pub open spec fn unique_id(node: Seq<char>, count: nat) -> Seq<char> {
    node + "-"@ + decimal(count)
}

/// One node never generates the same identifier at two counts.
pub proof fn lemma_unique_id_injective(node: Seq<char>, a: nat, b: nat)
    requires
        unique_id(node, a) == unique_id(node, b),
    ensures
        a == b,
{
    let prefix = node + "-"@;
    assert((prefix + decimal(a)).subrange(prefix.len() as int, (prefix + decimal(a)).len() as int)
        =~= decimal(a));
    assert((prefix + decimal(b)).subrange(prefix.len() as int, (prefix + decimal(b)).len() as int)
        =~= decimal(b));
    assert(decimal(a).len() == decimal(b).len());
    lemma_decimal_injective(a, b);
}

/// A unique-id node: its own name and the identifier of its next message.
pub struct UniqueIdNode {
    pub id: NodeIdentifier,
    pub message_id: MessageIdentifier,
}

/// The mathematical value of a [`UniqueIdNode`].
pub struct UniqueIdNodeView {
    pub id: Seq<char>,
    pub message_id: MessageIdentifier,
}

impl View for UniqueIdNode {
    type V = UniqueIdNodeView;

    open spec fn view(&self) -> UniqueIdNodeView {
        UniqueIdNodeView { id: self.id@, message_id: self.message_id }
    }
}

/// A unique-id node numbers the messages it originates without gap or
/// repeat: over any inbound messages, the `k`-th message that a node sends
/// carries the identifier that its counter held at the start, plus `k`, and
/// the generated identifier made of that count; and a node that has not failed
/// holds its first counter plus the number of messages sent. A node that was
/// just built starts at `0`.
pub proof fn law_unique_id_identifiers(
    node: UniqueIdNodeView,
    messages: Seq<Envelope<UniqueIdPayloadView>>,
)
    ensures
        forall|k: int|
            0 <= k < course::<UniqueIdNode>(node, messages).sent.len() ==> {
                let sent = #[trigger] course::<UniqueIdNode>(node, messages).sent[k];
                &&& node.message_id + k < usize::MAX
                &&& sent.body.id == Some((node.message_id + k) as usize)
                &&& sent.body.payload == UniqueIdPayloadView::GenerateOk {
                    id: unique_id(node.id, (node.message_id + k) as nat),
                }
            },
        course::<UniqueIdNode>(node, messages).failure is None ==> {
            &&& course::<UniqueIdNode>(node, messages).next.id == node.id
            &&& course::<UniqueIdNode>(node, messages).next.message_id == node.message_id
                + course::<UniqueIdNode>(node, messages).sent.len()
        },
    decreases messages.len(),
{
    if messages.len() > 0 {
        let first = UniqueIdNode::reaction(node, messages[0]);
        if first.failure is None {
            law_unique_id_identifiers(first.next, messages.drop_first());
            let rest = course::<UniqueIdNode>(first.next, messages.drop_first());
            let whole = course::<UniqueIdNode>(node, messages);
            assert(whole.sent == first.sent + rest.sent);
            assert forall|k: int| 0 <= k < whole.sent.len() implies {
                let sent = #[trigger] whole.sent[k];
                &&& node.message_id + k < usize::MAX
                &&& sent.body.id == Some((node.message_id + k) as usize)
                &&& sent.body.payload == UniqueIdPayloadView::GenerateOk {
                    id: unique_id(node.id, (node.message_id + k) as nat),
                }
            } by {
                if k >= first.sent.len() {
                    assert(whole.sent[k] == rest.sent[k - first.sent.len()]);
                }
            }
        }
    }
}

/// No two answers of one node carry the same generated identifier.
pub proof fn law_generated_identifiers_differ(
    node: UniqueIdNodeView,
    messages: Seq<Envelope<UniqueIdPayloadView>>,
    i: int,
    j: int,
)
    requires
        0 <= i < j < course::<UniqueIdNode>(node, messages).sent.len(),
    ensures
        course::<UniqueIdNode>(node, messages).sent[i].body.payload != course::<UniqueIdNode>(
            node,
            messages,
        ).sent[j].body.payload,
{
    law_unique_id_identifiers(node, messages);
    let sent = course::<UniqueIdNode>(node, messages).sent;
    let a = (node.message_id + i) as nat;
    let b = (node.message_id + j) as nat;
    assert(sent[i].body.payload == UniqueIdPayloadView::GenerateOk { id: unique_id(node.id, a) });
    assert(sent[j].body.payload == UniqueIdPayloadView::GenerateOk { id: unique_id(node.id, b) });
    if unique_id(node.id, a) == unique_id(node.id, b) {
        lemma_unique_id_injective(node.id, a, b);
    }
}

impl Node for UniqueIdNode {
    type Payload = UniqueIdPayload;

    open spec fn created(identity: Identity) -> Result<UniqueIdNodeView, FaultView> {
        Ok(UniqueIdNodeView { id: identity.node_id, message_id: 0 })
    }

    open spec fn reaction(
        node: UniqueIdNodeView,
        message: Envelope<UniqueIdPayloadView>,
    ) -> Reaction<UniqueIdNodeView, UniqueIdPayloadView> {
        match message.body.payload {
            UniqueIdPayloadView::Generate => if node.message_id < usize::MAX {
                Reaction {
                    next: UniqueIdNodeView {
                        id: node.id,
                        message_id: (node.message_id + 1) as usize,
                    },
                    sent: seq![
                        Envelope {
                            src: node.id,
                            dst: message.src,
                            body: Body {
                                id: Some(node.message_id),
                                in_reply_to: message.body.id,
                                payload: UniqueIdPayloadView::GenerateOk {
                                    id: unique_id(node.id, node.message_id as nat),
                                },
                            },
                        },
                    ],
                    failure: None,
                }
            } else {
                Reaction { next: node, sent: Seq::empty(), failure: Some(exhausted()) }
            },
            UniqueIdPayloadView::GenerateOk { .. } => Reaction {
                next: node,
                sent: Seq::empty(),
                failure: None,
            },
        }
    }

    fn from_init(init: Init) -> (r: Result<Self, Fault>) {
        Ok(UniqueIdNode { id: init.node_id, message_id: 0 })
    }

    fn handle(&mut self, message: Message<UniqueIdPayload>, tx: &mut Outbox<UniqueIdPayload>) -> (r:
        Result<(), Fault>) {
        if let UniqueIdPayload::Generate = message.body.payload {
            let count = match next_identifier(&mut self.message_id) {
                Ok(count) => count,
                Err(fault) => return Err(fault),
            };
            let mut id = self.id.clone();
            id.append("-");
            id.append(decimal_text(count).as_str());
            tx.send(
                Message {
                    src: self.id.clone(),
                    dst: message.src,
                    body: MessageBody {
                        id: Some(count),
                        in_reply_to: message.body.id,
                        payload: UniqueIdPayload::GenerateOk { id },
                    },
                },
            );
        }
        Ok(())
    }
}

} // verus!

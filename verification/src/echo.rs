//! The echo node: it answers every `echo` with an `echo_ok` that carries the
//! same text.

use crate::error::{Fault, FaultView};
use crate::init::{Identity, Init};
use crate::json::{
    find, lemma_lookup_concat, lemma_lookup_none, lookup, members_view, Document, Json, Members,
};
use crate::message::{
    Body, Envelope, Message, MessageBody, MessageIdentifier, NodeIdentifier, Payload,
};
use crate::node::{course, exhausted, next_identifier, Node, Outbox, Reaction};
use vstd::prelude::*;

verus! {

/// The payloads of the echo workload.
#[derive(Debug, Clone, PartialEq, Eq)]
pub enum EchoPayload {
    Echo { echo: String },
    EchoOk { echo: String },
}

/// The mathematical value of an [`EchoPayload`].
pub enum EchoPayloadView {
    Echo { echo: Seq<char> },
    EchoOk { echo: Seq<char> },
}

impl View for EchoPayload {
    type V = EchoPayloadView;

    open spec fn view(&self) -> EchoPayloadView {
        match self {
            EchoPayload::Echo { echo } => EchoPayloadView::Echo { echo: echo@ },
            EchoPayload::EchoOk { echo } => EchoPayloadView::EchoOk { echo: echo@ },
        }
    }
}

/// The names and tags of the echo workload differ from one another and from
/// the reserved names.
pub proof fn lemma_echo_names()
    ensures
        "echo"@ != "type"@,
        "echo"@ != "msg_id"@,
        "echo"@ != "in_reply_to"@,
        "echo"@ != "echo_ok"@,
        "type"@ != "msg_id"@,
        "type"@ != "in_reply_to"@,
{
    reveal_strlit("echo");
    reveal_strlit("echo_ok");
    reveal_strlit("type");
    reveal_strlit("msg_id");
    reveal_strlit("in_reply_to");
    assert("echo"@.len() == 4 && "echo"@[0] == 'e');
    assert("type"@.len() == 4 && "type"@[0] == 't');
    assert("echo_ok"@.len() == 7);
    assert("msg_id"@.len() == 6);
    assert("in_reply_to"@.len() == 11);
}

impl Payload for EchoPayload {
    open spec fn members_of(payload: EchoPayloadView) -> Members {
        match payload {
            EchoPayloadView::Echo { echo } => seq![
                ("type"@, Document::Text("echo"@)),
                ("echo"@, Document::Text(echo)),
            ],
            EchoPayloadView::EchoOk { echo } => seq![
                ("type"@, Document::Text("echo_ok"@)),
                ("echo"@, Document::Text(echo)),
            ],
        }
    }

    open spec fn payload_of(members: Members) -> Option<EchoPayloadView> {
        match lookup(members, "type"@) {
            Some(Document::Text(tag)) => match lookup(members, "echo"@) {
                Some(Document::Text(echo)) => if tag == "echo"@ {
                    Some(EchoPayloadView::Echo { echo })
                } else if tag == "echo_ok"@ {
                    Some(EchoPayloadView::EchoOk { echo })
                } else {
                    None
                },
                _ => None,
            },
            _ => None,
        }
    }

    fn to_members(&self) -> (members: Vec<(String, Json)>) {
        let mut members: Vec<(String, Json)> = Vec::new();
        match self {
            EchoPayload::Echo { echo } => {
                members.push(("type".to_owned(), Json::Text("echo".to_owned())));
                members.push(("echo".to_owned(), Json::Text(echo.clone())));
            },
            EchoPayload::EchoOk { echo } => {
                members.push(("type".to_owned(), Json::Text("echo_ok".to_owned())));
                members.push(("echo".to_owned(), Json::Text(echo.clone())));
            },
        }
        members
    }

    fn from_members(members: &Vec<(String, Json)>) -> (r: Option<Self>) {
        let tag = match find(members, "type") {
            Some(Json::Text(tag)) => tag,
            _ => return None,
        };
        let echo = match find(members, "echo") {
            Some(Json::Text(text)) => text.clone(),
            _ => return None,
        };
        if *tag == "echo".to_owned() {
            Some(EchoPayload::Echo { echo })
        } else if *tag == "echo_ok".to_owned() {
            Some(EchoPayload::EchoOk { echo })
        } else {
            None
        }
    }

    proof fn lemma_members(payload: EchoPayloadView) {
        lemma_echo_names();
        reveal_with_fuel(lookup, 3);
    }

    proof fn lemma_tagged(members: Members) {
    }

    proof fn lemma_read_back(payload: EchoPayloadView, before: Members) {
        lemma_echo_names();
        let written = Self::members_of(payload);
        lemma_lookup_none(before, "type"@);
        lemma_lookup_none(before, "echo"@);
        lemma_lookup_concat(before, written, "type"@);
        lemma_lookup_concat(before, written, "echo"@);
        reveal_with_fuel(lookup, 3);
    }
}

/// An echo node: its own name and the identifier of its next message.
pub struct EchoNode {
    pub id: NodeIdentifier,
    pub message_id: MessageIdentifier,
}

/// The mathematical value of an [`EchoNode`].
pub struct EchoNodeView {
    pub id: Seq<char>,
    pub message_id: MessageIdentifier,
}

impl View for EchoNode {
    type V = EchoNodeView;

    open spec fn view(&self) -> EchoNodeView {
        EchoNodeView { id: self.id@, message_id: self.message_id }
    }
}

/// An echo node numbers the messages it originates without gap or repeat:
/// over any inbound messages, the `k`-th message that a node sends carries the
/// identifier that its counter held at the start, plus `k`; and a node that
/// has not failed holds its first counter plus the number of messages sent.
/// A node that was just built starts at `0`.
pub proof fn law_echo_identifiers(node: EchoNodeView, messages: Seq<Envelope<EchoPayloadView>>)
    ensures
        forall|k: int|
            0 <= k < course::<EchoNode>(node, messages).sent.len() ==> (
            #[trigger] course::<EchoNode>(node, messages).sent[k]).body.id == Some(
                (node.message_id + k) as usize,
            ) && node.message_id + k < usize::MAX,
        course::<EchoNode>(node, messages).failure is None ==> course::<EchoNode>(
            node,
            messages,
        ).next.message_id == node.message_id + course::<EchoNode>(node, messages).sent.len(),
    decreases messages.len(),
{
    if messages.len() > 0 {
        let first = EchoNode::reaction(node, messages[0]);
        if first.failure is None {
            law_echo_identifiers(first.next, messages.drop_first());
            let rest = course::<EchoNode>(first.next, messages.drop_first());
            let whole = course::<EchoNode>(node, messages);
            assert(whole.sent == first.sent + rest.sent);
            assert forall|k: int| 0 <= k < whole.sent.len() implies (#[trigger] whole.sent[k]).body.id
                == Some((node.message_id + k) as usize) && node.message_id + k < usize::MAX by {
                if k >= first.sent.len() {
                    assert(whole.sent[k] == rest.sent[k - first.sent.len()]);
                }
            }
        }
    }
}

impl Node for EchoNode {
    type Payload = EchoPayload;

    open spec fn created(identity: Identity) -> Result<EchoNodeView, FaultView> {
        Ok(EchoNodeView { id: identity.node_id, message_id: 0 })
    }

    open spec fn reaction(node: EchoNodeView, message: Envelope<EchoPayloadView>) -> Reaction<
        EchoNodeView,
        EchoPayloadView,
    > {
        match message.body.payload {
            EchoPayloadView::Echo { echo } => if node.message_id < usize::MAX {
                Reaction {
                    next: EchoNodeView { id: node.id, message_id: (node.message_id + 1) as usize },
                    sent: seq![
                        Envelope {
                            src: node.id,
                            dst: message.src,
                            body: Body {
                                id: Some(node.message_id),
                                in_reply_to: message.body.id,
                                payload: EchoPayloadView::EchoOk { echo },
                            },
                        },
                    ],
                    failure: None,
                }
            } else {
                Reaction { next: node, sent: Seq::empty(), failure: Some(exhausted()) }
            },
            EchoPayloadView::EchoOk { .. } => Reaction {
                next: node,
                sent: Seq::empty(),
                failure: None,
            },
        }
    }

    fn from_init(init: Init) -> (r: Result<Self, Fault>) {
        Ok(EchoNode { id: init.node_id, message_id: 0 })
    }

    fn handle(&mut self, message: Message<EchoPayload>, tx: &mut Outbox<EchoPayload>) -> (r: Result<
        (),
        Fault,
    >) {
        if let EchoPayload::Echo { echo } = message.body.payload {
            let id = match next_identifier(&mut self.message_id) {
                Ok(id) => id,
                Err(fault) => return Err(fault),
            };
            tx.send(
                Message {
                    src: self.id.clone(),
                    dst: message.src,
                    body: MessageBody {
                        id: Some(id),
                        in_reply_to: message.body.id,
                        payload: EchoPayload::EchoOk { echo },
                    },
                },
            );
        }
        Ok(())
    }
}

} // verus!

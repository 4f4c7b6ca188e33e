//! The contract between the runtime and a node's logic.
//!
//! A node is built once from its identity. From then on it is handed inbound
//! messages one at a time, in the order of an [`Inbox`], and submits what it
//! sends to an [`Outbox`]. What it does with a message is a function of its
//! state and the message: its [`Node::reaction`].

use crate::error::{verdict, Fault, FaultView};
use crate::init::{Identity, Init};
use crate::message::{envelopes, Envelope, Message, MessageIdentifier, Payload};
use std::collections::VecDeque;
use vstd::prelude::*;

verus! {

/// The inbound messages that a node has not taken yet, oldest first.
pub struct Inbox<P> {
    pending: VecDeque<Message<P>>,
}

impl<P: View> View for Inbox<P> {
    type V = Seq<Envelope<P::V>>;

    closed spec fn view(&self) -> Seq<Envelope<P::V>> {
        envelopes(self.pending@)
    }
}

impl<P: View> Inbox<P> {
    /// An inbox with nothing in it.
    pub fn new() -> (inbox: Self)
        ensures
            inbox@ == Seq::<Envelope<P::V>>::empty(),
    {
        let inbox = Inbox { pending: VecDeque::new() };
        inbox
    }

    /// Delivers a message: it will be taken after all that were delivered
    /// before it.
    pub fn deliver(&mut self, message: Message<P>)
        ensures
            final(self)@ == old(self)@.push(message@),
    {
        self.pending.push_back(message);
    }

    /// Takes the oldest message, if there is one.
    pub fn next(&mut self) -> (r: Option<Message<P>>)
        ensures
            match r {
                Some(message) => old(self)@.len() > 0 && message@ == old(self)@[0] && final(self)@
                    == old(self)@.drop_first(),
                None => old(self)@.len() == 0 && final(self)@ == old(self)@,
            },
    {
        self.pending.pop_front()
    }
}

/// The messages that a node has submitted, in the order of submission.
pub struct Outbox<P> {
    submitted: Vec<Message<P>>,
}

impl<P: View> View for Outbox<P> {
    type V = Seq<Envelope<P::V>>;

    closed spec fn view(&self) -> Seq<Envelope<P::V>> {
        envelopes(self.submitted@)
    }
}

impl<P: View> Outbox<P> {
    /// An outbox with nothing in it.
    pub fn new() -> (outbox: Self)
        ensures
            outbox@ == Seq::<Envelope<P::V>>::empty(),
    {
        let outbox = Outbox { submitted: Vec::new() };
        outbox
    }

    /// Submits a message: it goes out after all that were submitted before it.
    /// Submitting never waits and never fails.
    pub fn send(&mut self, message: Message<P>)
        ensures
            final(self)@ == old(self)@.push(message@),
    {
        self.submitted.push(message);
    }

    /// Hands out what was submitted, first submitted first.
    pub fn into_messages(self) -> (messages: Vec<Message<P>>)
        ensures
            envelopes(messages@) == self@,
    {
        self.submitted
    }
}

/// What a node does with inbound messages: the state it is in afterwards, what
/// it has submitted, and the failure that stopped it, if one did.
pub struct Reaction<N, P> {
    pub next: N,
    pub sent: Seq<Envelope<P>>,
    pub failure: Option<FaultView>,
}

/// A node's logic.
pub trait Node: View + Sized {
    /// The payloads that the node understands and sends.
    type Payload: Payload;

    /// The node that an identity gives, or the failure to build one.
    spec fn created(identity: Identity) -> Result<Self::V, FaultView>;

    /// What the node does with one inbound message.
    spec fn reaction(node: Self::V, message: Envelope<<Self::Payload as View>::V>) -> Reaction<
        Self::V,
        <Self::Payload as View>::V,
    >;

    /// Builds the node from the identity that the handshake gave.
    fn from_init(init: Init) -> (r: Result<Self, Fault>)
        ensures
            verdict(r) == Self::created(init@),
    ;

    /// Reacts to one inbound message: submits what the node sends for it, and
    /// moves the node on.
    fn handle(&mut self, message: Message<Self::Payload>, tx: &mut Outbox<Self::Payload>) -> (r:
        Result<(), Fault>)
        ensures
            final(tx)@ == old(tx)@ + Self::reaction(old(self)@, message@).sent,
            match r {
                Ok(()) => {
                    &&& Self::reaction(old(self)@, message@).failure is None
                    &&& final(self)@ == Self::reaction(old(self)@, message@).next
                },
                Err(fault) => Self::reaction(old(self)@, message@).failure == Some(fault@),
            },
    ;
}

/// What a node does with a list of inbound messages: it reacts to each in
/// turn, and stops at the first that makes it fail.
pub open spec fn course<N: Node>(
    node: N::V,
    messages: Seq<Envelope<<N::Payload as View>::V>>,
) -> Reaction<N::V, <N::Payload as View>::V>
    decreases messages.len(),
{
    if messages.len() == 0 {
        Reaction { next: node, sent: Seq::empty(), failure: None }
    } else {
        let first = N::reaction(node, messages[0]);
        if first.failure is Some {
            first
        } else {
            let rest = course::<N>(first.next, messages.drop_first());
            Reaction { next: rest.next, sent: first.sent + rest.sent, failure: rest.failure }
        }
    }
}

/// Runs a node on its inbox: takes the messages in order, until the inbox is
/// empty or a message makes the node fail, and has the node react to each.
pub fn run<N: Node>(node: &mut N, rx: &mut Inbox<N::Payload>, tx: &mut Outbox<N::Payload>) -> (r:
    Result<(), Fault>)
    ensures
        final(tx)@ == old(tx)@ + course::<N>(old(node)@, old(rx)@).sent,
        match r {
            Ok(()) => {
                &&& course::<N>(old(node)@, old(rx)@).failure is None
                &&& final(node)@ == course::<N>(old(node)@, old(rx)@).next
                &&& final(rx)@.len() == 0
            },
            Err(fault) => course::<N>(old(node)@, old(rx)@).failure == Some(fault@),
        },
{
    let ghost mut done: Seq<Envelope<<N::Payload as View>::V>> = Seq::empty();
    loop
        invariant
            tx@ == old(tx)@ + done,
            course::<N>(old(node)@, old(rx)@).failure == course::<N>(node@, rx@).failure,
            course::<N>(old(node)@, old(rx)@).next == course::<N>(node@, rx@).next,
            course::<N>(old(node)@, old(rx)@).sent == done + course::<N>(node@, rx@).sent,
        decreases rx@.len(),
    {
        let ghost before = node@;
        let ghost pending = rx@;
        match rx.next() {
            None => {
                return Ok(());
            },
            Some(message) => {
                let r = node.handle(message, tx);
                proof {
                    done = done + N::reaction(before, pending[0]).sent;
                }
                match r {
                    Ok(()) => {},
                    Err(fault) => {
                        return Err(fault);
                    },
                }
            },
        }
    }
}

/// The failure of a node whose counter has no identifier left.
pub open spec fn exhausted() -> FaultView {
    FaultView::NodeLogicFailure("message identifiers exhausted"@)
}

/// Takes the next identifier from a node's counter and moves the counter on
/// by one. It fails, and leaves the counter as it is, where moving on would
/// pass the largest identifier: no identifier is ever given twice.
pub fn next_identifier(counter: &mut MessageIdentifier) -> (r: Result<MessageIdentifier, Fault>)
    ensures
        match r {
            Ok(id) => id == *old(counter) && *final(counter) == id + 1,
            Err(fault) => *old(counter) == usize::MAX && *final(counter) == *old(counter)
                && fault@ == exhausted(),
        },
{
    if *counter < usize::MAX {
        let id = *counter;
        *counter = id + 1;
        Ok(id)
    } else {
        Err(Fault::NodeLogicFailure("message identifiers exhausted".to_owned()))
    }
}

} // verus!

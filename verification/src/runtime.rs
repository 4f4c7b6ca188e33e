//! The node runtime: the life of a node process as a state machine.
//!
//! A process goes through five states, always forward: uninitialized,
//! awaiting the handshake, handshake acknowledged, running, terminated. What
//! happens outside (a line arrives, the input ends, the acknowledgement has
//! been written, reading or writing fails) comes in as an [`Event`];
//! [`Runtime::step`] answers with the next state, the lines to write and
//! whether the process goes on. [`run_node`] drives a whole process over the
//! lines of an input that has ended.

use crate::codec::{decode, decoded, encode, encode_all, encoded, encoded_all, single_lines};
use crate::error::{Fault, FaultView};
use crate::init::{handshake, init_node, Identity, Init, InitPayload};
use crate::message::{texts, Envelope, Payload};
use crate::node::{course, run, Inbox, Node, Outbox};
use vstd::prelude::*;

verus! {

/// A node process: the state it is in, and what it holds in that state.
pub enum Runtime<N> {
    /// Nothing has happened yet.
    Uninitialized,
    /// The input is open; the first message has not arrived.
    AwaitingHandshake,
    /// The first message was an `init`: the identity is known and the
    /// acknowledgement has been handed out for writing.
    HandshakeAcknowledged(Init),
    /// The node has been built and takes the inbound messages.
    Running(N),
    /// The process has ended.
    Terminated,
}

/// The mathematical value of a [`Runtime`].
pub enum Phase<N> {
    Uninitialized,
    AwaitingHandshake,
    HandshakeAcknowledged(Identity),
    Running(N),
    Terminated,
}

impl<N: View> View for Runtime<N> {
    type V = Phase<N::V>;

    open spec fn view(&self) -> Phase<N::V> {
        match self {
            Runtime::Uninitialized => Phase::Uninitialized,
            Runtime::AwaitingHandshake => Phase::AwaitingHandshake,
            Runtime::HandshakeAcknowledged(init) => Phase::HandshakeAcknowledged(init@),
            Runtime::Running(node) => Phase::Running(node@),
            Runtime::Terminated => Phase::Terminated,
        }
    }
}

/// What happens to a node process from outside.
#[derive(Debug, Clone, PartialEq, Eq)]
pub enum Event {
    /// The input has been opened.
    Started,
    /// A line has arrived, here without its end.
    Line(String),
    /// The input has ended.
    EndOfInput,
    /// The lines handed out so far have been written.
    Written,
    /// Reading the input or writing the output has failed.
    Failure(String),
}

/// The mathematical value of an [`Event`].
pub enum EventView {
    Started,
    Line(Seq<char>),
    EndOfInput,
    Written,
    Failure(Seq<char>),
}

impl View for Event {
    type V = EventView;

    open spec fn view(&self) -> EventView {
        match self {
            Event::Started => EventView::Started,
            Event::Line(line) => EventView::Line(line@),
            Event::EndOfInput => EventView::EndOfInput,
            Event::Written => EventView::Written,
            Event::Failure(text) => EventView::Failure(text@),
        }
    }
}

/// Whether the process goes on after a step.
#[derive(Debug, Clone, PartialEq, Eq)]
pub enum Verdict {
    /// It goes on and waits for the next event.
    Continue,
    /// It has ended cleanly.
    Finished,
    /// It has ended with a fault.
    Failed(Fault),
    /// The state has no transition for the event: nothing has changed.
    Undefined,
}

/// The mathematical value of a [`Verdict`].
pub enum VerdictView {
    Continue,
    Finished,
    Failed(FaultView),
    Undefined,
}

impl View for Verdict {
    type V = VerdictView;

    open spec fn view(&self) -> VerdictView {
        match self {
            Verdict::Continue => VerdictView::Continue,
            Verdict::Finished => VerdictView::Finished,
            Verdict::Failed(fault) => VerdictView::Failed(fault@),
            Verdict::Undefined => VerdictView::Undefined,
        }
    }
}

/// The answer to an event: the next state, the lines to write, in order, and
/// the verdict.
pub struct Step<N> {
    pub state: Runtime<N>,
    pub lines: Vec<String>,
    pub verdict: Verdict,
}

/// The mathematical value of a [`Step`].
pub struct StepView<N> {
    pub state: Phase<N>,
    pub lines: Seq<Seq<char>>,
    pub verdict: VerdictView,
}

impl<N: View> View for Step<N> {
    type V = StepView<N::V>;

    open spec fn view(&self) -> StepView<N::V> {
        StepView { state: self.state@, lines: texts(self.lines@), verdict: self.verdict@ }
    }
}

/// The step that ends the process with a fault, after writing `lines`.
pub open spec fn halted<N>(lines: Seq<Seq<char>>, fault: FaultView) -> StepView<N> {
    StepView { state: Phase::Terminated, lines, verdict: VerdictView::Failed(fault) }
}

/// The step that goes on in `state`, after writing `lines`.
pub open spec fn onward<N>(state: Phase<N>, lines: Seq<Seq<char>>) -> StepView<N> {
    StepView { state, lines, verdict: VerdictView::Continue }
}

/// The step of a state that has no transition for an event.
pub open spec fn unmoved<N>(state: Phase<N>) -> StepView<N> {
    StepView { state, lines: Seq::empty(), verdict: VerdictView::Undefined }
}

/// The step on the first line: the handshake.
pub open spec fn greeted<N>(line: Seq<char>) -> StepView<N> {
    match decoded::<InitPayload>(line) {
        Err(cause) => halted(Seq::empty(), FaultView::MalformedEnvelope { line, cause }),
        Ok(first) => match handshake(first) {
            Err(fault) => halted(Seq::empty(), fault),
            Ok((identity, reply)) => onward(
                Phase::HandshakeAcknowledged(identity),
                seq![encoded::<InitPayload>(reply)],
            ),
        },
    }
}

/// The step once the acknowledgement is written: the node is built.
pub open spec fn launched<N: Node>(identity: Identity) -> StepView<N::V> {
    match N::created(identity) {
        Ok(node) => onward(Phase::Running(node), Seq::empty()),
        Err(fault) => halted(Seq::empty(), fault),
    }
}

/// The step on a line that arrives at a running node.
pub open spec fn served<N: Node>(node: N::V, line: Seq<char>) -> StepView<N::V> {
    match decoded::<N::Payload>(line) {
        Err(cause) => halted(Seq::empty(), FaultView::MalformedEnvelope { line, cause }),
        Ok(message) => {
            let reaction = N::reaction(node, message);
            let lines = encoded_all::<N::Payload>(reaction.sent);
            match reaction.failure {
                Some(fault) => halted(lines, fault),
                None => onward(Phase::Running(reaction.next), lines),
            }
        },
    }
}

/// The transition function of a node process.
pub open spec fn next<N: Node>(state: Phase<N::V>, event: EventView) -> StepView<N::V> {
    match (state, event) {
        (Phase::Terminated, _) => unmoved(state),
        (_, EventView::Failure(text)) => halted(Seq::empty(), FaultView::IoFailure(text)),
        (Phase::Uninitialized, EventView::Started) => onward(
            Phase::AwaitingHandshake,
            Seq::empty(),
        ),
        (Phase::AwaitingHandshake, EventView::Line(line)) => greeted(line),
        (Phase::AwaitingHandshake, EventView::EndOfInput) => halted(
            Seq::empty(),
            FaultView::ProtocolViolation("missing init message"@),
        ),
        (Phase::HandshakeAcknowledged(identity), EventView::Written) => launched::<N>(identity),
        (Phase::Running(node), EventView::Line(line)) => served::<N>(node, line),
        (Phase::Running(_), EventView::EndOfInput) => StepView {
            state: Phase::Terminated,
            lines: Seq::empty(),
            verdict: VerdictView::Finished,
        },
        _ => unmoved(state),
    }
}

/// How far a process has come: the states in the order of a process's life.
pub open spec fn progress<N>(state: Phase<N>) -> nat {
    match state {
        Phase::Uninitialized => 0,
        Phase::AwaitingHandshake => 1,
        Phase::HandshakeAcknowledged(_) => 2,
        Phase::Running(_) => 3,
        Phase::Terminated => 4,
    }
}

/// A process only moves forward: no event takes it back to an earlier state,
/// a verdict other than `Continue` leaves it where it was or terminated, and a
/// terminated process stays terminated, writes nothing and fails no more.
pub proof fn law_forward_progress<N: Node>(state: Phase<N::V>, event: EventView)
    ensures
        progress(next::<N>(state, event).state) >= progress(state),
        next::<N>(state, event).verdict is Undefined ==> next::<N>(state, event).state == state,
        next::<N>(state, event).verdict is Finished || next::<N>(state, event).verdict is Failed
            ==> next::<N>(state, event).state is Terminated,
        state is Terminated ==> next::<N>(state, event) == unmoved(state),
{
}

/// Whether a line is an envelope written out: of the handshake, or of the
/// node's payloads.
pub open spec fn is_envelope_line<N: Node>(line: Seq<char>) -> bool {
    ||| exists|envelope: Envelope<<InitPayload as View>::V>|
        line == encoded::<InitPayload>(envelope)
    ||| exists|envelope: Envelope<<N::Payload as View>::V>|
        line == encoded::<N::Payload>(envelope)
}

/// Nothing but envelopes is ever handed out for writing.
pub proof fn law_only_envelopes_are_written<N: Node>(state: Phase<N::V>, event: EventView, i: int)
    requires
        0 <= i < next::<N>(state, event).lines.len(),
    ensures
        is_envelope_line::<N>(next::<N>(state, event).lines[i]),
{
    match (state, event) {
        (Phase::AwaitingHandshake, EventView::Line(line)) => {
            let reply = handshake(decoded::<InitPayload>(line)->Ok_0)->Ok_0.1;
            assert(next::<N>(state, event).lines[i] == encoded::<InitPayload>(reply));
        },
        (Phase::Running(node), EventView::Line(line)) => {
            let sent = N::reaction(node, decoded::<N::Payload>(line)->Ok_0).sent;
            assert(next::<N>(state, event).lines[i] == encoded::<N::Payload>(sent[i]));
        },
        _ => {},
    }
}

/// A node that takes one message reacts to it.
pub proof fn lemma_course_of_one<N: Node>(node: N::V, message: Envelope<<N::Payload as View>::V>)
    ensures
        course::<N>(node, seq![message]).sent == N::reaction(node, message).sent,
        course::<N>(node, seq![message]).failure == N::reaction(node, message).failure,
        N::reaction(node, message).failure is None ==> course::<N>(node, seq![message]).next
            == N::reaction(node, message).next,
{
    let first = N::reaction(node, message);
    assert(seq![message][0] == message);
    if first.failure is None {
        let rest = course::<N>(first.next, seq![message].drop_first());
        assert(rest.sent.len() == 0);
        assert(first.sent + rest.sent =~= first.sent);
    }
}

impl<N: Node> Runtime<N> {
    /// A process in which nothing has happened yet.
    pub fn new() -> (runtime: Self)
        ensures
            runtime@ == Phase::<N::V>::Uninitialized,
    {
        Runtime::Uninitialized
    }

    /// Ends the process with a fault, after `lines`.
    fn halt(lines: Vec<String>, fault: Fault) -> (step: Step<N>)
        ensures
            step@ == halted::<N::V>(texts(lines@), fault@),
            step.lines == lines,
    {
        Step { state: Runtime::Terminated, lines, verdict: Verdict::Failed(fault) }
    }

    /// Goes on in `state`, after `lines`.
    fn go_on(state: Runtime<N>, lines: Vec<String>) -> (step: Step<N>)
        ensures
            step@ == onward(state@, texts(lines@)),
            step.lines == lines,
    {
        Step { state, lines, verdict: Verdict::Continue }
    }

    /// Leaves `state` as it is: it has no transition for the event.
    fn stay(state: Runtime<N>) -> (step: Step<N>)
        ensures
            step@ == unmoved(state@),
            single_lines(texts(step.lines@)),
    {
        Step { state, lines: Self::nothing(), verdict: Verdict::Undefined }
    }

    /// No lines.
    fn nothing() -> (lines: Vec<String>)
        ensures
            texts(lines@) == Seq::<Seq<char>>::empty(),
            single_lines(texts(lines@)),
    {
        Vec::new()
    }

    /// Performs the handshake on the first line.
    fn greet(line: String) -> (step: Step<N>)
        ensures
            step@ == greeted::<N::V>(line@),
            single_lines(texts(step.lines@)),
    {
        let first = match decode::<InitPayload>(line.as_str()) {
            Ok(first) => first,
            Err(cause) => {
                return Self::halt(Self::nothing(), Fault::MalformedEnvelope { line, cause });
            },
        };
        match init_node(first) {
            Err(fault) => Self::halt(Self::nothing(), fault),
            Ok((init, reply)) => {
                let mut lines: Vec<String> = Vec::new();
                lines.push(encode(&reply));
                assert(texts(lines@) =~= seq![encoded::<InitPayload>(reply@)]);
                Self::go_on(Runtime::HandshakeAcknowledged(init), lines)
            },
        }
    }

    /// Builds the node from the identity of the handshake.
    fn launch(init: Init) -> (step: Step<N>)
        ensures
            step@ == launched::<N>(init@),
            single_lines(texts(step.lines@)),
    {
        match N::from_init(init) {
            Ok(node) => Self::go_on(Runtime::Running(node), Self::nothing()),
            Err(fault) => Self::halt(Self::nothing(), fault),
        }
    }

    /// Hands a line to the running node as a message, and collects what
    /// the node submits for it.
    fn serve(node: N, line: String) -> (step: Step<N>)
        ensures
            step@ == served::<N>(node@, line@),
            single_lines(texts(step.lines@)),
    {
        let message = match decode::<N::Payload>(line.as_str()) {
            Ok(message) => message,
            Err(cause) => {
                return Self::halt(Self::nothing(), Fault::MalformedEnvelope { line, cause });
            },
        };
        let mut node = node;
        let mut rx: Inbox<N::Payload> = Inbox::new();
        let mut tx: Outbox<N::Payload> = Outbox::new();
        rx.deliver(message);
        proof {
            lemma_course_of_one::<N>(node@, message@);
        }
        let r = run(&mut node, &mut rx, &mut tx);
        let sent = tx.into_messages();
        let lines = encode_all(&sent);
        match r {
            Ok(()) => Self::go_on(Runtime::Running(node), lines),
            Err(fault) => Self::halt(lines, fault),
        }
    }

    /// Answers an event: moves the process on by one transition. Every line
    /// it hands out can be written as one line.
    pub fn step(self, event: Event) -> (step: Step<N>)
        ensures
            step@ == next::<N>(self@, event@),
            single_lines(texts(step.lines@)),
    {
        match (self, event) {
            (Runtime::Terminated, _) => Self::stay(Runtime::Terminated),
            (_, Event::Failure(text)) => Self::halt(Self::nothing(), Fault::IoFailure(text)),
            (Runtime::Uninitialized, Event::Started) => Self::go_on(
                Runtime::AwaitingHandshake,
                Self::nothing(),
            ),
            (Runtime::AwaitingHandshake, Event::Line(line)) => Self::greet(line),
            (Runtime::AwaitingHandshake, Event::EndOfInput) => Self::halt(
                Self::nothing(),
                Fault::ProtocolViolation("missing init message".to_owned()),
            ),
            (Runtime::HandshakeAcknowledged(init), Event::Written) => Self::launch(init),
            (Runtime::Running(node), Event::Line(line)) => Self::serve(node, line),
            (Runtime::Running(_), Event::EndOfInput) => Step {
                state: Runtime::Terminated,
                lines: Self::nothing(),
                verdict: Verdict::Finished,
            },
            (state, _) => Self::stay(state),
        }
    }
}

} // verus!

//! A whole node process, from its first event to its end.

use crate::codec::{decoded, encoded, encoded_all, lemma_encoded_all_concat, single_lines};
use crate::error::{Fault, FaultView};
use crate::init::{handshake, InitPayload};
use crate::json::parsed_document;
use crate::message::{texts, Envelope, Payload};
use crate::node::{course, Node};
use crate::runtime::{next, Event, EventView, Phase, Runtime, Verdict, VerdictView};
use vstd::prelude::*;

verus! {

/// What a process has done when it ends: the lines it has written, in order,
/// and how it ended.
#[derive(Debug, PartialEq, Eq)]
pub struct Transcript {
    pub written: Vec<String>,
    pub outcome: Result<(), Fault>,
}

/// The mathematical value of a [`Transcript`].
pub struct TranscriptView {
    pub written: Seq<Seq<char>>,
    pub outcome: Result<(), FaultView>,
}

impl View for Transcript {
    type V = TranscriptView;

    open spec fn view(&self) -> TranscriptView {
        TranscriptView {
            written: texts(self.written@),
            outcome: match self.outcome {
                Ok(()) => Ok(()),
                Err(fault) => Err(fault@),
            },
        }
    }
}

/// The event that comes next to a process in `state` whose input still holds
/// `lines`: the input is opened first, the acknowledgement is written as soon
/// as it is handed out, and otherwise the next line arrives, or the end.
pub open spec fn upcoming<N>(state: Phase<N>, lines: Seq<Seq<char>>) -> EventView {
    match state {
        Phase::Uninitialized => EventView::Started,
        Phase::HandshakeAcknowledged(_) => EventView::Written,
        _ => if lines.len() == 0 {
            EventView::EndOfInput
        } else {
            EventView::Line(lines[0])
        },
    }
}

/// The lines that the input still holds after an event.
pub open spec fn remaining(event: EventView, lines: Seq<Seq<char>>) -> Seq<Seq<char>> {
    match event {
        EventView::Line(_) => lines.drop_first(),
        _ => lines,
    }
}

/// How many events a state takes without reading the input.
pub open spec fn idle_steps<N>(state: Phase<N>) -> nat {
    match state {
        Phase::Uninitialized => 1,
        Phase::HandshakeAcknowledged(_) => 1,
        _ => 0,
    }
}

/// The run of a process from `state` over an input that holds `lines` and
/// then ends.
pub open spec fn run_from<N: Node>(state: Phase<N::V>, lines: Seq<Seq<char>>) -> TranscriptView
    decreases lines.len(), idle_steps(state),
{
    let event = upcoming(state, lines);
    let step = next::<N>(state, event);
    match step.verdict {
        VerdictView::Continue => {
            let rest = run_from::<N>(step.state, remaining(event, lines));
            TranscriptView { written: step.lines + rest.written, outcome: rest.outcome }
        },
        VerdictView::Failed(fault) => TranscriptView { written: step.lines, outcome: Err(fault) },
        _ => TranscriptView { written: step.lines, outcome: Ok(()) },
    }
}

/// The run of a process from its start.
pub open spec fn process<N: Node>(lines: Seq<Seq<char>>) -> TranscriptView {
    run_from::<N>(Phase::Uninitialized, lines)
}

/// The messages that a list of lines stands for, where every line stands for one.
pub open spec fn messages_of<P: Payload>(lines: Seq<Seq<char>>) -> Seq<Envelope<P::V>> {
    Seq::new(lines.len(), |i: int| decoded::<P>(lines[i])->Ok_0)
}

/// How a run ends whose node has taken all its messages: cleanly, unless the
/// node failed.
pub open spec fn ending(failure: Option<FaultView>) -> Result<(), FaultView> {
    match failure {
        None => Ok(()),
        Some(fault) => Err(fault),
    }
}

/// The handshake takes exactly one line. Where the first line is an `init`
/// and the node can be built, the process writes the acknowledgement and then
/// runs the node on the lines after the first.
pub proof fn law_handshake_takes_one_line<N: Node>(lines: Seq<Seq<char>>)
    requires
        lines.len() > 0,
        decoded::<InitPayload>(lines[0]) is Ok,
        handshake(decoded::<InitPayload>(lines[0])->Ok_0) is Ok,
        N::created(handshake(decoded::<InitPayload>(lines[0])->Ok_0)->Ok_0.0) is Ok,
    ensures
        ({
            let (identity, reply) = handshake(decoded::<InitPayload>(lines[0])->Ok_0)->Ok_0;
            let rest = run_from::<N>(Phase::Running(N::created(identity)->Ok_0), lines.drop_first());
            process::<N>(lines) == TranscriptView {
                written: seq![encoded::<InitPayload>(reply)] + rest.written,
                outcome: rest.outcome,
            }
        }),
{
    let (identity, reply) = handshake(decoded::<InitPayload>(lines[0])->Ok_0)->Ok_0;
    let running = run_from::<N>(Phase::Running(N::created(identity)->Ok_0), lines.drop_first());
    let acknowledged = run_from::<N>(Phase::HandshakeAcknowledged(identity), lines.drop_first());
    let awaiting = run_from::<N>(Phase::AwaitingHandshake, lines);
    assert(acknowledged.written =~= running.written);
    assert(awaiting.written =~= seq![encoded::<InitPayload>(reply)] + running.written);
    assert(process::<N>(lines).written =~= awaiting.written);
}

/// A first message that is not an `init` is a protocol violation: nothing is
/// written, and whatever follows the first line is never read.
pub proof fn law_handshake_wants_init<N: Node>(lines: Seq<Seq<char>>)
    requires
        lines.len() > 0,
        decoded::<InitPayload>(lines[0]) is Ok,
        !(decoded::<InitPayload>(lines[0])->Ok_0.body.payload is Init),
    ensures
        process::<N>(lines) == (TranscriptView {
            written: Seq::empty(),
            outcome: Err(FaultView::ProtocolViolation("expected init as first message"@)),
        }),
{
    let awaiting = run_from::<N>(Phase::AwaitingHandshake, lines);
    assert(process::<N>(lines).written =~= awaiting.written);
}

/// A line that is not JSON ends the run in a fault, and whatever follows it
/// is never read: the run is the same with and without what follows.
pub proof fn law_nothing_after_malformed<N: Node>(
    state: Phase<N::V>,
    head: Seq<Seq<char>>,
    bad: Seq<char>,
    tail: Seq<Seq<char>>,
)
    requires
        parsed_document(bad) is None,
        !(state is Terminated),
    ensures
        run_from::<N>(state, head + seq![bad] + tail) == run_from::<N>(state, head + seq![bad]),
        run_from::<N>(state, head + seq![bad]).outcome is Err,
    decreases head.len(), idle_steps(state),
{
    let long = head + seq![bad] + tail;
    let short = head + seq![bad];
    let event = upcoming(state, long);
    let step = next::<N>(state, event);
    if step.verdict is Continue {
        if !(event is Line) {
            law_nothing_after_malformed::<N>(step.state, head, bad, tail);
        } else if head.len() > 0 {
            assert(long.drop_first() =~= head.drop_first() + seq![bad] + tail);
            assert(short.drop_first() =~= head.drop_first() + seq![bad]);
            law_nothing_after_malformed::<N>(step.state, head.drop_first(), bad, tail);
        }
    }
}

/// A first line that is no envelope of the handshake ends the process in the
/// fault that names it, with nothing written.
pub proof fn law_malformed_handshake_is_fatal<N: Node>(lines: Seq<Seq<char>>)
    requires
        lines.len() > 0,
        decoded::<InitPayload>(lines[0]) is Err,
    ensures
        process::<N>(lines) == (TranscriptView {
            written: Seq::empty(),
            outcome: Err(
                FaultView::MalformedEnvelope {
                    line: lines[0],
                    cause: decoded::<InitPayload>(lines[0])->Err_0,
                },
            ),
        }),
{
    let awaiting = run_from::<N>(Phase::AwaitingHandshake, lines);
    assert(process::<N>(lines).written =~= awaiting.written);
}

/// A line that is no envelope for a running node ends the run in the fault
/// that names it, with nothing written for it.
pub proof fn law_malformed_is_fatal<N: Node>(node: N::V, lines: Seq<Seq<char>>)
    requires
        lines.len() > 0,
        decoded::<N::Payload>(lines[0]) is Err,
    ensures
        run_from::<N>(Phase::Running(node), lines) == (TranscriptView {
            written: Seq::empty(),
            outcome: Err(
                FaultView::MalformedEnvelope {
                    line: lines[0],
                    cause: decoded::<N::Payload>(lines[0])->Err_0,
                },
            ),
        }),
{
}

/// What a running node writes is what it submits, line for envelope and in
/// the order of submission; and when the input ends after messages that the
/// node has all taken, the run ends cleanly.
pub proof fn law_written_in_order<N: Node>(node: N::V, lines: Seq<Seq<char>>)
    requires
        forall|i: int| 0 <= i < lines.len() ==> decoded::<N::Payload>(#[trigger] lines[i]) is Ok,
    ensures
        run_from::<N>(Phase::Running(node), lines).written == encoded_all::<N::Payload>(
            course::<N>(node, messages_of::<N::Payload>(lines)).sent,
        ),
        run_from::<N>(Phase::Running(node), lines).outcome == ending(
            course::<N>(node, messages_of::<N::Payload>(lines)).failure,
        ),
    decreases lines.len(),
{
    let messages = messages_of::<N::Payload>(lines);
    if lines.len() > 0 {
        let first = N::reaction(node, messages[0]);
        if first.failure is None {
            let rest_lines = lines.drop_first();
            assert(messages_of::<N::Payload>(rest_lines) =~= messages.drop_first());
            law_written_in_order::<N>(first.next, rest_lines);
            lemma_encoded_all_concat::<N::Payload>(
                first.sent,
                course::<N>(first.next, messages.drop_first()).sent,
            );
        }
    }
}

/// The end of the input ends a running node's process cleanly, with nothing
/// more written.
pub proof fn law_end_of_input_is_clean<N: Node>(node: N::V)
    ensures
        run_from::<N>(Phase::Running(node), Seq::empty()) == (TranscriptView {
            written: Seq::empty(),
            outcome: Ok(()),
        }),
{
}

/// Runs a node process over an input that holds `lines` and then ends:
/// performs the handshake on the first line, builds the node, hands it every
/// further line as a message, and collects what is written.
pub fn run_node<N: Node>(lines: Vec<String>) -> (transcript: Transcript)
    ensures
        transcript@ == process::<N>(texts(lines@)),
        single_lines(texts(transcript.written@)),
{
    let mut runtime: Runtime<N> = Runtime::new();
    let mut written: Vec<String> = Vec::new();
    let mut i: usize = 0;
    assert(texts(lines@).skip(0) =~= texts(lines@));
    assert(texts(written@) + process::<N>(texts(lines@)).written =~= process::<N>(
        texts(lines@),
    ).written);
    loop
        invariant
            i <= lines.len(),
            single_lines(texts(written@)),
            process::<N>(texts(lines@)).written == texts(written@) + run_from::<N>(
                runtime@,
                texts(lines@).skip(i as int),
            ).written,
            process::<N>(texts(lines@)).outcome == run_from::<N>(
                runtime@,
                texts(lines@).skip(i as int),
            ).outcome,
        decreases lines.len() - i, idle_steps(runtime@),
    {
        let ghost left = texts(lines@).skip(i as int);
        let ghost before = texts(written@);
        let mut reads = false;
        let event = match &runtime {
            Runtime::Uninitialized => Event::Started,
            Runtime::HandshakeAcknowledged(_) => Event::Written,
            _ => {
                if i < lines.len() {
                    reads = true;
                    Event::Line(lines[i].clone())
                } else {
                    Event::EndOfInput
                }
            },
        };
        let step = runtime.step(event);
        let mut lines_out = step.lines;
        let ghost stepped = texts(lines_out@);
        written.append(&mut lines_out);
        assert(texts(written@) =~= before + stepped);
        match step.verdict {
            Verdict::Continue => {
                runtime = step.state;
                if reads {
                    assert(left.drop_first() =~= texts(lines@).skip(i + 1));
                    i += 1;
                }
            },
            Verdict::Failed(fault) => {
                return Transcript { written, outcome: Err(fault) };
            },
            _ => {
                return Transcript { written, outcome: Ok(()) };
            },
        }
    }
}

} // verus!

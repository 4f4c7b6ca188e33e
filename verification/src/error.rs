//! The fatal conditions of a node process.

use vstd::prelude::*;
use vstd::string::StringExecFns;

verus! {

/// Why a line of text is no envelope.
#[derive(Debug, Clone, Copy, PartialEq, Eq, Structural)]
pub enum Malformation {
    /// The line is not JSON.
    InvalidJson,
    /// The document is no object, a required member is missing, or a member
    /// holds the wrong kind of value.
    InvalidEnvelope,
    /// The body names no variant of the payload type, or lacks what the
    /// variant needs.
    InvalidPayload,
}

/// A condition that ends the node process. None of them is recovered from.
#[derive(Debug, Clone, PartialEq, Eq)]
pub enum Fault {
    /// An inbound line was no envelope; `line` is the line as it arrived.
    MalformedEnvelope { line: String, cause: Malformation },
    /// The handshake was not what the protocol prescribes.
    ProtocolViolation(String),
    /// Reading the input or writing the output failed.
    IoFailure(String),
    /// The node's own logic reported an error.
    NodeLogicFailure(String),
}

/// The mathematical value of a [`Fault`].
pub enum FaultView {
    MalformedEnvelope { line: Seq<char>, cause: Malformation },
    ProtocolViolation(Seq<char>),
    IoFailure(Seq<char>),
    NodeLogicFailure(Seq<char>),
}

impl View for Fault {
    type V = FaultView;

    open spec fn view(&self) -> FaultView {
        match self {
            Fault::MalformedEnvelope { line, cause } => FaultView::MalformedEnvelope {
                line: line@,
                cause: *cause,
            },
            Fault::ProtocolViolation(text) => FaultView::ProtocolViolation(text@),
            Fault::IoFailure(text) => FaultView::IoFailure(text@),
            Fault::NodeLogicFailure(text) => FaultView::NodeLogicFailure(text@),
        }
    }
}

/// What is wrong with a line, in words.
pub open spec fn cause_text(cause: Malformation) -> Seq<char> {
    match cause {
        Malformation::InvalidJson => "invalid JSON"@,
        Malformation::InvalidEnvelope => "invalid envelope"@,
        Malformation::InvalidPayload => "invalid payload"@,
    }
}

/// A fault in words: the kind of the fault, then what it holds. A line that
/// was no envelope is given whole.
pub open spec fn description(fault: FaultView) -> Seq<char> {
    match fault {
        FaultView::MalformedEnvelope { line, cause } => "malformed envelope: "@ + cause_text(cause)
            + " in line "@ + line,
        FaultView::ProtocolViolation(text) => "protocol violation: "@ + text,
        FaultView::IoFailure(text) => "i/o failure: "@ + text,
        FaultView::NodeLogicFailure(text) => "node logic failure: "@ + text,
    }
}

impl Malformation {
    /// What is wrong with a line, in words.
    pub fn describe(&self) -> (text: &'static str)
        ensures
            text@ == cause_text(*self),
    {
        match self {
            Malformation::InvalidJson => "invalid JSON",
            Malformation::InvalidEnvelope => "invalid envelope",
            Malformation::InvalidPayload => "invalid payload",
        }
    }
}

impl Fault {
    /// The fault in words, for a diagnostic.
    pub fn describe(&self) -> (text: String)
        ensures
            text@ == description(self@),
    {
        match self {
            Fault::MalformedEnvelope { line, cause } => {
                let mut text = "malformed envelope: ".to_owned();
                text.append(cause.describe());
                text.append(" in line ");
                text.append(line.as_str());
                text
            },
            Fault::ProtocolViolation(detail) => {
                let mut text = "protocol violation: ".to_owned();
                text.append(detail.as_str());
                text
            },
            Fault::IoFailure(detail) => {
                let mut text = "i/o failure: ".to_owned();
                text.append(detail.as_str());
                text
            },
            Fault::NodeLogicFailure(detail) => {
                let mut text = "node logic failure: ".to_owned();
                text.append(detail.as_str());
                text
            },
        }
    }
}

/// The mathematical value of a result whose error is a [`Fault`].
pub open spec fn verdict<T: View>(r: Result<T, Fault>) -> Result<T::V, FaultView> {
    match r {
        Ok(value) => Ok(value@),
        Err(fault) => Err(fault@),
    }
}

} // verus!

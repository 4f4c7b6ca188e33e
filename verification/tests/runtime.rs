use vortex::error::Malformation;
use vortex::echo::EchoNode;
use vortex::init::Init;
use vortex::{Event, Fault, Runtime, Verdict};

const INIT: &str = r#"{"src":"c0","dest":"n1","body":{"msg_id":1,"type":"init","node_id":"n1","node_ids":["n1","n2"]}}"#;
const INIT_OK: &str = r#"{"src":"n1","dest":"c0","body":{"msg_id":0,"in_reply_to":1,"type":"init_ok"}}"#;
const ECHO: &str = r#"{"src":"c1","dest":"n1","body":{"msg_id":7,"type":"echo","echo":"hi"}}"#;

fn awaiting() -> Runtime<EchoNode> {
    Runtime::new().step(Event::Started).state
}

fn acknowledged() -> Runtime<EchoNode> {
    awaiting().step(Event::Line(INIT.to_string())).state
}

fn running() -> Runtime<EchoNode> {
    acknowledged().step(Event::Written).state
}

#[test]
fn a_process_starts_uninitialized() {
    assert!(matches!(Runtime::<EchoNode>::new(), Runtime::Uninitialized));
}

#[test]
fn starting_opens_the_handshake() {
    let step = Runtime::<EchoNode>::new().step(Event::Started);
    assert!(matches!(step.state, Runtime::AwaitingHandshake));
    assert_eq!(step.lines, Vec::<String>::new());
    assert_eq!(step.verdict, Verdict::Continue);
}

#[test]
fn the_init_is_acknowledged_and_the_identity_kept() {
    let step = awaiting().step(Event::Line(INIT.to_string()));
    assert_eq!(step.lines, vec![INIT_OK.to_string()]);
    assert_eq!(step.verdict, Verdict::Continue);
    match step.state {
        Runtime::HandshakeAcknowledged(init) => {
            assert_eq!(
                init,
                Init { node_id: "n1".to_string(), node_ids: vec!["n1".to_string(), "n2".to_string()] }
            );
        }
        _ => panic!("the handshake was not acknowledged"),
    }
}

#[test]
fn the_node_is_built_once_the_acknowledgement_is_written() {
    let step = acknowledged().step(Event::Written);
    assert_eq!(step.lines, Vec::<String>::new());
    assert_eq!(step.verdict, Verdict::Continue);
    match step.state {
        Runtime::Running(node) => {
            assert_eq!(node.id, "n1");
            assert_eq!(node.message_id, 0);
        }
        _ => panic!("the node is not running"),
    }
}

#[test]
fn a_running_node_answers_line_by_line() {
    let first = running().step(Event::Line(ECHO.to_string()));
    assert_eq!(
        first.lines,
        vec![r#"{"src":"n1","dest":"c1","body":{"msg_id":0,"in_reply_to":7,"type":"echo_ok","echo":"hi"}}"#
            .to_string()]
    );
    assert_eq!(first.verdict, Verdict::Continue);
    let second = first.state.step(Event::Line(ECHO.to_string()));
    assert_eq!(
        second.lines,
        vec![r#"{"src":"n1","dest":"c1","body":{"msg_id":1,"in_reply_to":7,"type":"echo_ok","echo":"hi"}}"#
            .to_string()]
    );
    assert!(matches!(second.state, Runtime::Running(_)));
}

#[test]
fn the_end_of_input_finishes_a_running_node() {
    let step = running().step(Event::EndOfInput);
    assert!(matches!(step.state, Runtime::Terminated));
    assert_eq!(step.lines, Vec::<String>::new());
    assert_eq!(step.verdict, Verdict::Finished);
}

#[test]
fn the_end_of_input_before_the_init_is_a_violation() {
    let step = awaiting().step(Event::EndOfInput);
    assert!(matches!(step.state, Runtime::Terminated));
    assert_eq!(
        step.verdict,
        Verdict::Failed(Fault::ProtocolViolation("missing init message".to_string()))
    );
}

#[test]
fn a_malformed_line_terminates_with_the_line_and_the_cause() {
    let step = running().step(Event::Line("{]".to_string()));
    assert!(matches!(step.state, Runtime::Terminated));
    assert_eq!(step.lines, Vec::<String>::new());
    assert_eq!(
        step.verdict,
        Verdict::Failed(Fault::MalformedEnvelope {
            line: "{]".to_string(),
            cause: Malformation::InvalidJson,
        })
    );
    let step = awaiting().step(Event::Line(r#"{"src":"a"}"#.to_string()));
    assert_eq!(
        step.verdict,
        Verdict::Failed(Fault::MalformedEnvelope {
            line: r#"{"src":"a"}"#.to_string(),
            cause: Malformation::InvalidEnvelope,
        })
    );
}

#[test]
fn a_failure_of_the_streams_terminates_from_every_live_state() {
    let states = vec![Runtime::<EchoNode>::new(), awaiting(), acknowledged(), running()];
    for state in states {
        let step = state.step(Event::Failure("broken pipe".to_string()));
        assert!(matches!(step.state, Runtime::Terminated));
        assert_eq!(step.lines, Vec::<String>::new());
        assert_eq!(step.verdict, Verdict::Failed(Fault::IoFailure("broken pipe".to_string())));
    }
}

#[test]
fn a_terminated_process_takes_no_event() {
    let events = vec![
        Event::Started,
        Event::Line(INIT.to_string()),
        Event::EndOfInput,
        Event::Written,
        Event::Failure("late".to_string()),
    ];
    for event in events {
        let step = running().step(Event::EndOfInput).state.step(event);
        assert!(matches!(step.state, Runtime::Terminated));
        assert_eq!(step.lines, Vec::<String>::new());
        assert_eq!(step.verdict, Verdict::Undefined);
    }
}

#[test]
fn events_out_of_turn_change_nothing() {
    let step = Runtime::<EchoNode>::new().step(Event::Line(INIT.to_string()));
    assert!(matches!(step.state, Runtime::Uninitialized));
    assert_eq!(step.verdict, Verdict::Undefined);
    let step = awaiting().step(Event::Written);
    assert!(matches!(step.state, Runtime::AwaitingHandshake));
    assert_eq!(step.verdict, Verdict::Undefined);
    let step = acknowledged().step(Event::Line(ECHO.to_string()));
    assert!(matches!(step.state, Runtime::HandshakeAcknowledged(_)));
    assert_eq!(step.lines, Vec::<String>::new());
    assert_eq!(step.verdict, Verdict::Undefined);
    let step = running().step(Event::Started);
    assert!(matches!(step.state, Runtime::Running(_)));
    assert_eq!(step.verdict, Verdict::Undefined);
}

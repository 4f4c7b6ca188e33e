use vortex::error::Malformation;
use vortex::init::{init_node, Init, InitPayload};
use vortex::{Fault, Message, MessageBody};

fn init_message(id: Option<usize>) -> Message<InitPayload> {
    Message {
        src: "c1".to_string(),
        dst: "n1".to_string(),
        body: MessageBody {
            id,
            in_reply_to: None,
            payload: InitPayload::Init(Init {
                node_id: "n1".to_string(),
                node_ids: vec!["n1".to_string(), "n2".to_string(), "n3".to_string()],
            }),
        },
    }
}

#[test]
fn handshake_gives_the_identity() {
    let (init, _) = init_node(init_message(Some(1))).unwrap();
    assert_eq!(init.node_id, "n1");
    assert_eq!(init.node_ids, vec!["n1".to_string(), "n2".to_string(), "n3".to_string()]);
}

#[test]
fn handshake_reply_answers_the_init() {
    let (_, reply) = init_node(init_message(Some(41))).unwrap();
    let expected = Message {
        src: "n1".to_string(),
        dst: "c1".to_string(),
        body: MessageBody { id: Some(0), in_reply_to: Some(41), payload: InitPayload::InitOk },
    };
    assert_eq!(reply, expected);
}

#[test]
fn handshake_reply_to_an_init_without_identifier() {
    let (_, reply) = init_node(init_message(None)).unwrap();
    assert_eq!(reply.body.id, Some(0));
    assert_eq!(reply.body.in_reply_to, None);
    assert_eq!(reply.src, "n1");
    assert_eq!(reply.dst, "c1");
}

#[test]
fn handshake_rejects_what_is_not_an_init() {
    let first = Message {
        src: "c1".to_string(),
        dst: "n1".to_string(),
        body: MessageBody { id: Some(1), in_reply_to: None, payload: InitPayload::InitOk },
    };
    assert_eq!(
        init_node(first),
        Err(Fault::ProtocolViolation("expected init as first message".to_string()))
    );
}

#[test]
fn faults_describe_themselves() {
    assert_eq!(
        Fault::ProtocolViolation("expected init as first message".to_string()).describe(),
        "protocol violation: expected init as first message"
    );
    assert_eq!(
        Fault::MalformedEnvelope { line: "{]".to_string(), cause: Malformation::InvalidJson }.describe(),
        "malformed envelope: invalid JSON in line {]"
    );
    assert_eq!(
        Fault::MalformedEnvelope { line: "[]".to_string(), cause: Malformation::InvalidEnvelope }.describe(),
        "malformed envelope: invalid envelope in line []"
    );
    assert_eq!(
        Fault::MalformedEnvelope { line: "{}".to_string(), cause: Malformation::InvalidPayload }.describe(),
        "malformed envelope: invalid payload in line {}"
    );
    assert_eq!(Fault::IoFailure("broken pipe".to_string()).describe(), "i/o failure: broken pipe");
    assert_eq!(
        Fault::NodeLogicFailure("message identifiers exhausted".to_string()).describe(),
        "node logic failure: message identifiers exhausted"
    );
}

#[test]
fn malformations_describe_themselves() {
    assert_eq!(Malformation::InvalidJson.describe(), "invalid JSON");
    assert_eq!(Malformation::InvalidEnvelope.describe(), "invalid envelope");
    assert_eq!(Malformation::InvalidPayload.describe(), "invalid payload");
}

use vortex::codec::{decode, encode, encode_all, from_document, to_document};
use vortex::error::Malformation;
use vortex::echo::EchoPayload;
use vortex::init::{Init, InitPayload};
use vortex::json::Json;
use vortex::unique_id::UniqueIdPayload;
use vortex::{Message, MessageBody, Payload};

fn echo(src: &str, dst: &str, id: Option<usize>, in_reply_to: Option<usize>, text: &str) -> Message<EchoPayload> {
    Message {
        src: src.to_string(),
        dst: dst.to_string(),
        body: MessageBody { id, in_reply_to, payload: EchoPayload::Echo { echo: text.to_string() } },
    }
}

#[test]
fn init_line_is_decoded() {
    let line = r#"{"src":"c1","dest":"n1","body":{"msg_id":1,"type":"init","node_id":"n1","node_ids":["n1","n2"]}}"#;
    let expected = Message {
        src: "c1".to_string(),
        dst: "n1".to_string(),
        body: MessageBody {
            id: Some(1),
            in_reply_to: None,
            payload: InitPayload::Init(Init {
                node_id: "n1".to_string(),
                node_ids: vec!["n1".to_string(), "n2".to_string()],
            }),
        },
    };
    assert_eq!(decode::<InitPayload>(line), Ok(expected));
}

#[test]
fn init_is_encoded_with_its_members_in_order() {
    let message = Message {
        src: "c1".to_string(),
        dst: "n1".to_string(),
        body: MessageBody {
            id: Some(1),
            in_reply_to: None,
            payload: InitPayload::Init(Init {
                node_id: "n1".to_string(),
                node_ids: vec!["n1".to_string(), "n2".to_string()],
            }),
        },
    };
    assert_eq!(
        encode(&message),
        r#"{"src":"c1","dest":"n1","body":{"msg_id":1,"type":"init","node_id":"n1","node_ids":["n1","n2"]}}"#
    );
}

#[test]
fn init_ok_line_is_encoded() {
    let message = Message {
        src: "n1".to_string(),
        dst: "c1".to_string(),
        body: MessageBody { id: Some(0), in_reply_to: Some(1), payload: InitPayload::InitOk },
    };
    assert_eq!(
        encode(&message),
        r#"{"src":"n1","dest":"c1","body":{"msg_id":0,"in_reply_to":1,"type":"init_ok"}}"#
    );
}

#[test]
fn wire_names_are_dest_and_msg_id() {
    let line = encode(&echo("a", "b", Some(3), Some(4), "x"));
    assert!(line.contains(r#""dest":"b""#));
    assert!(line.contains(r#""msg_id":3"#));
    assert!(line.contains(r#""in_reply_to":4"#));
    assert!(!line.contains("destination"));
    assert!(!line.contains("dst"));
    assert!(!line.contains("message_id"));
    assert!(!line.contains(r#""id""#));
}

#[test]
fn absent_identifiers_are_left_out() {
    assert_eq!(
        encode(&echo("a", "b", None, None, "x")),
        r#"{"src":"a","dest":"b","body":{"type":"echo","echo":"x"}}"#
    );
    assert_eq!(
        encode(&echo("a", "b", None, Some(9), "x")),
        r#"{"src":"a","dest":"b","body":{"in_reply_to":9,"type":"echo","echo":"x"}}"#
    );
}

#[test]
fn payload_members_lie_in_the_body_itself() {
    let json = to_document(&echo("a", "b", Some(1), None, "hi"));
    let expected = Json::Object(vec![
        ("src".to_string(), Json::Text("a".to_string())),
        ("dest".to_string(), Json::Text("b".to_string())),
        (
            "body".to_string(),
            Json::Object(vec![
                ("msg_id".to_string(), Json::Unsigned(1)),
                ("type".to_string(), Json::Text("echo".to_string())),
                ("echo".to_string(), Json::Text("hi".to_string())),
            ]),
        ),
    ]);
    assert_eq!(json, expected);
}

#[test]
fn round_trip_gives_the_message_back() {
    let messages = vec![
        echo("c1", "n1", Some(1), None, "hi"),
        echo("", "", None, None, ""),
        echo("n\"1", "c\\2", Some(usize::MAX), Some(0), "line\nbreak \u{1F600} \"quoted\""),
        echo("a", "b", None, Some(7), "{\"src\":1}"),
    ];
    for message in messages {
        assert_eq!(decode::<EchoPayload>(&encode(&message)), Ok(message));
    }
}

#[test]
fn round_trip_of_every_payload() {
    let init = Message {
        src: "c".to_string(),
        dst: "n".to_string(),
        body: MessageBody {
            id: Some(5),
            in_reply_to: None,
            payload: InitPayload::Init(Init { node_id: "n".to_string(), node_ids: vec![] }),
        },
    };
    assert_eq!(decode::<InitPayload>(&encode(&init)), Ok(init));
    let init_ok = Message {
        src: "n".to_string(),
        dst: "c".to_string(),
        body: MessageBody { id: Some(0), in_reply_to: Some(5), payload: InitPayload::InitOk },
    };
    assert_eq!(decode::<InitPayload>(&encode(&init_ok)), Ok(init_ok));
    let generate = Message {
        src: "c".to_string(),
        dst: "n".to_string(),
        body: MessageBody { id: None, in_reply_to: None, payload: UniqueIdPayload::Generate },
    };
    assert_eq!(decode::<UniqueIdPayload>(&encode(&generate)), Ok(generate));
    let generate_ok = Message {
        src: "n".to_string(),
        dst: "c".to_string(),
        body: MessageBody {
            id: Some(1),
            in_reply_to: Some(2),
            payload: UniqueIdPayload::GenerateOk { id: "n-1".to_string() },
        },
    };
    assert_eq!(decode::<UniqueIdPayload>(&encode(&generate_ok)), Ok(generate_ok));
    let echo_ok = Message {
        src: "n".to_string(),
        dst: "c".to_string(),
        body: MessageBody {
            id: Some(1),
            in_reply_to: Some(2),
            payload: EchoPayload::EchoOk { echo: "e".to_string() },
        },
    };
    assert_eq!(decode::<EchoPayload>(&encode(&echo_ok)), Ok(echo_ok));
}

#[test]
fn null_identifier_is_read_as_absent() {
    let line = r#"{"src":"a","dest":"b","body":{"msg_id":null,"in_reply_to":null,"type":"echo","echo":"x"}}"#;
    assert_eq!(decode::<EchoPayload>(line), Ok(echo("a", "b", None, None, "x")));
}

#[test]
fn members_may_come_in_any_order_and_unknown_ones_are_ignored() {
    let line = r#"{"extra":[1,2.5],"body":{"echo":"x","type":"echo","more":{"k":-1},"msg_id":2},"dest":"b","src":"a"}"#;
    assert_eq!(decode::<EchoPayload>(line), Ok(echo("a", "b", Some(2), None, "x")));
}

#[test]
fn broken_json_is_rejected() {
    assert_eq!(decode::<InitPayload>("{\"src\":"), Err(Malformation::InvalidJson));
    assert_eq!(decode::<EchoPayload>(""), Err(Malformation::InvalidJson));
    assert_eq!(decode::<EchoPayload>("not json"), Err(Malformation::InvalidJson));
}

#[test]
fn missing_envelope_members_are_rejected() {
    let lines = [
        r#"{"dest":"b","body":{"type":"echo","echo":"x"}}"#,
        r#"{"src":"a","body":{"type":"echo","echo":"x"}}"#,
        r#"{"src":"a","dest":"b"}"#,
        r#"{"src":"a","destination_id":"b","body":{"type":"echo","echo":"x"}}"#,
        r#"{}"#,
    ];
    for line in lines {
        assert_eq!(decode::<EchoPayload>(line), Err(Malformation::InvalidEnvelope), "{}", line);
    }
}

#[test]
fn envelope_members_of_the_wrong_kind_are_rejected() {
    let lines = [
        r#"[1,2,3]"#,
        r#""text""#,
        r#"null"#,
        r#"{"src":1,"dest":"b","body":{"type":"echo","echo":"x"}}"#,
        r#"{"src":"a","dest":null,"body":{"type":"echo","echo":"x"}}"#,
        r#"{"src":"a","dest":"b","body":"x"}"#,
        r#"{"src":"a","dest":"b","body":[]}"#,
        r#"{"src":"a","dest":"b","body":{"msg_id":"1","type":"echo","echo":"x"}}"#,
        r#"{"src":"a","dest":"b","body":{"msg_id":-1,"type":"echo","echo":"x"}}"#,
        r#"{"src":"a","dest":"b","body":{"msg_id":1.5,"type":"echo","echo":"x"}}"#,
        r#"{"src":"a","dest":"b","body":{"in_reply_to":true,"type":"echo","echo":"x"}}"#,
        r#"{"src":"a","dest":"b","body":{"in_reply_to":18446744073709551616,"type":"echo","echo":"x"}}"#,
    ];
    for line in lines {
        assert_eq!(decode::<EchoPayload>(line), Err(Malformation::InvalidEnvelope), "{}", line);
    }
}

#[test]
fn unknown_or_incomplete_payloads_are_rejected() {
    let lines = [
        r#"{"src":"a","dest":"b","body":{"msg_id":1}}"#,
        r#"{"src":"a","dest":"b","body":{"type":"read"}}"#,
        r#"{"src":"a","dest":"b","body":{"type":5,"echo":"x"}}"#,
        r#"{"src":"a","dest":"b","body":{"type":"echo"}}"#,
        r#"{"src":"a","dest":"b","body":{"type":"echo","echo":5}}"#,
        r#"{"src":"a","dest":"b","body":{"type":"Echo","echo":"x"}}"#,
    ];
    for line in lines {
        assert_eq!(decode::<EchoPayload>(line), Err(Malformation::InvalidPayload), "{}", line);
    }
    let init_lines = [
        r#"{"src":"a","dest":"b","body":{"type":"init"}}"#,
        r#"{"src":"a","dest":"b","body":{"type":"init","node_id":"n1"}}"#,
        r#"{"src":"a","dest":"b","body":{"type":"init","node_id":"n1","node_ids":["n1",2]}}"#,
        r#"{"src":"a","dest":"b","body":{"type":"init","node_id":"n1","node_ids":"n1"}}"#,
        r#"{"src":"a","dest":"b","body":{"type":"echo","echo":"x"}}"#,
    ];
    for line in init_lines {
        assert_eq!(decode::<InitPayload>(line), Err(Malformation::InvalidPayload), "{}", line);
    }
    let generate_lines = [
        r#"{"src":"a","dest":"b","body":{"type":"generate_ok"}}"#,
        r#"{"src":"a","dest":"b","body":{"type":"generate_ok","id":7}}"#,
    ];
    for line in generate_lines {
        assert_eq!(decode::<UniqueIdPayload>(line), Err(Malformation::InvalidPayload), "{}", line);
    }
}

#[test]
fn a_bad_identifier_is_reported_before_a_bad_payload() {
    let line = r#"{"src":"a","dest":"b","body":{"msg_id":"x","type":"nothing"}}"#;
    assert_eq!(decode::<EchoPayload>(line), Err(Malformation::InvalidEnvelope));
}

#[test]
fn from_document_reads_what_to_document_writes() {
    let message = echo("a", "b", Some(1), Some(2), "x");
    assert_eq!(from_document::<EchoPayload>(&to_document(&message)), Ok(message));
    assert_eq!(from_document::<EchoPayload>(&Json::Null), Err(Malformation::InvalidEnvelope));
}

#[test]
fn encode_all_keeps_the_order() {
    let messages = vec![echo("a", "b", Some(0), None, "first"), echo("a", "b", Some(1), None, "second")];
    let lines = encode_all(&messages);
    assert_eq!(lines, vec![encode(&messages[0]), encode(&messages[1])]);
    assert_eq!(encode_all::<EchoPayload>(&Vec::new()), Vec::<String>::new());
}

#[test]
fn an_encoded_message_is_one_line() {
    let message = echo("a\nb", "c\r\nd", Some(1), None, "first\nsecond\n\nthird\u{2028}");
    let line = encode(&message);
    assert!(!line.contains('\n'));
    assert!(!line.contains('\r'));
    assert_eq!(
        line,
        "{\"src\":\"a\\nb\",\"dest\":\"c\\r\\nd\",\"body\":{\"msg_id\":1,\"type\":\"echo\",\"echo\":\"first\\nsecond\\n\\nthird\u{2028}\"}}"
    );
    assert_eq!(decode::<EchoPayload>(&line), Ok(message));
}

#[test]
fn payloads_are_written_with_their_type_first() {
    use_payload(
        &InitPayload::InitOk,
        vec![("type".to_string(), Json::Text("init_ok".to_string()))],
    );
    use_payload(
        &EchoPayload::EchoOk { echo: "x".to_string() },
        vec![
            ("type".to_string(), Json::Text("echo_ok".to_string())),
            ("echo".to_string(), Json::Text("x".to_string())),
        ],
    );
    use_payload(
        &UniqueIdPayload::GenerateOk { id: "n1-0".to_string() },
        vec![
            ("type".to_string(), Json::Text("generate_ok".to_string())),
            ("id".to_string(), Json::Text("n1-0".to_string())),
        ],
    );
    use_payload(
        &UniqueIdPayload::Generate,
        vec![("type".to_string(), Json::Text("generate".to_string()))],
    );
}

fn use_payload<P: Payload + PartialEq + std::fmt::Debug>(payload: &P, members: Vec<(String, Json)>) {
    assert_eq!(payload.to_members(), members);
    assert_eq!(P::from_members(&members).as_ref(), Some(payload));
    let mut with_identifiers = vec![
        ("msg_id".to_string(), Json::Unsigned(4)),
        ("in_reply_to".to_string(), Json::Null),
    ];
    with_identifiers.extend(members);
    assert_eq!(P::from_members(&with_identifiers).as_ref(), Some(payload));
    assert_eq!(P::from_members(&Vec::new()), None);
}

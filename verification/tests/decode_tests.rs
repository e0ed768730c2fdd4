use socket_relay::decode::{decode_callback_event, decode_common, decode_events_api_payload,
    decode_message_event, decode_slack_event, CommonMessageEvent, ConnectionInfo, DecodeError,
    EventCallbackEvent, HelloEvent, MessageEvent, SlackEvent};
use socket_relay::json::{obj_get, parse_json, str_eq, Json};

#[test]
fn parse_yields_the_tree() {
    // serde_json's default object keeps its fields in key order.
    let tree = parse_json(r#"{"a":1,"b":"x","c":[true,null]}"#).unwrap();
    assert_eq!(
        tree,
        Json::Obj(vec![
            ("a".to_owned(), Json::Num("1".to_owned())),
            ("b".to_owned(), Json::Str("x".to_owned())),
            ("c".to_owned(), Json::Arr(vec![Json::Bool(true), Json::Null])),
        ]),
    );
}

#[test]
fn parse_refuses_malformed_text() {
    assert_eq!(parse_json("{"), None);
    assert_eq!(parse_json(""), None);
    assert_eq!(parse_json("{\"a\":}"), None);
}

#[test]
fn object_lookup_finds_first_match() {
    let fields = vec![
        ("a".to_owned(), Json::Num("1".to_owned())),
        ("b".to_owned(), Json::Num("2".to_owned())),
        ("a".to_owned(), Json::Num("3".to_owned())),
    ];
    assert_eq!(obj_get(&fields, "a"), Some(&Json::Num("1".to_owned())));
    assert_eq!(obj_get(&fields, "b"), Some(&Json::Num("2".to_owned())));
    assert_eq!(obj_get(&fields, "c"), None);
    assert!(str_eq("", ""));
    assert!(!str_eq("a", "b"));
}

#[test]
fn hello_decodes() {
    let tree = parse_json(
        r#"{"type":"hello","num_connections":1,"connection_info":{"app_id":"A111"}}"#,
    )
    .unwrap();
    assert_eq!(
        decode_slack_event(tree),
        Ok(SlackEvent::Hello(HelloEvent {
            connection_info: ConnectionInfo { app_id: "A111".to_owned() },
        })),
    );
}

#[test]
fn disconnect_decodes() {
    let tree = parse_json(r#"{"type":"disconnect","reason":"refresh_requested"}"#).unwrap();
    assert_eq!(decode_slack_event(tree), Ok(SlackEvent::Disconnect));
}

#[test]
fn events_api_envelope_decodes_and_keeps_its_payload() {
    let tree = parse_json(
        r#"{"type":"events_api","envelope_id":"ev-9","payload":{"type":"event_callback"}}"#,
    )
    .unwrap();
    match decode_slack_event(tree) {
        Ok(SlackEvent::EventsApi(env)) => {
            assert_eq!(env.envelope_id, "ev-9");
            assert_eq!(
                env.payload,
                Json::Obj(vec![("type".to_owned(), Json::Str("event_callback".to_owned()))]),
            );
        }
        e => panic!("unexpected decode: {:?}", e),
    }
}

#[test]
fn unknown_outer_tag_is_an_error() {
    let tree = parse_json(r#"{"type":"surprise"}"#).unwrap();
    assert_eq!(decode_slack_event(tree), Err(DecodeError::UnknownType));
}

#[test]
fn missing_outer_tag_is_an_error() {
    let tree = parse_json(r#"{"envelope_id":"ev-9"}"#).unwrap();
    assert_eq!(decode_slack_event(tree), Err(DecodeError::MissingType));
    let number_tag = parse_json(r#"{"type":7}"#).unwrap();
    assert_eq!(decode_slack_event(number_tag), Err(DecodeError::MissingType));
}

#[test]
fn non_object_frame_is_an_error() {
    let tree = parse_json(r#"["type","hello"]"#).unwrap();
    assert_eq!(decode_slack_event(tree), Err(DecodeError::NotAnObject));
}

#[test]
fn envelope_missing_a_required_field_is_an_error() {
    let no_payload = parse_json(r#"{"type":"events_api","envelope_id":"ev-9"}"#).unwrap();
    assert_eq!(decode_slack_event(no_payload), Err(DecodeError::MissingField));
    let no_id = parse_json(r#"{"type":"events_api","payload":{}}"#).unwrap();
    assert_eq!(decode_slack_event(no_id), Err(DecodeError::MissingField));
    let hello_without_info = parse_json(r#"{"type":"hello"}"#).unwrap();
    assert_eq!(decode_slack_event(hello_without_info), Err(DecodeError::MissingField));
}

#[test]
fn payload_without_a_tag_is_an_error() {
    let tree = parse_json(r#"{"event_id":"E1"}"#).unwrap();
    assert_eq!(decode_events_api_payload(&tree), Err(DecodeError::MissingType));
}

#[test]
fn event_callback_missing_its_event_is_an_error() {
    let tree = parse_json(r#"{"type":"event_callback","event_id":"E1"}"#).unwrap();
    assert_eq!(decode_events_api_payload(&tree), Err(DecodeError::MissingField));
}

#[test]
fn message_without_subtype_decodes_to_plain() {
    let tree = parse_json(r#"{"type":"message","channel":"C1","ts":"1.1"}"#).unwrap();
    assert_eq!(
        decode_callback_event(&tree),
        Ok(EventCallbackEvent::Message(MessageEvent::Plain(CommonMessageEvent {
            channel: "C1".to_owned(),
            thread_ts: None,
            ts: "1.1".to_owned(),
        }))),
    );
}

#[test]
fn null_subtype_decodes_to_plain() {
    let tree = parse_json(r#"{"subtype":null,"channel":"C1","ts":"1.1"}"#).unwrap();
    let fields = match tree {
        Json::Obj(fields) => fields,
        _ => unreachable!(),
    };
    assert_eq!(
        decode_message_event(&fields),
        Ok(MessageEvent::Plain(CommonMessageEvent {
            channel: "C1".to_owned(),
            thread_ts: None,
            ts: "1.1".to_owned(),
        })),
    );
}

#[test]
fn numeric_subtype_decodes_to_other() {
    let tree = parse_json(r#"{"subtype":5,"channel":"C1","ts":"1.1"}"#).unwrap();
    let fields = match tree {
        Json::Obj(fields) => fields,
        _ => unreachable!(),
    };
    assert_eq!(decode_message_event(&fields), Ok(MessageEvent::Other));
}

#[test]
fn common_shape_requires_channel_and_ts() {
    let no_channel = match parse_json(r#"{"ts":"1.1"}"#).unwrap() {
        Json::Obj(fields) => fields,
        _ => unreachable!(),
    };
    assert_eq!(decode_common(&no_channel), Err(DecodeError::MissingField));
    let bad_thread = match parse_json(r#"{"channel":"C1","ts":"1.1","thread_ts":7}"#).unwrap() {
        Json::Obj(fields) => fields,
        _ => unreachable!(),
    };
    assert_eq!(decode_common(&bad_thread), Err(DecodeError::MissingField));
}

use socket_relay::classify::find_threaded_message;
use socket_relay::decode::{decode_events_api_payload, decode_slack_event, EventsApiPayload,
    SlackEvent};
use socket_relay::json::parse_json;

/// Decode a whole inbound frame text down to its Events-API payload, as the
/// receive loop would.
fn load_fixture(text: &str) -> EventsApiPayload {
    let tree = parse_json(text).expect("fixture is well-formed JSON");
    match decode_slack_event(tree).expect("fixture decodes to an envelope") {
        SlackEvent::EventsApi(env) => {
            decode_events_api_payload(&env.payload).expect("payload decodes")
        }
        e => panic!("decoded event is not an Events-API envelope: {:?}", e),
    }
}

fn envelope(event: &str) -> String {
    format!(
        r#"{{"type":"events_api","envelope_id":"ev-0001","payload":{{"type":"event_callback","event_id":"Ev0001","event":{}}}}}"#,
        event
    )
}

const PLAIN_MESSAGE: &str = r#"{"type":"message","channel":"C03387UAMQR","user":"U038PUNLJ","text":"hello there","ts":"1644939337.956639"}"#;

const THREADED_MESSAGE: &str = r#"{"type":"message","channel":"C03387UAMQR","user":"U038PUNLJ","text":"a reply in a thread","ts":"1644939337.956639","thread_ts":"1644939331.000100"}"#;

const THREADED_MESSAGE_CHANGED: &str = r#"{"type":"message","subtype":"message_changed","channel":"C03387UAMQR","ts":"1644939338.000200","message":{"type":"message","text":"a reply in a thread (edited)","ts":"1644939337.956639","thread_ts":"1644939331.000100"}}"#;

const BROADCASTED_THREADED_MESSAGE: &str = r#"{"type":"message","subtype":"thread_broadcast","channel":"C03387UAMQR","user":"U038PUNLJ","text":"a broadcasted reply","ts":"1644939340.000300","thread_ts":"1644939331.000100"}"#;

const BROADCASTED_THREADED_MESSAGE_CHANGED: &str = r#"{"type":"message","subtype":"message_changed","channel":"C03387UAMQR","ts":"1644939341.000400","message":{"type":"message","subtype":"thread_broadcast","text":"a broadcasted reply (edited)","ts":"1644939340.000300","thread_ts":"1644939331.000100"}}"#;

const THREADED_FILE_UPLOAD: &str = r#"{"type":"message","subtype":"file_share","channel":"C03387UAMQR","user":"U038PUNLJ","text":"a file in a thread","ts":"1644940789.277819","thread_ts":"1644939331.000100","files":[{"id":"F031T9EQ9AE","name":"note.txt"}]}"#;

const BROADCASTED_THREADED_FILE_UPLOAD: &str = r#"{"type":"message","subtype":"thread_broadcast","channel":"C03387UAMQR","user":"U038PUNLJ","text":"a broadcasted file","ts":"1644940790.300000","thread_ts":"1644939331.000100","files":[{"id":"F031T9EQ9AE","name":"note.txt"}]}"#;

#[test]
fn it_ignores_plain_message() {
    assert_eq!(find_threaded_message(load_fixture(&envelope(PLAIN_MESSAGE))), None);
}

#[test]
fn it_finds_threaded_message() {
    assert_eq!(
        find_threaded_message(load_fixture(&envelope(THREADED_MESSAGE))),
        Some(("C03387UAMQR".to_owned(), "1644939337.956639".to_owned())),
    );
    assert_eq!(
        find_threaded_message(load_fixture(&envelope(THREADED_MESSAGE_CHANGED))),
        None,
    );
}

#[test]
fn it_ignores_broadcasted_threaded_message() {
    assert_eq!(
        find_threaded_message(load_fixture(&envelope(BROADCASTED_THREADED_MESSAGE))),
        None,
    );
    assert_eq!(
        find_threaded_message(load_fixture(&envelope(BROADCASTED_THREADED_MESSAGE_CHANGED))),
        None,
    );
}

#[test]
fn it_finds_threaded_file_upload() {
    assert_eq!(
        find_threaded_message(load_fixture(&envelope(THREADED_FILE_UPLOAD))),
        Some(("C03387UAMQR".to_owned(), "1644940789.277819".to_owned())),
    );
}

#[test]
fn it_ignores_broadcasted_threaded_file_upload() {
    assert_eq!(
        find_threaded_message(load_fixture(&envelope(BROADCASTED_THREADED_FILE_UPLOAD))),
        None,
    );
}

/// A payload text straight at the payload layer, for the minimal scenarios.
fn load_payload(event: &str) -> EventsApiPayload {
    let text = format!(
        r#"{{"type":"event_callback","event_id":"E1","event":{}}}"#,
        event
    );
    let tree = parse_json(&text).expect("well-formed JSON");
    decode_events_api_payload(&tree).expect("payload decodes")
}

#[test]
fn plain_threaded_classifies_to_own_ts() {
    let p = load_payload(r#"{"type":"message","channel":"C1","ts":"1.1","thread_ts":"0.1"}"#);
    assert_eq!(find_threaded_message(p), Some(("C1".to_owned(), "1.1".to_owned())));
}

#[test]
fn unthreaded_plain_classifies_to_none() {
    let p = load_payload(r#"{"type":"message","channel":"C1","ts":"1.1"}"#);
    assert_eq!(find_threaded_message(p), None);
}

#[test]
fn threaded_file_share_classifies_like_plain() {
    let p = load_payload(
        r#"{"type":"message","subtype":"file_share","channel":"C1","ts":"2.2","thread_ts":"0.1"}"#,
    );
    assert_eq!(find_threaded_message(p), Some(("C1".to_owned(), "2.2".to_owned())));
}

#[test]
fn changed_message_classifies_to_none_despite_thread_ts() {
    let p = load_payload(
        r#"{"type":"message","subtype":"message_changed","channel":"C1","ts":"3.3","thread_ts":"0.1"}"#,
    );
    assert_eq!(find_threaded_message(p), None);
}

#[test]
fn null_thread_ts_classifies_to_none() {
    let plain = load_payload(r#"{"type":"message","channel":"C1","ts":"1.1","thread_ts":null}"#);
    assert_eq!(find_threaded_message(plain), None);
    let share = load_payload(
        r#"{"type":"message","subtype":"file_share","channel":"C1","ts":"2.2","thread_ts":null}"#,
    );
    assert_eq!(find_threaded_message(share), None);
}

#[test]
fn classification_is_a_pure_function_of_the_payload() {
    let text = r#"{"type":"message","channel":"C1","ts":"1.1","thread_ts":"0.1"}"#;
    let first = find_threaded_message(load_payload(text));
    let second = find_threaded_message(load_payload(text));
    assert_eq!(first, second);
    assert_eq!(first, Some(("C1".to_owned(), "1.1".to_owned())));
}

#[test]
fn unknown_payload_tag_decodes_and_classifies_to_none() {
    let tree = parse_json(r#"{"type":"brand_new_kind","anything":["goes",1]}"#).unwrap();
    let p = decode_events_api_payload(&tree).expect("unknown tags never fail the payload decode");
    assert_eq!(p, EventsApiPayload::Other);
    assert_eq!(find_threaded_message(p), None);
}

#[test]
fn unknown_callback_event_type_decodes_and_classifies_to_none() {
    let p = load_payload(r#"{"type":"reaction_added","user":"U1","reaction":"eyes"}"#);
    assert!(matches!(
        p,
        EventsApiPayload::EventCallback(ref ec)
            if ec.event == socket_relay::decode::EventCallbackEvent::Other
    ));
    assert_eq!(find_threaded_message(p), None);
}

//! The typed event model and its decoders.
//!
//! An inbound text frame decodes in two steps.  The outer envelope is strict:
//! a missing or unrecognized outer tag is a decode error, fatal to the frame.
//! The inner layers are forward-compatible: an unrecognized payload tag,
//! callback-event tag or message subtype decodes to a catch-all `Other`
//! variant, never to an error.

use vstd::prelude::*;
use crate::json::{Json, spec_obj_get, obj_get};

verus! {

/// Why a frame failed to decode.
#[derive(Debug, PartialEq, Eq)]
pub enum DecodeError {
    /// The text is not well-formed JSON.
    NotJson,
    /// The decoded shape is not an object where an object is required.
    NotAnObject,
    /// The `type` tag is absent or not a string.
    MissingType,
    /// The outer `type` tag names no known envelope.
    UnknownType,
    /// A required field of a recognized shape is absent or of the wrong type.
    MissingField,
}

/// A decoded inbound frame.
#[derive(Debug, PartialEq, Eq)]
pub enum SlackEvent {
    Hello(HelloEvent),
    Disconnect,
    EventsApi(EventsApiEvent),
}

#[derive(Debug, PartialEq, Eq)]
pub struct HelloEvent {
    pub connection_info: ConnectionInfo,
}

#[derive(Debug, PartialEq, Eq)]
pub struct ConnectionInfo {
    pub app_id: String,
}

/// An Events-API envelope; its payload is decoded lazily by
/// [`decode_events_api_payload`] once a caller needs it.
#[derive(Debug, PartialEq, Eq)]
pub struct EventsApiEvent {
    pub envelope_id: String,
    pub payload: Json,
}

/// The payload of an Events-API envelope.  Any tag other than
/// `event_callback` decodes to `Other`.
#[derive(Debug, PartialEq, Eq)]
pub enum EventsApiPayload {
    EventCallback(EventCallbackPayload),
    Other,
}

#[derive(Debug, PartialEq, Eq)]
pub struct EventCallbackPayload {
    pub event: EventCallbackEvent,
    pub event_id: String,
}

/// The event inside an `event_callback` payload.  Any tag other than
/// `message` decodes to `Other`.
#[derive(Debug, PartialEq, Eq)]
pub enum EventCallbackEvent {
    Message(MessageEvent),
    Other,
}

/// A message event, split on its optional `subtype` discriminator: no
/// subtype decodes to `Plain`, `file_share` to `FileShare`, any other
/// present subtype to `Other`.
#[derive(Debug, PartialEq, Eq)]
pub enum MessageEvent {
    Plain(CommonMessageEvent),
    FileShare(CommonMessageEvent),
    Other,
}

/// The fields shared by the plain and the file-share message shapes.
#[derive(Debug, PartialEq, Eq)]
pub struct CommonMessageEvent {
    pub channel: String,
    pub thread_ts: Option<String>,
    pub ts: String,
}

/// What decoding an inbound frame tree yields.
pub open spec fn spec_decode_slack_event(j: Json) -> Result<SlackEvent, DecodeError> {
    match j {
        Json::Obj(fields) => match spec_obj_get(fields@, "type"@) {
            Some(Json::Str(tag)) => if tag@ == "hello"@ {
                spec_decode_hello(fields@)
            } else if tag@ == "disconnect"@ {
                Ok(SlackEvent::Disconnect)
            } else if tag@ == "events_api"@ {
                spec_decode_events_api(fields@)
            } else {
                Err(DecodeError::UnknownType)
            },
            Some(_) => Err(DecodeError::MissingType),
            None => Err(DecodeError::MissingType),
        },
        _ => Err(DecodeError::NotAnObject),
    }
}

pub open spec fn spec_decode_hello(fields: Seq<(String, Json)>) -> Result<SlackEvent, DecodeError> {
    match spec_obj_get(fields, "connection_info"@) {
        Some(Json::Obj(ci)) => match spec_obj_get(ci@, "app_id"@) {
            Some(Json::Str(app_id)) => Ok(SlackEvent::Hello(HelloEvent {
                connection_info: ConnectionInfo { app_id },
            })),
            _ => Err(DecodeError::MissingField),
        },
        _ => Err(DecodeError::MissingField),
    }
}

pub open spec fn spec_decode_events_api(fields: Seq<(String, Json)>) -> Result<
    SlackEvent,
    DecodeError,
> {
    match (spec_obj_get(fields, "envelope_id"@), spec_obj_get(fields, "payload"@)) {
        (Some(Json::Str(envelope_id)), Some(payload)) => Ok(SlackEvent::EventsApi(EventsApiEvent {
            envelope_id,
            payload,
        })),
        _ => Err(DecodeError::MissingField),
    }
}

/// Decode the outer envelope of an inbound frame.
///
/// The outer layer is strict: an unrecognized `type` tag is an error.
pub fn decode_slack_event(j: Json) -> (r: Result<SlackEvent, DecodeError>)
    ensures
        r == spec_decode_slack_event(j),
{
    let mut fields: Vec<(String, Json)> = match j {
        Json::Obj(fields) => fields,
        _ => {
            return Err(DecodeError::NotAnObject);
        },
    };
    let tag: String = match obj_get(&fields, "type") {
        Some(Json::Str(tag)) => tag.clone(),
        Some(_) => {
            return Err(DecodeError::MissingType);
        },
        None => {
            return Err(DecodeError::MissingType);
        },
    };
    if crate::json::str_eq(tag.as_str(), "hello") {
        let ci_fields: &Vec<(String, Json)> = match obj_get(&fields, "connection_info") {
            Some(Json::Obj(ci)) => ci,
            _ => {
                return Err(DecodeError::MissingField);
            },
        };
        match obj_get(ci_fields, "app_id") {
            Some(Json::Str(app_id)) => Ok(SlackEvent::Hello(HelloEvent {
                connection_info: ConnectionInfo { app_id: app_id.clone() },
            })),
            _ => Err(DecodeError::MissingField),
        }
    } else if crate::json::str_eq(tag.as_str(), "disconnect") {
        Ok(SlackEvent::Disconnect)
    } else if crate::json::str_eq(tag.as_str(), "events_api") {
        let envelope_id: String = match obj_get(&fields, "envelope_id") {
            Some(Json::Str(id)) => id.clone(),
            _ => {
                return Err(DecodeError::MissingField);
            },
        };
        let payload_index: usize = match crate::json::obj_index(&fields, "payload") {
            Some(i) => i,
            None => {
                return Err(DecodeError::MissingField);
            },
        };
        let pair: (String, Json) = fields.remove(payload_index);
        Ok(SlackEvent::EventsApi(EventsApiEvent { envelope_id, payload: pair.1 }))
    } else {
        Err(DecodeError::UnknownType)
    }
}

/// What decoding an Events-API payload tree yields.
pub open spec fn spec_decode_events_api_payload(j: Json) -> Result<EventsApiPayload, DecodeError> {
    match j {
        Json::Obj(fields) => match spec_obj_get(fields@, "type"@) {
            Some(Json::Str(tag)) => if tag@ == "event_callback"@ {
                spec_decode_event_callback(fields@)
            } else {
                Ok(EventsApiPayload::Other)
            },
            Some(_) => Err(DecodeError::MissingType),
            None => Err(DecodeError::MissingType),
        },
        _ => Err(DecodeError::NotAnObject),
    }
}

pub open spec fn spec_decode_event_callback(fields: Seq<(String, Json)>) -> Result<
    EventsApiPayload,
    DecodeError,
> {
    match (spec_obj_get(fields, "event_id"@), spec_obj_get(fields, "event"@)) {
        (Some(Json::Str(event_id)), Some(ev)) => match spec_decode_callback_event(ev) {
            Ok(event) => Ok(EventsApiPayload::EventCallback(EventCallbackPayload {
                event,
                event_id,
            })),
            Err(e) => Err(e),
        },
        _ => Err(DecodeError::MissingField),
    }
}

pub open spec fn spec_decode_callback_event(j: Json) -> Result<EventCallbackEvent, DecodeError> {
    match j {
        Json::Obj(fields) => match spec_obj_get(fields@, "type"@) {
            Some(Json::Str(tag)) => if tag@ == "message"@ {
                match spec_decode_message_event(fields@) {
                    Ok(m) => Ok(EventCallbackEvent::Message(m)),
                    Err(e) => Err(e),
                }
            } else {
                Ok(EventCallbackEvent::Other)
            },
            Some(_) => Err(DecodeError::MissingType),
            None => Err(DecodeError::MissingType),
        },
        _ => Err(DecodeError::NotAnObject),
    }
}

/// The two-phase message decode: read `subtype` first, then decode the same
/// flat object as the chosen shape.
pub open spec fn spec_decode_message_event(fields: Seq<(String, Json)>) -> Result<
    MessageEvent,
    DecodeError,
> {
    match spec_obj_get(fields, "subtype"@) {
        None => match spec_decode_common(fields) {
            Ok(c) => Ok(MessageEvent::Plain(c)),
            Err(e) => Err(e),
        },
        Some(Json::Null) => match spec_decode_common(fields) {
            Ok(c) => Ok(MessageEvent::Plain(c)),
            Err(e) => Err(e),
        },
        Some(Json::Str(st)) => if st@ == "file_share"@ {
            match spec_decode_common(fields) {
                Ok(c) => Ok(MessageEvent::FileShare(c)),
                Err(e) => Err(e),
            }
        } else {
            Ok(MessageEvent::Other)
        },
        Some(_) => Ok(MessageEvent::Other),
    }
}

pub open spec fn spec_decode_common(fields: Seq<(String, Json)>) -> Result<
    CommonMessageEvent,
    DecodeError,
> {
    match (spec_obj_get(fields, "channel"@), spec_obj_get(fields, "ts"@)) {
        (Some(Json::Str(channel)), Some(Json::Str(ts))) => match spec_obj_get(
            fields,
            "thread_ts"@,
        ) {
            None => Ok(CommonMessageEvent { channel, thread_ts: None, ts }),
            Some(Json::Null) => Ok(CommonMessageEvent { channel, thread_ts: None, ts }),
            Some(Json::Str(t)) => Ok(CommonMessageEvent { channel, thread_ts: Some(t), ts }),
            Some(_) => Err(DecodeError::MissingField),
        },
        _ => Err(DecodeError::MissingField),
    }
}

/// Decode the payload of an Events-API envelope.
///
/// The inner layers are forward-compatible: any unrecognized tag or subtype
/// yields a catch-all variant, never an error.
pub fn decode_events_api_payload(j: &Json) -> (r: Result<EventsApiPayload, DecodeError>)
    ensures
        r == spec_decode_events_api_payload(*j),
{
    let fields: &Vec<(String, Json)> = match j {
        Json::Obj(fields) => fields,
        _ => {
            return Err(DecodeError::NotAnObject);
        },
    };
    let tag: &String = match obj_get(fields, "type") {
        Some(Json::Str(tag)) => tag,
        Some(_) => {
            return Err(DecodeError::MissingType);
        },
        None => {
            return Err(DecodeError::MissingType);
        },
    };
    if !crate::json::str_eq(tag.as_str(), "event_callback") {
        return Ok(EventsApiPayload::Other);
    }
    let event_id: String = match obj_get(fields, "event_id") {
        Some(Json::Str(id)) => id.clone(),
        _ => {
            return Err(DecodeError::MissingField);
        },
    };
    let ev: &Json = match obj_get(fields, "event") {
        Some(ev) => ev,
        None => {
            return Err(DecodeError::MissingField);
        },
    };
    match decode_callback_event(ev) {
        Ok(event) => Ok(EventsApiPayload::EventCallback(EventCallbackPayload {
            event,
            event_id,
        })),
        Err(e) => Err(e),
    }
}

/// Decode the callback event inside an `event_callback` payload.
pub fn decode_callback_event(j: &Json) -> (r: Result<EventCallbackEvent, DecodeError>)
    ensures
        r == spec_decode_callback_event(*j),
{
    let fields: &Vec<(String, Json)> = match j {
        Json::Obj(fields) => fields,
        _ => {
            return Err(DecodeError::NotAnObject);
        },
    };
    let tag: &String = match obj_get(fields, "type") {
        Some(Json::Str(tag)) => tag,
        Some(_) => {
            return Err(DecodeError::MissingType);
        },
        None => {
            return Err(DecodeError::MissingType);
        },
    };
    if !crate::json::str_eq(tag.as_str(), "message") {
        return Ok(EventCallbackEvent::Other);
    }
    match decode_message_event(fields) {
        Ok(m) => Ok(EventCallbackEvent::Message(m)),
        Err(e) => Err(e),
    }
}

/// Decode a message event from its flat object: first the optional
/// `subtype` discriminator, then the remaining fields as the chosen shape.
pub fn decode_message_event(fields: &Vec<(String, Json)>) -> (r: Result<MessageEvent, DecodeError>)
    ensures
        r == spec_decode_message_event(fields@),
{
    match obj_get(fields, "subtype") {
        None => match decode_common(fields) {
            Ok(c) => Ok(MessageEvent::Plain(c)),
            Err(e) => Err(e),
        },
        Some(Json::Null) => match decode_common(fields) {
            Ok(c) => Ok(MessageEvent::Plain(c)),
            Err(e) => Err(e),
        },
        Some(Json::Str(st)) => if crate::json::str_eq(st.as_str(), "file_share") {
            match decode_common(fields) {
                Ok(c) => Ok(MessageEvent::FileShare(c)),
                Err(e) => Err(e),
            }
        } else {
            Ok(MessageEvent::Other)
        },
        Some(_) => Ok(MessageEvent::Other),
    }
}

/// Decode the fields shared by the plain and the file-share shapes.
pub fn decode_common(fields: &Vec<(String, Json)>) -> (r: Result<CommonMessageEvent, DecodeError>)
    ensures
        r == spec_decode_common(fields@),
{
    let channel: String = match obj_get(fields, "channel") {
        Some(Json::Str(c)) => c.clone(),
        _ => {
            return Err(DecodeError::MissingField);
        },
    };
    let ts: String = match obj_get(fields, "ts") {
        Some(Json::Str(t)) => t.clone(),
        _ => {
            return Err(DecodeError::MissingField);
        },
    };
    match obj_get(fields, "thread_ts") {
        None => Ok(CommonMessageEvent { channel, thread_ts: None, ts }),
        Some(Json::Null) => Ok(CommonMessageEvent { channel, thread_ts: None, ts }),
        Some(Json::Str(t)) => Ok(CommonMessageEvent { channel, thread_ts: Some(t.clone()), ts }),
        Some(_) => Err(DecodeError::MissingField),
    }
}

} // verus!

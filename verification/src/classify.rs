//! The message classifier.
//!
//! A decoded Events-API payload classifies to a thread reference — the pair
//! `(channel, ts)` of a message that is part of a thread — exactly when it is
//! an `event_callback` carrying a plain or file-share message whose
//! `thread_ts` is present.  The emitted timestamp is the message's own `ts`,
//! not `thread_ts`: the follow-up call targets the specific reply, not the
//! thread root.

use vstd::prelude::*;
use crate::decode::{
    CommonMessageEvent, EventCallbackEvent, EventCallbackPayload, EventsApiPayload, MessageEvent,
};
use crate::json::{Json, spec_obj_get};
use crate::decode::{spec_decode_common, spec_decode_events_api_payload, spec_decode_message_event};

verus! {

/// The thread reference a payload classifies to, if any.
pub open spec fn spec_find_threaded_message(payload: EventsApiPayload) -> Option<(String, String)> {
    match payload {
        EventsApiPayload::EventCallback(ec) => match ec.event {
            EventCallbackEvent::Message(me) => match me {
                MessageEvent::Plain(e) => spec_thread_reference(e),
                MessageEvent::FileShare(e) => spec_thread_reference(e),
                MessageEvent::Other => None,
            },
            EventCallbackEvent::Other => None,
        },
        EventsApiPayload::Other => None,
    }
}

pub open spec fn spec_thread_reference(e: CommonMessageEvent) -> Option<(String, String)> {
    if e.thread_ts is Some {
        Some((e.channel, e.ts))
    } else {
        None
    }
}

/// Classify a decoded payload: the `(channel, ts)` of a new threaded reply,
/// or `None` for every payload that asks for no reaction.
///
/// The result is a pure function of the payload: equal payloads classify
/// alike, however often this is called.
pub fn find_threaded_message(payload: EventsApiPayload) -> (r: Option<(String, String)>)
    ensures
        r == spec_find_threaded_message(payload),
{
    let ec = match payload {
        EventsApiPayload::EventCallback(ec) => ec,
        EventsApiPayload::Other => {
            return None;
        },
    };
    let me = match ec.event {
        EventCallbackEvent::Message(me) => me,
        EventCallbackEvent::Other => {
            return None;
        },
    };
    let e = match me {
        MessageEvent::Plain(e) => e,
        MessageEvent::FileShare(e) => e,
        MessageEvent::Other => {
            return None;
        },
    };
    if e.thread_ts.is_none() {
        return None;
    }
    Some((e.channel, e.ts))
}

/// A message without a subtype decodes to the plain shape, and classifies,
/// when its `thread_ts` is present, to its channel and its own `ts`.
pub proof fn lemma_plain_threaded_classifies(
    fields: Seq<(String, Json)>,
    event_id: String,
    c: CommonMessageEvent,
)
    requires
        spec_obj_get(fields, "subtype"@) is None || spec_obj_get(fields, "subtype"@) == Some(
            Json::Null,
        ),
        spec_decode_common(fields) == Ok::<CommonMessageEvent, crate::decode::DecodeError>(c),
        c.thread_ts is Some,
    ensures
        spec_decode_message_event(fields) == Ok::<MessageEvent, crate::decode::DecodeError>(
            MessageEvent::Plain(c),
        ),
        spec_find_threaded_message(
            EventsApiPayload::EventCallback(
                EventCallbackPayload {
                    event: EventCallbackEvent::Message(MessageEvent::Plain(c)),
                    event_id,
                },
            ),
        ) == Some((c.channel, c.ts)),
{
}

/// A message whose `subtype` is present and is not `file_share` decodes to
/// the catch-all variant and classifies to `None`, whatever its `thread_ts`.
pub proof fn lemma_other_subtype_ignored(
    fields: Seq<(String, Json)>,
    event_id: String,
    st: Json,
)
    requires
        spec_obj_get(fields, "subtype"@) == Some(st),
        !(st is Null),
        st matches Json::Str(s) ==> s@ != "file_share"@,
    ensures
        spec_decode_message_event(fields) == Ok::<MessageEvent, crate::decode::DecodeError>(
            MessageEvent::Other,
        ),
        spec_find_threaded_message(
            EventsApiPayload::EventCallback(
                EventCallbackPayload {
                    event: EventCallbackEvent::Message(MessageEvent::Other),
                    event_id,
                },
            ),
        ) is None,
{
}

/// A message with `subtype = file_share` decodes to the file-share shape and
/// classifies exactly as the plain shape does: to `(channel, ts)` when its
/// `thread_ts` is present.
pub proof fn lemma_file_share_threaded_classifies(
    fields: Seq<(String, Json)>,
    event_id: String,
    st: String,
    c: CommonMessageEvent,
)
    requires
        spec_obj_get(fields, "subtype"@) == Some(Json::Str(st)),
        st@ == "file_share"@,
        spec_decode_common(fields) == Ok::<CommonMessageEvent, crate::decode::DecodeError>(c),
        c.thread_ts is Some,
    ensures
        spec_decode_message_event(fields) == Ok::<MessageEvent, crate::decode::DecodeError>(
            MessageEvent::FileShare(c),
        ),
        spec_find_threaded_message(
            EventsApiPayload::EventCallback(
                EventCallbackPayload {
                    event: EventCallbackEvent::Message(MessageEvent::FileShare(c)),
                    event_id,
                },
            ),
        ) == spec_find_threaded_message(
            EventsApiPayload::EventCallback(
                EventCallbackPayload {
                    event: EventCallbackEvent::Message(MessageEvent::Plain(c)),
                    event_id,
                },
            ),
        ),
        spec_find_threaded_message(
            EventsApiPayload::EventCallback(
                EventCallbackPayload {
                    event: EventCallbackEvent::Message(MessageEvent::FileShare(c)),
                    event_id,
                },
            ),
        ) == Some((c.channel, c.ts)),
{
}

/// A plain or file-share message whose `thread_ts` is absent classifies to
/// `None`.
pub proof fn lemma_unthreaded_ignored(event_id: String, c: CommonMessageEvent)
    requires
        c.thread_ts is None,
    ensures
        spec_find_threaded_message(
            EventsApiPayload::EventCallback(
                EventCallbackPayload {
                    event: EventCallbackEvent::Message(MessageEvent::Plain(c)),
                    event_id,
                },
            ),
        ) is None,
        spec_find_threaded_message(
            EventsApiPayload::EventCallback(
                EventCallbackPayload {
                    event: EventCallbackEvent::Message(MessageEvent::FileShare(c)),
                    event_id,
                },
            ),
        ) is None,
{
}

/// An unrecognized Events-API payload tag decodes, without error, to the
/// catch-all payload, and that payload classifies to `None`.
pub proof fn lemma_unknown_payload_tag_ignored(fields: Vec<(String, Json)>, tag: String)
    requires
        spec_obj_get(fields@, "type"@) == Some(Json::Str(tag)),
        tag@ != "event_callback"@,
    ensures
        spec_decode_events_api_payload(Json::Obj(fields)) == Ok::<
            EventsApiPayload,
            crate::decode::DecodeError,
        >(EventsApiPayload::Other),
        spec_find_threaded_message(EventsApiPayload::Other) is None,
{
}

/// An unrecognized callback-event type decodes, without error, to the
/// catch-all event, and a payload carrying it classifies to `None`.
pub proof fn lemma_unknown_event_type_ignored(
    fields: Vec<(String, Json)>,
    tag: String,
    event_id: String,
)
    requires
        spec_obj_get(fields@, "type"@) == Some(Json::Str(tag)),
        tag@ != "message"@,
    ensures
        crate::decode::spec_decode_callback_event(Json::Obj(fields)) == Ok::<
            EventCallbackEvent,
            crate::decode::DecodeError,
        >(EventCallbackEvent::Other),
        spec_find_threaded_message(
            EventsApiPayload::EventCallback(
                EventCallbackPayload { event: EventCallbackEvent::Other, event_id },
            ),
        ) is None,
{
}

} // verus!

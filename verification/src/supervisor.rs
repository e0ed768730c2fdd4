//! The connection supervisor, as a pure state machine.
//!
//! The supervisor owns the connection lifecycle: handshake, the receive
//! loop, liveness pongs, the decode → classify → react chain for text
//! frames, one acknowledgment per dispatched envelope, and the return to the
//! handshake whenever the stream ends.  It is written as a step function
//! from state and event to next state and action: the embedding program
//! performs each action (an HTTP call, a frame sent or received) and hands
//! the outcome back as the next event, so that every decision stands here,
//! verified, and no I/O does.
//!
//! A deliberate sharp edge: a refusal from either reaction call, like a
//! frame that fails to decode, is fatal to the whole relay ([`Action::Fail`]
//! ends the process), not to that one event alone.  Only a stream read
//! error, a close frame or a disconnect event are survived, by closing the
//! stream and handshaking again.

use vstd::prelude::*;
use crate::classify::{find_threaded_message, spec_find_threaded_message};
use crate::decode::{DecodeError, SlackEvent, spec_decode_events_api_payload,
    spec_decode_slack_event};
use crate::json::{Json, spec_parse_json};
use crate::responses::{response_field, spec_response_field};
use crate::wire::{ack_text, spec_ack_text};

verus! {

/// One discrete unit of the duplex stream protocol.
#[derive(Debug, PartialEq, Eq)]
pub enum Frame {
    Ping(Vec<u8>),
    Pong(Vec<u8>),
    Text(String),
    Binary(Vec<u8>),
    Close,
}

/// What the embedding program hands back after performing an action.
#[derive(Debug, PartialEq, Eq)]
pub enum Event {
    /// The decoded body answering [`Action::CallOpen`].
    HandshakeResponse(Json),
    /// The stream requested by [`Action::OpenStream`] is open.
    StreamOpened,
    /// A frame arrived, answering [`Action::Receive`].
    Frame(Frame),
    /// The read failed, answering [`Action::Receive`].
    ReadError,
    /// The stream is closed, answering [`Action::CloseStream`].
    Closed,
    /// An outbound frame went out, answering [`Action::SendPong`] or
    /// [`Action::SendText`].
    Sent,
    /// The decoded body answering [`Action::CallGetPermalink`].
    PermalinkResponse(Json),
    /// The decoded body answering [`Action::CallPostMessage`].
    PostResponse(Json),
}

/// Why the relay ends: these errors are fatal to the process.
#[derive(Debug, PartialEq, Eq)]
pub enum RelayError {
    /// A text frame failed to decode.
    BadFrame(DecodeError),
    /// The open-connection call answered `ok: false` or a malformed body.
    HandshakeRefused,
    /// The resolve-permalink call answered `ok: false` or a malformed body.
    PermalinkRefused,
    /// The post-message call answered `ok: false` or a malformed body.
    PostRefused,
}

/// Where the supervisor stands, between one event and the next.
#[derive(Debug, PartialEq, Eq)]
pub enum State {
    /// The open-connection call is out.
    Handshaking,
    /// The stream is being opened against a granted URL.
    Opening,
    /// The receive loop is waiting for a frame.
    Connected,
    /// A pong is being sent.
    SendingPong,
    /// An acknowledgment is being sent.
    SendingAck,
    /// The resolve-permalink call is out for a classified message.
    ResolvingPermalink { channel: String, envelope_id: String },
    /// The post-message call is out.
    Posting { envelope_id: String },
    /// The stream is being closed before a new handshake.
    Closing,
    /// A fatal error ended the relay.
    Failed,
}

/// What the embedding program must do next.
#[derive(Debug, PartialEq, Eq)]
pub enum Action {
    /// Call the open-connection collaborator; answer with
    /// [`Event::HandshakeResponse`].
    CallOpen,
    /// Open the duplex stream against `url`; answer with
    /// [`Event::StreamOpened`].
    OpenStream { url: String },
    /// Receive one frame; answer with [`Event::Frame`] or
    /// [`Event::ReadError`].
    Receive,
    /// Send a pong carrying `payload`; answer with [`Event::Sent`].
    SendPong { payload: Vec<u8> },
    /// Send a text frame; answer with [`Event::Sent`].
    SendText { text: String },
    /// Call the resolve-permalink collaborator; answer with
    /// [`Event::PermalinkResponse`].
    CallGetPermalink { channel: String, message_ts: String },
    /// Call the post-message collaborator; answer with
    /// [`Event::PostResponse`].
    CallPostMessage { channel: String, text: String },
    /// Close the stream; answer with [`Event::Closed`].
    CloseStream,
    /// Stop: the error is fatal to the process.
    Fail { error: RelayError },
}

/// A state, with its strings as character sequences.
pub enum StateV {
    Handshaking,
    Opening,
    Connected,
    SendingPong,
    SendingAck,
    ResolvingPermalink { channel: Seq<char>, envelope_id: Seq<char> },
    Posting { envelope_id: Seq<char> },
    Closing,
    Failed,
}

/// An action, with its strings and bytes as sequences.
pub enum ActionV {
    CallOpen,
    OpenStream { url: Seq<char> },
    Receive,
    SendPong { payload: Seq<u8> },
    SendText { text: Seq<char> },
    CallGetPermalink { channel: Seq<char>, message_ts: Seq<char> },
    CallPostMessage { channel: Seq<char>, text: Seq<char> },
    CloseStream,
    Fail { error: RelayError },
}

pub open spec fn state_view(s: State) -> StateV {
    match s {
        State::Handshaking => StateV::Handshaking,
        State::Opening => StateV::Opening,
        State::Connected => StateV::Connected,
        State::SendingPong => StateV::SendingPong,
        State::SendingAck => StateV::SendingAck,
        State::ResolvingPermalink { channel, envelope_id } => StateV::ResolvingPermalink {
            channel: channel@,
            envelope_id: envelope_id@,
        },
        State::Posting { envelope_id } => StateV::Posting { envelope_id: envelope_id@ },
        State::Closing => StateV::Closing,
        State::Failed => StateV::Failed,
    }
}

pub open spec fn action_view(a: Action) -> ActionV {
    match a {
        Action::CallOpen => ActionV::CallOpen,
        Action::OpenStream { url } => ActionV::OpenStream { url: url@ },
        Action::Receive => ActionV::Receive,
        Action::SendPong { payload } => ActionV::SendPong { payload: payload@ },
        Action::SendText { text } => ActionV::SendText { text: text@ },
        Action::CallGetPermalink { channel, message_ts } => ActionV::CallGetPermalink {
            channel: channel@,
            message_ts: message_ts@,
        },
        Action::CallPostMessage { channel, text } => ActionV::CallPostMessage {
            channel: channel@,
            text: text@,
        },
        Action::CloseStream => ActionV::CloseStream,
        Action::Fail { error } => ActionV::Fail { error },
    }
}

/// Whether `e` is the event that answers the action taken out of `s`: the
/// protocol the embedding program keeps.
pub open spec fn spec_expects(s: State, e: Event) -> bool {
    match (s, e) {
        (State::Handshaking, Event::HandshakeResponse(_)) => true,
        (State::Opening, Event::StreamOpened) => true,
        (State::Connected, Event::Frame(_)) => true,
        (State::Connected, Event::ReadError) => true,
        (State::SendingPong, Event::Sent) => true,
        (State::SendingAck, Event::Sent) => true,
        (State::ResolvingPermalink { .. }, Event::PermalinkResponse(_)) => true,
        (State::Posting { .. }, Event::PostResponse(_)) => true,
        (State::Closing, Event::Closed) => true,
        _ => false,
    }
}

/// What one step of the supervisor does, on every state and answering event.
pub open spec fn spec_step(s: State, e: Event) -> (StateV, ActionV) {
    match (s, e) {
        (State::Handshaking, Event::HandshakeResponse(j)) => match spec_response_field(
            j,
            "url"@,
        ) {
            Ok(url) => (StateV::Opening, ActionV::OpenStream { url: url@ }),
            Err(_) => (StateV::Failed, ActionV::Fail { error: RelayError::HandshakeRefused }),
        },
        (State::Opening, Event::StreamOpened) => (StateV::Connected, ActionV::Receive),
        (State::Connected, Event::Frame(f)) => spec_on_frame(f),
        (State::Connected, Event::ReadError) => (StateV::Closing, ActionV::CloseStream),
        (State::SendingPong, Event::Sent) => (StateV::Connected, ActionV::Receive),
        (State::SendingAck, Event::Sent) => (StateV::Connected, ActionV::Receive),
        (State::ResolvingPermalink { channel, envelope_id }, Event::PermalinkResponse(j)) =>
            match spec_response_field(j, "permalink"@) {
            Ok(permalink) => (
                StateV::Posting { envelope_id: envelope_id@ },
                ActionV::CallPostMessage { channel: channel@, text: permalink@ },
            ),
            Err(_) => (StateV::Failed, ActionV::Fail { error: RelayError::PermalinkRefused }),
        },
        (State::Posting { envelope_id }, Event::PostResponse(j)) => match spec_response_field(
            j,
            "ts"@,
        ) {
            Ok(_) => (StateV::SendingAck, ActionV::SendText { text: spec_ack_text(envelope_id@) }),
            Err(_) => (StateV::Failed, ActionV::Fail { error: RelayError::PostRefused }),
        },
        (State::Closing, Event::Closed) => (StateV::Handshaking, ActionV::CallOpen),
        _ => arbitrary(),
    }
}

/// How the receive loop answers one frame.
pub open spec fn spec_on_frame(f: Frame) -> (StateV, ActionV) {
    match f {
        Frame::Ping(payload) => (StateV::SendingPong, ActionV::SendPong { payload: payload@ }),
        Frame::Pong(_) => (StateV::Connected, ActionV::Receive),
        Frame::Binary(_) => (StateV::Connected, ActionV::Receive),
        Frame::Close => (StateV::Closing, ActionV::CloseStream),
        Frame::Text(s) => spec_on_text(s@),
    }
}

/// How the receive loop answers one text frame: decode, classify, then
/// either start the reaction or acknowledge at once.
pub open spec fn spec_on_text(s: Seq<char>) -> (StateV, ActionV) {
    match spec_parse_json(s) {
        None => (
            StateV::Failed,
            ActionV::Fail { error: RelayError::BadFrame(DecodeError::NotJson) },
        ),
        Some(j) => match spec_decode_slack_event(j) {
            Err(e) => (StateV::Failed, ActionV::Fail { error: RelayError::BadFrame(e) }),
            Ok(SlackEvent::Hello(_)) => (StateV::Connected, ActionV::Receive),
            Ok(SlackEvent::Disconnect) => (StateV::Closing, ActionV::CloseStream),
            Ok(SlackEvent::EventsApi(env)) => match spec_decode_events_api_payload(env.payload) {
                Err(e) => (StateV::Failed, ActionV::Fail { error: RelayError::BadFrame(e) }),
                Ok(p) => match spec_find_threaded_message(p) {
                    Some(r) => (
                        StateV::ResolvingPermalink {
                            channel: r.0@,
                            envelope_id: env.envelope_id@,
                        },
                        ActionV::CallGetPermalink { channel: r.0@, message_ts: r.1@ },
                    ),
                    None => (
                        StateV::SendingAck,
                        ActionV::SendText { text: spec_ack_text(env.envelope_id@) },
                    ),
                },
            },
        },
    }
}

/// The supervisor: one long-lived state machine over the whole process.
pub struct Supervisor {
    pub state: State,
}

impl Supervisor {
    /// A fresh supervisor; the returned action starts the first handshake.
    pub fn new() -> (r: (Supervisor, Action))
        ensures
            state_view(r.0.state) == StateV::Handshaking,
            action_view(r.1) == ActionV::CallOpen,
    {
        (Supervisor { state: State::Handshaking }, Action::CallOpen)
    }

    /// Take one step: consume the event answering the last action, move to
    /// the next state and say what to do next.
    pub fn step(self, event: Event) -> (r: (Supervisor, Action))
        requires
            spec_expects(self.state, event),
        ensures
            state_view(r.0.state) == spec_step(self.state, event).0,
            action_view(r.1) == spec_step(self.state, event).1,
    {
        let Supervisor { state } = self;
        match (state, event) {
            (State::Handshaking, Event::HandshakeResponse(j)) => match response_field(&j, "url") {
                Ok(url) => (Supervisor { state: State::Opening }, Action::OpenStream { url }),
                Err(_) => (
                    Supervisor { state: State::Failed },
                    Action::Fail { error: RelayError::HandshakeRefused },
                ),
            },
            (State::Opening, Event::StreamOpened) => (
                Supervisor { state: State::Connected },
                Action::Receive,
            ),
            (State::Connected, Event::Frame(f)) => on_frame(f),
            (State::Connected, Event::ReadError) => (
                Supervisor { state: State::Closing },
                Action::CloseStream,
            ),
            (State::SendingPong, Event::Sent) => (
                Supervisor { state: State::Connected },
                Action::Receive,
            ),
            (State::SendingAck, Event::Sent) => (
                Supervisor { state: State::Connected },
                Action::Receive,
            ),
            (State::ResolvingPermalink { channel, envelope_id }, Event::PermalinkResponse(j)) =>
                match response_field(&j, "permalink") {
                Ok(permalink) => (
                    Supervisor { state: State::Posting { envelope_id } },
                    Action::CallPostMessage { channel, text: permalink },
                ),
                Err(_) => (
                    Supervisor { state: State::Failed },
                    Action::Fail { error: RelayError::PermalinkRefused },
                ),
            },
            (State::Posting { envelope_id }, Event::PostResponse(j)) => match response_field(
                &j,
                "ts",
            ) {
                Ok(_) => {
                    let text = ack_text(envelope_id.as_str());
                    (Supervisor { state: State::SendingAck }, Action::SendText { text })
                },
                Err(_) => (
                    Supervisor { state: State::Failed },
                    Action::Fail { error: RelayError::PostRefused },
                ),
            },
            (State::Closing, Event::Closed) => (
                Supervisor { state: State::Handshaking },
                Action::CallOpen,
            ),
            _ => {
                proof {
                    assert(false);
                }
                (Supervisor { state: State::Failed }, Action::CloseStream)
            },
        }
    }
}

/// Answer one received frame.
fn on_frame(f: Frame) -> (r: (Supervisor, Action))
    ensures
        state_view(r.0.state) == spec_on_frame(f).0,
        action_view(r.1) == spec_on_frame(f).1,
{
    match f {
        Frame::Ping(payload) => (
            Supervisor { state: State::SendingPong },
            Action::SendPong { payload },
        ),
        Frame::Pong(_) => (Supervisor { state: State::Connected }, Action::Receive),
        Frame::Binary(_) => (Supervisor { state: State::Connected }, Action::Receive),
        Frame::Close => (Supervisor { state: State::Closing }, Action::CloseStream),
        Frame::Text(s) => on_text(s),
    }
}

/// Answer one text frame: decode, classify, react or acknowledge.
fn on_text(s: String) -> (r: (Supervisor, Action))
    ensures
        state_view(r.0.state) == spec_on_text(s@).0,
        action_view(r.1) == spec_on_text(s@).1,
{
    let j: Json = match crate::json::parse_json(s.as_str()) {
        Some(j) => j,
        None => {
            return (
                Supervisor { state: State::Failed },
                Action::Fail { error: RelayError::BadFrame(DecodeError::NotJson) },
            );
        },
    };
    let ev: SlackEvent = match crate::decode::decode_slack_event(j) {
        Ok(ev) => ev,
        Err(e) => {
            return (
                Supervisor { state: State::Failed },
                Action::Fail { error: RelayError::BadFrame(e) },
            );
        },
    };
    match ev {
        SlackEvent::Hello(_) => (Supervisor { state: State::Connected }, Action::Receive),
        SlackEvent::Disconnect => (Supervisor { state: State::Closing }, Action::CloseStream),
        SlackEvent::EventsApi(env) => {
            let payload = match crate::decode::decode_events_api_payload(&env.payload) {
                Ok(p) => p,
                Err(e) => {
                    return (
                        Supervisor { state: State::Failed },
                        Action::Fail { error: RelayError::BadFrame(e) },
                    );
                },
            };
            match find_threaded_message(payload) {
                Some(r) => {
                    let action = Action::CallGetPermalink {
                        channel: r.0.clone(),
                        message_ts: r.1,
                    };
                    (
                        Supervisor {
                            state: State::ResolvingPermalink {
                                channel: r.0,
                                envelope_id: env.envelope_id,
                            },
                        },
                        action,
                    )
                },
                None => {
                    let text = ack_text(env.envelope_id.as_str());
                    (Supervisor { state: State::SendingAck }, Action::SendText { text })
                },
            }
        },
    }
}

/// One inbound ping produces exactly one outbound pong carrying the same
/// payload, and no other side effect: the step after the send only returns
/// to receiving.
pub proof fn lemma_ping_pong(p: Vec<u8>)
    ensures
        spec_step(State::Connected, Event::Frame(Frame::Ping(p))) == (
            StateV::SendingPong,
            ActionV::SendPong { payload: p@ },
        ),
        spec_step(State::SendingPong, Event::Sent) == (StateV::Connected, ActionV::Receive),
{
}

/// A close frame or a stream read error closes the stream, and the closed
/// stream leads straight back to the handshake: no further frame is
/// received before the open-connection collaborator is invoked again.
pub proof fn lemma_close_reconnects()
    ensures
        spec_step(State::Connected, Event::Frame(Frame::Close)) == (
            StateV::Closing,
            ActionV::CloseStream,
        ),
        spec_step(State::Connected, Event::ReadError) == (StateV::Closing, ActionV::CloseStream),
        spec_step(State::Closing, Event::Closed) == (StateV::Handshaking, ActionV::CallOpen),
{
}

/// Every dispatched Events-API envelope is acknowledged exactly once, with
/// its own envelope id, whether or not the classification matched: a text
/// frame whose payload classifies to nothing is answered with the
/// acknowledgment at once, and one that classifies to a thread reference is
/// answered with it right after the reaction's post is granted — the
/// acknowledgment signals "frame received", not "reaction succeeded".
pub proof fn lemma_envelope_acked_exactly_once(
    s: Seq<char>,
    env: crate::decode::EventsApiEvent,
    p: crate::decode::EventsApiPayload,
)
    requires
        spec_parse_json(s) is Some,
        spec_decode_slack_event(spec_parse_json(s).unwrap()) == Ok::<SlackEvent, DecodeError>(
            SlackEvent::EventsApi(env),
        ),
        spec_decode_events_api_payload(env.payload) == Ok::<
            crate::decode::EventsApiPayload,
            DecodeError,
        >(p),
    ensures
        spec_find_threaded_message(p) is None ==> spec_on_text(s) == (
            StateV::SendingAck,
            ActionV::SendText { text: spec_ack_text(env.envelope_id@) },
        ),
        spec_find_threaded_message(p) matches Some(r) ==> spec_on_text(s) == (
            StateV::ResolvingPermalink { channel: r.0@, envelope_id: env.envelope_id@ },
            ActionV::CallGetPermalink { channel: r.0@, message_ts: r.1@ },
        ),
        forall|j: Json|
            #[trigger] spec_response_field(j, "ts"@) is Ok ==> spec_step(
                State::Posting { envelope_id: env.envelope_id },
                Event::PostResponse(j),
            ) == (StateV::SendingAck, ActionV::SendText { text: spec_ack_text(env.envelope_id@) }),
{
}

/// Frames are only ever requested while the supervisor is connected: every
/// step that asks the embedding program to receive leaves the machine in
/// the connected state.
pub proof fn lemma_receive_only_when_connected(s: State, e: Event)
    requires
        spec_expects(s, e),
    ensures
        spec_step(s, e).1 == ActionV::Receive ==> spec_step(s, e).0 == StateV::Connected,
{
}

} // verus!

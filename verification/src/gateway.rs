//! Gateway session logic: classification of inbound frames into typed
//! events, the close-code table deciding resume vs. reconnect vs. fatal,
//! and the typed outbound commands of the gateway wire protocol.

use vstd::prelude::*;
use crate::events::{Event, Interaction, ReadyUser, VoiceServer, VoiceState};

verus! {

/// The saved state needed to resume a session after a short drop:
/// where to reconnect, which session to reattach, and the last
/// sequence number seen.
#[derive(Debug, Clone)]
pub struct ResumeProperties {
    pub resume_gateway_url: String,
    pub session_id: String,
    pub seq: u64,
    pub token: String,
}

/// A connection-level failure while classifying an inbound payload.
#[derive(Debug, PartialEq, Eq, Structural, Clone, Copy)]
pub enum ProtocolError {
    /// The dispatch name was recognised but its data was missing or
    /// had the wrong shape.
    MalformedData,
    /// The dispatch name is not one this client decodes.
    UnknownEvent,
}

/// True for close codes after which the session can be resumed
/// with the saved resume token.
pub open spec fn is_resume_code(code: u16) -> bool {
    code == 4000 || code == 4001 || code == 4002 || code == 4009
}

/// True for close codes after which the session must be abandoned
/// and a fresh one identified from scratch.
pub open spec fn is_reconnect_code(code: u16) -> bool {
    code == 4003 || code == 4005 || code == 4007 || code == 4008
}

/// True for close codes that signal an unrecoverable failure
/// (bad credentials, bad intents, bad protocol version).
pub open spec fn is_fatal_code(code: u16) -> bool {
    code == 4004 || code == 4010 || code == 4011 || code == 4013 || code == 4014
}

/// What the session does after its socket closes.
#[derive(Debug, PartialEq, Eq, Structural, Clone, Copy)]
pub enum CloseAction {
    /// Reattach to the existing session using the resume token.
    Resume,
    /// Abandon the session and identify from scratch.
    Reconnect,
    /// Surface the close reason to the operator; do not retry silently.
    Fatal,
}

/// Classify a close code. Codes outside the known sets default to
/// `Resume`, the conservative choice.
pub fn close_action(code: u16) -> (action: CloseAction)
    ensures
        is_reconnect_code(code) ==> action == CloseAction::Reconnect,
        is_fatal_code(code) ==> action == CloseAction::Fatal,
        !is_reconnect_code(code) && !is_fatal_code(code) ==> action == CloseAction::Resume,
{
    if code == 4003 || code == 4005 || code == 4007 || code == 4008 {
        CloseAction::Reconnect
    } else if code == 4004 || code == 4010 || code == 4011 || code == 4013 || code == 4014 {
        CloseAction::Fatal
    } else {
        CloseAction::Resume
    }
}

/// The close notice read from the socket: the code and the peer's reason.
#[derive(Debug, Clone)]
pub struct CloseInfo {
    pub code: u16,
    pub reason: String,
}

/// Decide what the session does after its socket closed: `Resume` or
/// `Reconnect` as an event for the orchestrator, or, for a fatal code,
/// the close reason as an error to surface. A missing close notice is
/// treated as resumable.
pub fn on_close(close: Option<CloseInfo>) -> (outcome: Result<Event, String>)
    ensures
        match close {
            None => outcome == Ok::<Event, String>(Event::Resume),
            Some(info) => {
                if is_fatal_code(info.code) {
                    outcome == Err::<Event, String>(info.reason)
                } else if is_reconnect_code(info.code) {
                    outcome == Ok::<Event, String>(Event::Reconnect)
                } else {
                    outcome == Ok::<Event, String>(Event::Resume)
                }
            },
        },
{
    match close {
        None => Ok(Event::Resume),
        Some(info) => match close_action(info.code) {
            CloseAction::Resume => Ok(Event::Resume),
            CloseAction::Reconnect => Ok(Event::Reconnect),
            CloseAction::Fatal => Err(info.reason),
        },
    }
}

/// The decoded data of a named dispatch payload.
#[derive(Debug)]
pub enum DispatchData {
    /// No data, or data of a shape this client does not decode.
    Absent,
    Ready(ReadyUser),
    Interaction(Interaction),
    VoiceState(VoiceState),
    VoiceServer(VoiceServer),
}

/// The typed event a named dispatch payload decodes to, or the error
/// when the name is unknown or the data does not fit the name.
pub open spec fn spec_create_event(name: Seq<char>, data: DispatchData) -> Result<
    Event,
    ProtocolError,
> {
    if name == "READY"@ {
        match data {
            DispatchData::Ready(user) => Ok(Event::Ready(user)),
            _ => Err(ProtocolError::MalformedData),
        }
    } else if name == "INTERACTION_CREATE"@ {
        match data {
            DispatchData::Interaction(interaction) => Ok(Event::InteractionCreate(interaction)),
            _ => Err(ProtocolError::MalformedData),
        }
    } else if name == "VOICE_STATE_UPDATE"@ {
        match data {
            DispatchData::VoiceState(state) => Ok(Event::VoiceStateUpdate(state)),
            _ => Err(ProtocolError::MalformedData),
        }
    } else if name == "VOICE_SERVER_UPDATE"@ {
        match data {
            DispatchData::VoiceServer(server) => Ok(Event::VoiceServerUpdate(server)),
            _ => Err(ProtocolError::MalformedData),
        }
    } else {
        Err(ProtocolError::UnknownEvent)
    }
}

/// Decode one named dispatch payload into its typed event.
/// Unrecognised names are reported, not silently dropped; the caller
/// decides to ignore them.
pub fn create_event(event_name: &String, data: DispatchData) -> (event: Result<
    Event,
    ProtocolError,
>)
    ensures
        event == spec_create_event(event_name@, data),
{
    if *event_name == String::from_str("READY") {
        match data {
            DispatchData::Ready(user) => Ok(Event::Ready(user)),
            _ => Err(ProtocolError::MalformedData),
        }
    } else if *event_name == String::from_str("INTERACTION_CREATE") {
        match data {
            DispatchData::Interaction(interaction) => Ok(Event::InteractionCreate(interaction)),
            _ => Err(ProtocolError::MalformedData),
        }
    } else if *event_name == String::from_str("VOICE_STATE_UPDATE") {
        match data {
            DispatchData::VoiceState(state) => Ok(Event::VoiceStateUpdate(state)),
            _ => Err(ProtocolError::MalformedData),
        }
    } else if *event_name == String::from_str("VOICE_SERVER_UPDATE") {
        match data {
            DispatchData::VoiceServer(server) => Ok(Event::VoiceServerUpdate(server)),
            _ => Err(ProtocolError::MalformedData),
        }
    } else {
        Err(ProtocolError::UnknownEvent)
    }
}

/// One inbound text frame, decoded to the fields this client reads:
/// opcode, sequence number, dispatch name, and the pieces of data the
/// session consumes directly.
#[derive(Debug)]
pub struct GatewayFrame {
    pub op: Option<u64>,
    pub seq: Option<u64>,
    pub event_name: Option<String>,
    /// The resume endpoint carried by a ready payload.
    pub resume_gateway_url: Option<String>,
    /// The session id carried by a ready payload.
    pub session_id: Option<String>,
    pub data: DispatchData,
}

/// What the reader does with one inbound frame: the events to forward,
/// and whether the reader stops so the session can be replaced.
#[derive(Debug)]
pub struct StepResult {
    pub events: Vec<Event>,
    pub stop: bool,
}

/// The events a frame's sequence number contributes.
pub open spec fn spec_seq_events(frame: GatewayFrame) -> Seq<Event> {
    match frame.seq {
        Some(s) => seq![Event::ResumeSeq(s)],
        None => Seq::empty(),
    }
}

/// The events one inbound frame produces, in order: a sequence event
/// when a sequence number is present; a resume request on a reconnect
/// notice (opcode 7) or an invalid-session notice (opcode 9), the
/// lenient default; for a named dispatch, the resume properties of a
/// ready payload and then the typed event, with unknown or
/// ill-fitting payloads dropped.
pub open spec fn spec_step_events(frame: GatewayFrame) -> Seq<Event> {
    let base = spec_seq_events(frame);
    if frame.op == Some(7u64) || frame.op == Some(9u64) {
        base.push(Event::Resume)
    } else {
        match frame.event_name {
            None => base,
            Some(name) => {
                if name@ == "READY"@ && (frame.resume_gateway_url is None
                    || frame.session_id is None) {
                    base
                } else {
                    let named = if name@ == "READY"@ {
                        base.push(
                            Event::ResumeProps(
                                (frame.resume_gateway_url->Some_0, frame.session_id->Some_0),
                            ),
                        )
                    } else {
                        base
                    };
                    match spec_create_event(name@, frame.data) {
                        Ok(event) => named.push(event),
                        Err(_) => named,
                    }
                }
            },
        }
    }
}

/// Whether the reader stops after this frame: only a reconnect notice
/// (opcode 7) or an invalid-session notice (opcode 9) ends it.
pub open spec fn spec_step_stop(frame: GatewayFrame) -> bool {
    frame.op == Some(7u64) || frame.op == Some(9u64)
}

/// Process one inbound frame of the gateway session: forward the
/// sequence number, obey reconnect and invalid-session notices, and
/// decode named dispatch payloads into typed events.
pub fn gateway_step(frame: GatewayFrame) -> (result: StepResult)
    ensures
        result.events@ == spec_step_events(frame),
        result.stop == spec_step_stop(frame),
{
    let ghost gframe = frame;
    let mut events: Vec<Event> = Vec::new();
    if let Some(s) = frame.seq {
        events.push(Event::ResumeSeq(s));
    }
    proof {
        assert(events@ == spec_seq_events(gframe));
    }
    if let Some(op) = frame.op {
        if op == 7 || op == 9 {
            events.push(Event::Resume);
            return StepResult { events, stop: true };
        }
    }
    let name = match frame.event_name {
        Some(name) => name,
        None => {
            return StepResult { events, stop: false };
        },
    };
    if name == String::from_str("READY") {
        let url = match frame.resume_gateway_url {
            Some(url) => url,
            None => {
                return StepResult { events, stop: false };
            },
        };
        let session = match frame.session_id {
            Some(session) => session,
            None => {
                return StepResult { events, stop: false };
            },
        };
        events.push(Event::ResumeProps((url, session)));
    }
    match create_event(&name, frame.data) {
        Ok(event) => {
            events.push(event);
        },
        Err(_) => {},
    }
    StepResult { events, stop: false }
}

/// A typed outbound payload of the gateway wire protocol; the caller
/// turns it into a text frame.
#[derive(Debug)]
pub enum GatewayCommand {
    /// Identify a fresh session with the static credential.
    Identify { token: String, intents: u32 },
    /// Reattach to a dropped session.
    Resume(ResumeProperties),
    /// The periodic heartbeat.
    Heartbeat,
    /// Join, move to, or leave (when `channel_id` is absent) a voice
    /// channel of a guild.
    UpdateVoiceState { guild_id: String, channel_id: Option<String> },
}

} // verus!

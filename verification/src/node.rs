//! Audio-node session logic: classification of inbound node frames
//! into typed events, and the typed outbound commands of the node
//! wire protocol.

use vstd::prelude::*;
use crate::events::Event;

verus! {

/// One inbound text frame from the audio node, decoded to the fields
/// this client reads: which guild the payload concerns and the event
/// type it announces.
#[derive(Debug)]
pub struct NodeFrame {
    pub guild_id: Option<String>,
    pub event_type: Option<String>,
}

/// A typed outbound payload of the audio-node wire protocol; the
/// caller turns it into a text frame.
#[derive(Debug)]
pub enum NodeCommand {
    /// Ask the node to buffer state across short reconnects.
    ConfigureResuming { key: String, timeout: u64 },
    /// Hand the node a guild's voice session and server so it can
    /// attach to the voice channel.
    VoiceUpdate { guild_id: String, session_id: String, token: String, endpoint: String },
    /// Start playing an encoded track in a guild.
    Play { guild_id: String, track: String },
    /// Pause or resume a guild's playback.
    Pause { guild_id: String, pause: bool },
    /// Stop the guild's current track.
    Stop { guild_id: String },
    /// Tear down the node-side player of a guild.
    Destroy { guild_id: String },
}

/// The event one inbound node frame produces: a track-end event when
/// the frame names a guild and announces a track end; nothing for any
/// other payload shape.
pub open spec fn spec_node_event(frame: NodeFrame) -> Option<Event> {
    match (frame.guild_id, frame.event_type) {
        (Some(guild_id), Some(event_type)) => {
            if event_type@ == "TrackEndEvent"@ {
                Some(Event::TrackEnd(guild_id))
            } else {
                None
            }
        },
        _ => None,
    }
}

/// Process one inbound frame of the audio-node session. Payloads that
/// name no guild or announce an event type this client does not track
/// are dropped, not errors.
pub fn node_step(frame: NodeFrame) -> (event: Option<Event>)
    ensures
        event == spec_node_event(frame),
{
    let guild_id = match frame.guild_id {
        Some(guild_id) => guild_id,
        None => {
            return None;
        },
    };
    let event_type = match frame.event_type {
        Some(event_type) => event_type,
        None => {
            return None;
        },
    };
    if event_type == String::from_str("TrackEndEvent") {
        Some(Event::TrackEnd(guild_id))
    } else {
        None
    }
}

/// The resume-configuration handshake sent right after connecting,
/// with the fixed resume key and buffering timeout.
pub fn configure_resuming() -> (command: NodeCommand)
    ensures
        command matches NodeCommand::ConfigureResuming { key, timeout } && key@
            == "franta-rust-resume-key"@ && timeout == 60u64,
{
    NodeCommand::ConfigureResuming { key: String::from_str("franta-rust-resume-key"), timeout: 60 }
}

} // verus!

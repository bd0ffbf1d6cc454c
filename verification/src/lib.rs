//! A client library for a real-time gateway protocol paired with an
//! audio-node protocol client, driving per-guild audio playback.
//!
//! The crate holds the connection lifecycle and cross-session correlation
//! logic: the gateway session state machine (resume-vs-reconnect decisions,
//! sequence tracking), the audio-node session client, the voice-coordination
//! logic that merges independently-arriving voice events into a single
//! voice-connect instruction, and the idle-timeout bookkeeping. All
//! decisions are pure functions over plain values; sockets, timers and
//! JSON encoding live outside the library.

pub mod client;
pub mod commands;
pub mod config;
pub mod events;
pub mod gateway;
pub mod laws;
pub mod node;
pub mod player;
pub mod registry;
pub mod toulen;

//! The startup configuration: how to reach the chat service and the
//! audio node. Reading and parsing the configuration file happens
//! outside the library; these are the values it yields.

use vstd::prelude::*;

verus! {

/// Credentials and intents for the chat service.
#[derive(Debug, Clone)]
pub struct DiscordConfig {
    pub token: String,
    pub app_id: String,
    pub intents: u32,
}

/// Address and credential of the audio node.
#[derive(Debug, Clone)]
pub struct LavalinkConfig {
    pub host: String,
    pub port: u16,
    pub password: String,
}

/// The whole startup configuration.
#[derive(Debug, Clone)]
pub struct Config {
    pub discord: DiscordConfig,
    pub lavalink: LavalinkConfig,
}

} // verus!

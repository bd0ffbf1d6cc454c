//! The player registry and voice bookkeeping: at most one player per
//! guild, the bot-scoped voice records and per-guild voice servers,
//! and the correlation that turns them into a voice-connect
//! instruction.

use vstd::prelude::*;
use crate::events::{VoiceServer, VoiceState};
use crate::gateway::GatewayCommand;
use crate::node::NodeCommand;
use crate::player::{Player, StateError, Track};

verus! {

/// How to reach the audio node, and the credential it expects.
#[derive(Debug, Clone)]
pub struct LavalinkBuilderOptions {
    pub host: String,
    pub port: u16,
    pub password: String,
}

/// Some player in the sequence belongs to the guild.
pub open spec fn has_player(players: Seq<Player>, guild: Seq<char>) -> bool {
    exists|i: int| 0 <= i < players.len() && players[i].guild_id@ == guild
}

/// The guild's player; meaningful only under [`unique_player_guilds`].
pub open spec fn player_at(players: Seq<Player>, guild: Seq<char>) -> Player {
    players[choose|i: int| 0 <= i < players.len() && players[i].guild_id@ == guild]
}

/// Some voice server in the sequence belongs to the guild.
pub open spec fn has_server(servers: Seq<VoiceServer>, guild: Seq<char>) -> bool {
    exists|i: int| 0 <= i < servers.len() && servers[i].guild_id@ == guild
}

/// The guild's voice server; meaningful only under [`unique_server_guilds`].
pub open spec fn server_at(servers: Seq<VoiceServer>, guild: Seq<char>) -> VoiceServer {
    servers[choose|i: int| 0 <= i < servers.len() && servers[i].guild_id@ == guild]
}

/// Some voice record in the sequence belongs to the guild.
pub open spec fn has_state(states: Seq<VoiceState>, guild: Seq<char>) -> bool {
    exists|i: int| 0 <= i < states.len() && states[i].guild_id@ == guild
}

/// The guild's voice record; meaningful only under [`unique_state_guilds`].
pub open spec fn state_at(states: Seq<VoiceState>, guild: Seq<char>) -> VoiceState {
    states[choose|i: int| 0 <= i < states.len() && states[i].guild_id@ == guild]
}

/// No two players belong to the same guild.
pub open spec fn unique_player_guilds(players: Seq<Player>) -> bool {
    forall|i: int, j: int|
        0 <= i < j < players.len() ==> players[i].guild_id@ != players[j].guild_id@
}

/// No two voice servers belong to the same guild.
pub open spec fn unique_server_guilds(servers: Seq<VoiceServer>) -> bool {
    forall|i: int, j: int|
        0 <= i < j < servers.len() ==> servers[i].guild_id@ != servers[j].guild_id@
}

/// No two voice records belong to the same guild.
pub open spec fn unique_state_guilds(states: Seq<VoiceState>) -> bool {
    forall|i: int, j: int|
        0 <= i < j < states.len() ==> states[i].guild_id@ != states[j].guild_id@
}

/// A witness at index `i` pins down which player the guild owns.
pub proof fn lemma_player_at(players: Seq<Player>, guild: Seq<char>, i: int)
    requires
        unique_player_guilds(players),
        0 <= i < players.len(),
        players[i].guild_id@ == guild,
    ensures
        has_player(players, guild),
        player_at(players, guild) == players[i],
{
    assert(has_player(players, guild));
    let k = choose|k: int| 0 <= k < players.len() && players[k].guild_id@ == guild;
    if k < i {
        assert(players[k].guild_id@ != players[i].guild_id@);
    } else if i < k {
        assert(players[i].guild_id@ != players[k].guild_id@);
    }
}

/// A witness at index `i` pins down which voice server the guild owns.
pub proof fn lemma_server_at(servers: Seq<VoiceServer>, guild: Seq<char>, i: int)
    requires
        unique_server_guilds(servers),
        0 <= i < servers.len(),
        servers[i].guild_id@ == guild,
    ensures
        has_server(servers, guild),
        server_at(servers, guild) == servers[i],
{
    assert(has_server(servers, guild));
    let k = choose|k: int| 0 <= k < servers.len() && servers[k].guild_id@ == guild;
    if k < i {
        assert(servers[k].guild_id@ != servers[i].guild_id@);
    } else if i < k {
        assert(servers[i].guild_id@ != servers[k].guild_id@);
    }
}

/// A witness at index `i` pins down which voice record the guild owns.
pub proof fn lemma_state_at(states: Seq<VoiceState>, guild: Seq<char>, i: int)
    requires
        unique_state_guilds(states),
        0 <= i < states.len(),
        states[i].guild_id@ == guild,
    ensures
        has_state(states, guild),
        state_at(states, guild) == states[i],
{
    assert(has_state(states, guild));
    let k = choose|k: int| 0 <= k < states.len() && states[k].guild_id@ == guild;
    if k < i {
        assert(states[k].guild_id@ != states[i].guild_id@);
    } else if i < k {
        assert(states[i].guild_id@ != states[k].guild_id@);
    }
}

/// `post` is `pre` with a player created for the guild when none
/// existed, bound to the channel, together with the command and error
/// behaviour of a join.
pub open spec fn players_joined(
    pre: Seq<Player>,
    post: Seq<Player>,
    guild_id: String,
    channel_id: String,
    result: Result<GatewayCommand, StateError>,
) -> bool {
    &&& (has_player(pre, guild_id@) ==> result == Err::<GatewayCommand, StateError>(
        StateError::AlreadyConnected,
    ) && post == pre)
    &&& (!has_player(pre, guild_id@) ==> ({
        let added = post.last();
        &&& post == pre.push(added)
        &&& added.guild_id == guild_id
        &&& added.channel_id == channel_id
        &&& added.paused == false
        &&& added.volume == 100u8
        &&& added.playing == false
        &&& added.queue@ == Seq::<Track>::empty()
        &&& has_player(post, guild_id@)
        &&& result == Ok::<GatewayCommand, StateError>(
            GatewayCommand::UpdateVoiceState {
                guild_id: guild_id,
                channel_id: Some(channel_id),
            },
        )
    }))
}

/// `post` is `pre` with the guild's player removed; `pre` unchanged
/// when the guild has none.
pub open spec fn players_destroyed(pre: Seq<Player>, post: Seq<Player>, guild: Seq<char>) -> bool {
    &&& (!has_player(pre, guild) ==> post == pre)
    &&& (has_player(pre, guild) ==> (exists|i: int|
        0 <= i < pre.len() && pre[i].guild_id@ == guild && post == pre.remove(i)) && !has_player(
        post,
        guild,
    ))
}

/// `post` is `pre` with the guild's player having finished a track:
/// queue popped, the new head started (the returned command) or the
/// player fallen idle; `pre` unchanged when the guild has none.
pub open spec fn players_track_ended(
    pre: Seq<Player>,
    post: Seq<Player>,
    guild: Seq<char>,
    command: Option<NodeCommand>,
) -> bool {
    &&& (!has_player(pre, guild) ==> post == pre && command is None)
    &&& (has_player(pre, guild) ==> ({
        let p = player_at(pre, guild);
        let p2 = player_at(post, guild);
        &&& has_player(post, guild)
        &&& exists|i: int|
            0 <= i < pre.len() && pre[i].guild_id@ == guild && post == pre.update(i, p2)
        &&& p2.guild_id == p.guild_id
        &&& p2.channel_id == p.channel_id
        &&& p2.paused == p.paused
        &&& p2.volume == p.volume
        &&& (p.queue@.len() == 0 ==> p2.queue@ == p.queue@ && p2.playing == false
            && command is None)
        &&& (p.queue@.len() > 0 ==> p2.queue@ == p.queue@.skip(1))
        &&& (p.queue@.len() > 0 && p2.queue@.len() == 0 ==> p2.playing == false
            && command is None)
        &&& (p.queue@.len() > 0 && p2.queue@.len() > 0 ==> p2.playing == p.playing && command
            == Some(NodeCommand::Play { guild_id: p.guild_id, track: p.queue@[1].track }))
    }))
}

/// `post` is `pre` with a track enqueued on the guild's player, the
/// player playing, and the play command returned exactly when the
/// player was idle; an error, changing nothing, when the guild has
/// no player.
pub open spec fn players_played(
    pre: Seq<Player>,
    post: Seq<Player>,
    guild: Seq<char>,
    track: Track,
    result: Result<Option<NodeCommand>, StateError>,
) -> bool {
    &&& (!has_player(pre, guild) ==> result == Err::<Option<NodeCommand>, StateError>(
        StateError::NotFound,
    ) && post == pre)
    &&& (has_player(pre, guild) ==> ({
        let p = player_at(pre, guild);
        let p2 = player_at(post, guild);
        &&& has_player(post, guild)
        &&& exists|i: int|
            0 <= i < pre.len() && pre[i].guild_id@ == guild && post == pre.update(i, p2)
        &&& p2.queue@ == p.queue@.push(track)
        &&& p2.playing == true
        &&& p2.guild_id == p.guild_id
        &&& p2.channel_id == p.channel_id
        &&& p2.paused == p.paused
        &&& p2.volume == p.volume
        &&& (p.playing ==> result == Ok::<Option<NodeCommand>, StateError>(None))
        &&& (!p.playing ==> result == Ok::<Option<NodeCommand>, StateError>(
            Some(NodeCommand::Play { guild_id: p.guild_id, track: track.track }),
        ))
    }))
}

/// `post` is `pre` with the guild's player rebound to the channel;
/// `pre` unchanged when the guild has none.
pub open spec fn players_channel_set(
    pre: Seq<Player>,
    post: Seq<Player>,
    guild: Seq<char>,
    channel_id: String,
) -> bool {
    &&& (!has_player(pre, guild) ==> post == pre)
    &&& (has_player(pre, guild) ==> ({
        let p = player_at(pre, guild);
        let p2 = player_at(post, guild);
        &&& has_player(post, guild)
        &&& exists|i: int|
            0 <= i < pre.len() && pre[i].guild_id@ == guild && post == pre.update(i, p2)
        &&& p2 == (Player { channel_id: channel_id, ..p })
    }))
}

/// `post` is `pre` with the server recorded for its guild, replacing
/// any previous record.
pub open spec fn servers_upserted(
    pre: Seq<VoiceServer>,
    post: Seq<VoiceServer>,
    server: VoiceServer,
) -> bool {
    &&& (has_server(pre, server.guild_id@) ==> exists|i: int|
        0 <= i < pre.len() && pre[i].guild_id@ == server.guild_id@ && post == pre.update(
            i,
            server,
        ))
    &&& (!has_server(pre, server.guild_id@) ==> post == pre.push(server))
    &&& has_server(post, server.guild_id@)
    &&& server_at(post, server.guild_id@) == server
}

/// `post` is `pre` with the voice record recorded for its guild,
/// replacing any previous record.
pub open spec fn states_upserted(
    pre: Seq<VoiceState>,
    post: Seq<VoiceState>,
    state: VoiceState,
) -> bool {
    &&& (has_state(pre, state.guild_id@) ==> exists|i: int|
        0 <= i < pre.len() && pre[i].guild_id@ == state.guild_id@ && post == pre.update(i, state))
    &&& (!has_state(pre, state.guild_id@) ==> post == pre.push(state))
    &&& has_state(post, state.guild_id@)
    &&& state_at(post, state.guild_id@) == state
}

/// `post` is `pre` with the guild's voice record removed; `pre`
/// unchanged when the guild has none.
pub open spec fn states_removed(
    pre: Seq<VoiceState>,
    post: Seq<VoiceState>,
    guild: Seq<char>,
) -> bool {
    &&& (!has_state(pre, guild) ==> post == pre)
    &&& (has_state(pre, guild) ==> (exists|i: int|
        0 <= i < pre.len() && pre[i].guild_id@ == guild && post == pre.remove(i)) && !has_state(
        post,
        guild,
    ))
}

/// The voice-connect instruction for a guild, formed exactly when a
/// voice server, a bot-scoped voice record and a player all exist
/// for it.
pub open spec fn spec_attempt(
    servers: Seq<VoiceServer>,
    states: Seq<VoiceState>,
    players: Seq<Player>,
    guild: Seq<char>,
) -> Option<NodeCommand> {
    if has_server(servers, guild) && has_state(states, guild) && has_player(players, guild) {
        Some(
            NodeCommand::VoiceUpdate {
                guild_id: player_at(players, guild).guild_id,
                session_id: state_at(states, guild).session_id,
                token: server_at(servers, guild).token,
                endpoint: server_at(servers, guild).endpoint,
            },
        )
    } else {
        None
    }
}

/// The playback side of the client: one player per guild, plus the
/// per-guild voice servers and the bot's own voice records, which
/// together decide when a voice-connect instruction can be formed.
#[derive(Debug)]
pub struct LavalinkClient {
    pub options: LavalinkBuilderOptions,
    pub voice_servers: Vec<VoiceServer>,
    /// Bot-scoped voice records, one per guild, each with a channel.
    pub voice_states: Vec<VoiceState>,
    pub players: Vec<Player>,
}

impl LavalinkClient {
    /// The registry's invariant: every store is keyed by guild, and
    /// a bot-scoped voice record always names a channel.
    pub open spec fn wf(self) -> bool {
        &&& unique_player_guilds(self.players@)
        &&& unique_server_guilds(self.voice_servers@)
        &&& unique_state_guilds(self.voice_states@)
        &&& forall|i: int|
            0 <= i < self.voice_states@.len() ==> self.voice_states@[i].channel_id is Some
    }

    /// An empty registry.
    pub fn new(options: LavalinkBuilderOptions) -> (client: LavalinkClient)
        ensures
            client.wf(),
            client.options == options,
            client.voice_servers@ == Seq::<VoiceServer>::empty(),
            client.voice_states@ == Seq::<VoiceState>::empty(),
            client.players@ == Seq::<Player>::empty(),
    {
        LavalinkClient {
            options,
            voice_servers: Vec::new(),
            voice_states: Vec::new(),
            players: Vec::new(),
        }
    }

    /// Index of the guild's player, if one exists.
    fn find_player_index(&self, guild_id: &String) -> (found: Option<usize>)
        ensures
            match found {
                Some(i) => i < self.players@.len() && self.players@[i as int].guild_id@
                    == guild_id@,
                None => !has_player(self.players@, guild_id@),
            },
    {
        let mut i: usize = 0;
        while i < self.players.len()
            invariant
                i <= self.players@.len(),
                forall|j: int| 0 <= j < i ==> self.players@[j].guild_id@ != guild_id@,
            decreases self.players@.len() - i,
        {
            if self.players[i].guild_id == *guild_id {
                return Some(i);
            }
            i = i + 1;
        }
        None
    }

    /// Index of the guild's voice server, if one exists.
    fn find_server_index(&self, guild_id: &String) -> (found: Option<usize>)
        ensures
            match found {
                Some(i) => i < self.voice_servers@.len() && self.voice_servers@[i as int].guild_id@
                    == guild_id@,
                None => !has_server(self.voice_servers@, guild_id@),
            },
    {
        let mut i: usize = 0;
        while i < self.voice_servers.len()
            invariant
                i <= self.voice_servers@.len(),
                forall|j: int| 0 <= j < i ==> self.voice_servers@[j].guild_id@ != guild_id@,
            decreases self.voice_servers@.len() - i,
        {
            if self.voice_servers[i].guild_id == *guild_id {
                return Some(i);
            }
            i = i + 1;
        }
        None
    }

    /// Index of the guild's bot-scoped voice record, if one exists.
    fn find_state_index(&self, guild_id: &String) -> (found: Option<usize>)
        ensures
            match found {
                Some(i) => i < self.voice_states@.len() && self.voice_states@[i as int].guild_id@
                    == guild_id@,
                None => !has_state(self.voice_states@, guild_id@),
            },
    {
        let mut i: usize = 0;
        while i < self.voice_states.len()
            invariant
                i <= self.voice_states@.len(),
                forall|j: int| 0 <= j < i ==> self.voice_states@[j].guild_id@ != guild_id@,
            decreases self.voice_states@.len() - i,
        {
            if self.voice_states[i].guild_id == *guild_id {
                return Some(i);
            }
            i = i + 1;
        }
        None
    }

    /// The guild's player, if one exists.
    pub fn get_player(&self, guild_id: &String) -> (player: Option<&Player>)
        requires
            self.wf(),
        ensures
            match player {
                Some(p) => has_player(self.players@, guild_id@) && *p == player_at(
                    self.players@,
                    guild_id@,
                ),
                None => !has_player(self.players@, guild_id@),
            },
    {
        match self.find_player_index(guild_id) {
            Some(i) => {
                proof {
                    lemma_player_at(self.players@, guild_id@, i as int);
                }
                Some(&self.players[i])
            },
            None => None,
        }
    }

    /// The voice-state command that joins, moves or leaves a guild's
    /// voice channel.
    pub fn send_ws(&self, guild_id: &String, channel_id: Option<String>) -> (command:
        GatewayCommand)
        ensures
            command == (GatewayCommand::UpdateVoiceState {
                guild_id: *guild_id,
                channel_id: channel_id,
            }),
    {
        GatewayCommand::UpdateVoiceState { guild_id: guild_id.clone(), channel_id }
    }

    /// Create a player for the guild, bound to the channel, and return
    /// the gateway command that joins the channel. Fails, changing
    /// nothing, when the guild already has a player.
    pub fn join(&mut self, guild_id: &String, channel_id: &String) -> (result: Result<
        GatewayCommand,
        StateError,
    >)
        requires
            old(self).wf(),
        ensures
            final(self).wf(),
            final(self).options == old(self).options,
            final(self).voice_servers@ == old(self).voice_servers@,
            final(self).voice_states@ == old(self).voice_states@,
            players_joined(old(self).players@, final(self).players@, *guild_id, *channel_id, result),
    {
        if self.find_player_index(guild_id).is_some() {
            return Err(StateError::AlreadyConnected);
        }
        let command = self.send_ws(guild_id, Some(channel_id.clone()));
        let player = Player::new(guild_id.clone(), channel_id.clone());
        proof {
            assert forall|i: int| 0 <= i < self.players@.len() implies self.players@[i].guild_id@
                != guild_id@ by {
                if self.players@[i].guild_id@ == guild_id@ {
                    assert(has_player(self.players@, guild_id@));
                }
            }
        }
        self.players.push(player);
        proof {
            let updated = self.players@;
            assert forall|i: int, j: int| 0 <= i < j < updated.len() implies updated[i].guild_id@
                != updated[j].guild_id@ by {
                if j < updated.len() - 1 {
                    assert(old(self).players@[i].guild_id@ != old(self).players@[j].guild_id@);
                }
            }
            assert(has_player(updated, guild_id@)) by {
                assert(updated[updated.len() - 1].guild_id@ == guild_id@);
            }
        }
        Ok(command)
    }

    /// Remove the guild's player and return the commands that leave
    /// the voice channel and tear the node-side player down. Fails,
    /// changing nothing, when the guild has no player.
    pub fn destroy_player(&mut self, guild_id: &String) -> (result: Result<
        (GatewayCommand, NodeCommand),
        StateError,
    >)
        requires
            old(self).wf(),
        ensures
            final(self).wf(),
            final(self).options == old(self).options,
            final(self).voice_servers@ == old(self).voice_servers@,
            final(self).voice_states@ == old(self).voice_states@,
            players_destroyed(old(self).players@, final(self).players@, guild_id@),
            !has_player(old(self).players@, guild_id@) ==> result == Err::<
                (GatewayCommand, NodeCommand),
                StateError,
            >(StateError::NotFound),
            has_player(old(self).players@, guild_id@) ==> result == Ok::<
                (GatewayCommand, NodeCommand),
                StateError,
            >(
                (
                    GatewayCommand::UpdateVoiceState { guild_id: *guild_id, channel_id: None },
                    NodeCommand::Destroy { guild_id: *guild_id },
                ),
            ),
    {
        let i = match self.find_player_index(guild_id) {
            Some(i) => i,
            None => {
                return Err(StateError::NotFound);
            },
        };
        let gateway_command = self.send_ws(guild_id, None);
        let node_command = NodeCommand::Destroy { guild_id: guild_id.clone() };
        let ghost before = self.players@;
        self.players.remove(i);
        proof {
            assert forall|a: int, b: int| 0 <= a < b < self.players@.len() implies self.players@[
                a
            ].guild_id@ != self.players@[b].guild_id@ by {
                let a0: int = if a < i { a } else { a + 1 };
                let b0: int = if b < i { b } else { b + 1 };
                assert(self.players@[a] == before[a0]);
                assert(self.players@[b] == before[b0]);
                assert(before[a0].guild_id@ != before[b0].guild_id@);
            }
            assert forall|j: int| 0 <= j < self.players@.len() implies self.players@[j].guild_id@
                != guild_id@ by {
                let j0: int = if j < i { j } else { j + 1 };
                assert(self.players@[j] == before[j0]);
                if j0 < i {
                    assert(before[j0].guild_id@ != before[i as int].guild_id@);
                } else if j0 > i {
                    assert(before[i as int].guild_id@ != before[j0].guild_id@);
                }
            }
        }
        Ok((gateway_command, node_command))
    }

    /// Form the voice-connect instruction for the guild: possible
    /// exactly when a voice server, a bot-scoped voice record and a
    /// player all exist for it. When any is missing nothing is
    /// emitted; the next arriving event retries.
    pub fn attempt_connection(&self, guild_id: &String) -> (command: Option<NodeCommand>)
        requires
            self.wf(),
        ensures
            command == spec_attempt(self.voice_servers@, self.voice_states@, self.players@, guild_id@),
    {
        let si = match self.find_server_index(guild_id) {
            Some(si) => si,
            None => {
                return None;
            },
        };
        let sti = match self.find_state_index(guild_id) {
            Some(sti) => sti,
            None => {
                return None;
            },
        };
        let pi = match self.find_player_index(guild_id) {
            Some(pi) => pi,
            None => {
                return None;
            },
        };
        proof {
            lemma_server_at(self.voice_servers@, guild_id@, si as int);
            lemma_state_at(self.voice_states@, guild_id@, sti as int);
            lemma_player_at(self.players@, guild_id@, pi as int);
        }
        let server = &self.voice_servers[si];
        let state = &self.voice_states[sti];
        let player = &self.players[pi];
        Some(player.connect(&state.session_id, server))
    }

    /// The node finished the guild's current track: pop the queue and
    /// start the new head, or fall idle. A no-op without a player
    /// (the guild may have raced a destroy).
    pub fn on_track_end(&mut self, guild_id: &String) -> (command: Option<NodeCommand>)
        requires
            old(self).wf(),
        ensures
            final(self).wf(),
            final(self).options == old(self).options,
            final(self).voice_servers@ == old(self).voice_servers@,
            final(self).voice_states@ == old(self).voice_states@,
            players_track_ended(old(self).players@, final(self).players@, guild_id@, command),
    {
        let i = match self.find_player_index(guild_id) {
            Some(i) => i,
            None => {
                return None;
            },
        };
        let ghost before = self.players@;
        proof {
            lemma_player_at(before, guild_id@, i as int);
        }
        let player = &mut self.players[i];
        let command = player.on_track_end();
        proof {
            assert forall|a: int, b: int| 0 <= a < b < self.players@.len() implies self.players@[
                a
            ].guild_id@ != self.players@[b].guild_id@ by {
                assert(before[a].guild_id@ != before[b].guild_id@);
            }
            lemma_player_at(self.players@, guild_id@, i as int);
        }
        command
    }

    /// Enqueue a track on the guild's player; an idle player starts
    /// playing it at once, and the command to send is returned. Fails
    /// when the guild has no player.
    pub fn play(&mut self, guild_id: &String, track: Track) -> (result: Result<
        Option<NodeCommand>,
        StateError,
    >)
        requires
            old(self).wf(),
        ensures
            final(self).wf(),
            final(self).options == old(self).options,
            final(self).voice_servers@ == old(self).voice_servers@,
            final(self).voice_states@ == old(self).voice_states@,
            players_played(old(self).players@, final(self).players@, guild_id@, track, result),
    {
        let i = match self.find_player_index(guild_id) {
            Some(i) => i,
            None => {
                return Err(StateError::NotFound);
            },
        };
        let ghost before = self.players@;
        proof {
            lemma_player_at(before, guild_id@, i as int);
        }
        let player = &mut self.players[i];
        let command = player.play(track);
        proof {
            assert forall|a: int, b: int| 0 <= a < b < self.players@.len() implies self.players@[
                a
            ].guild_id@ != self.players@[b].guild_id@ by {
                assert(before[a].guild_id@ != before[b].guild_id@);
            }
            lemma_player_at(self.players@, guild_id@, i as int);
        }
        Ok(command)
    }

    /// The pause (or resume) instruction for the guild's player.
    /// Fails when the guild has no player.
    pub fn pause(&self, guild_id: &String, paused: bool) -> (result: Result<
        NodeCommand,
        StateError,
    >)
        requires
            self.wf(),
        ensures
            !has_player(self.players@, guild_id@) ==> result == Err::<NodeCommand, StateError>(
                StateError::NotFound,
            ),
            has_player(self.players@, guild_id@) ==> result == Ok::<NodeCommand, StateError>(
                NodeCommand::Pause {
                    guild_id: player_at(self.players@, guild_id@).guild_id,
                    pause: paused,
                },
            ),
    {
        let i = match self.find_player_index(guild_id) {
            Some(i) => i,
            None => {
                return Err(StateError::NotFound);
            },
        };
        proof {
            lemma_player_at(self.players@, guild_id@, i as int);
        }
        Ok(self.players[i].pause(paused))
    }

    /// Skip the current track of the guild's player: the track being
    /// skipped and the stop instruction to send. The queue is popped
    /// by the later track-end event, not here.
    pub fn skip(&self, guild_id: &String) -> (result: Result<(&Track, NodeCommand), StateError>)
        requires
            self.wf(),
        ensures
            match result {
                Ok((track, command)) => {
                    let p = player_at(self.players@, guild_id@);
                    &&& has_player(self.players@, guild_id@)
                    &&& p.queue@.len() > 0
                    &&& *track == p.queue@[0]
                    &&& command == (NodeCommand::Stop { guild_id: p.guild_id })
                },
                Err(e) => {
                    ||| (e == StateError::NotFound && !has_player(self.players@, guild_id@))
                    ||| (e == StateError::NothingPlaying && has_player(self.players@, guild_id@)
                        && player_at(self.players@, guild_id@).queue@.len() == 0)
                },
            },
    {
        let i = match self.find_player_index(guild_id) {
            Some(i) => i,
            None => {
                return Err(StateError::NotFound);
            },
        };
        proof {
            lemma_player_at(self.players@, guild_id@, i as int);
        }
        self.players[i].skip()
    }

    /// Record the channel the bot was moved to on the guild's player.
    /// A no-op without a player.
    pub fn set_player_channel(&mut self, guild_id: &String, channel_id: String)
        requires
            old(self).wf(),
        ensures
            final(self).wf(),
            final(self).options == old(self).options,
            final(self).voice_servers@ == old(self).voice_servers@,
            final(self).voice_states@ == old(self).voice_states@,
            players_channel_set(old(self).players@, final(self).players@, guild_id@, channel_id),
    {
        let i = match self.find_player_index(guild_id) {
            Some(i) => i,
            None => {
                return;
            },
        };
        let ghost before = self.players@;
        proof {
            lemma_player_at(before, guild_id@, i as int);
        }
        self.players[i].channel_id = channel_id;
        proof {
            assert forall|a: int, b: int| 0 <= a < b < self.players@.len() implies self.players@[
                a
            ].guild_id@ != self.players@[b].guild_id@ by {
                assert(before[a].guild_id@ != before[b].guild_id@);
            }
            lemma_player_at(self.players@, guild_id@, i as int);
        }
    }

    /// Record the guild's voice server, replacing any previous one.
    pub fn upsert_voice_server(&mut self, server: VoiceServer)
        requires
            old(self).wf(),
        ensures
            final(self).wf(),
            final(self).options == old(self).options,
            final(self).voice_states@ == old(self).voice_states@,
            final(self).players@ == old(self).players@,
            servers_upserted(old(self).voice_servers@, final(self).voice_servers@, server),
    {
        let ghost before = self.voice_servers@;
        match self.find_server_index(&server.guild_id) {
            Some(i) => {
                let ghost g = server.guild_id@;
                self.voice_servers[i] = server;
                proof {
                    assert forall|a: int, b: int|
                        0 <= a < b < self.voice_servers@.len() implies self.voice_servers@[
                        a
                    ].guild_id@ != self.voice_servers@[b].guild_id@ by {
                        assert(before[a].guild_id@ != before[b].guild_id@);
                    }
                    lemma_server_at(self.voice_servers@, g, i as int);
                }
            },
            None => {
                let ghost g = server.guild_id@;
                proof {
                    assert forall|i: int|
                        0 <= i < self.voice_servers@.len() implies self.voice_servers@[i].guild_id@
                        != g by {
                        if self.voice_servers@[i].guild_id@ == g {
                            assert(has_server(self.voice_servers@, g));
                        }
                    }
                }
                self.voice_servers.push(server);
                proof {
                    let updated = self.voice_servers@;
                    assert forall|a: int, b: int| 0 <= a < b < updated.len() implies updated[
                        a
                    ].guild_id@ != updated[b].guild_id@ by {
                        if b < updated.len() - 1 {
                            assert(before[a].guild_id@ != before[b].guild_id@);
                        }
                    }
                    lemma_server_at(updated, g, updated.len() - 1);
                }
            },
        }
    }

    /// Record the bot's own voice record for a guild, replacing any
    /// previous one. Bot records are only kept while the bot occupies
    /// a channel.
    pub fn upsert_bot_voice_state(&mut self, state: VoiceState)
        requires
            old(self).wf(),
            state.channel_id is Some,
        ensures
            final(self).wf(),
            final(self).options == old(self).options,
            final(self).voice_servers@ == old(self).voice_servers@,
            final(self).players@ == old(self).players@,
            states_upserted(old(self).voice_states@, final(self).voice_states@, state),
    {
        let ghost before = self.voice_states@;
        match self.find_state_index(&state.guild_id) {
            Some(i) => {
                let ghost g = state.guild_id@;
                self.voice_states[i] = state;
                proof {
                    assert forall|a: int, b: int|
                        0 <= a < b < self.voice_states@.len() implies self.voice_states@[
                        a
                    ].guild_id@ != self.voice_states@[b].guild_id@ by {
                        assert(before[a].guild_id@ != before[b].guild_id@);
                    }
                    lemma_state_at(self.voice_states@, g, i as int);
                }
            },
            None => {
                let ghost g = state.guild_id@;
                proof {
                    assert forall|i: int|
                        0 <= i < self.voice_states@.len() implies self.voice_states@[i].guild_id@
                        != g by {
                        if self.voice_states@[i].guild_id@ == g {
                            assert(has_state(self.voice_states@, g));
                        }
                    }
                }
                self.voice_states.push(state);
                proof {
                    let updated = self.voice_states@;
                    assert forall|a: int, b: int| 0 <= a < b < updated.len() implies updated[
                        a
                    ].guild_id@ != updated[b].guild_id@ by {
                        if b < updated.len() - 1 {
                            assert(before[a].guild_id@ != before[b].guild_id@);
                        }
                    }
                    lemma_state_at(updated, g, updated.len() - 1);
                }
            },
        }
    }

    /// Drop the bot's voice record for a guild, if one is kept: the
    /// bot left that guild's voice.
    pub fn remove_bot_voice_state(&mut self, guild_id: &String)
        requires
            old(self).wf(),
        ensures
            final(self).wf(),
            final(self).options == old(self).options,
            final(self).voice_servers@ == old(self).voice_servers@,
            final(self).players@ == old(self).players@,
            states_removed(old(self).voice_states@, final(self).voice_states@, guild_id@),
    {
        let i = match self.find_state_index(guild_id) {
            Some(i) => i,
            None => {
                return;
            },
        };
        let ghost before = self.voice_states@;
        self.voice_states.remove(i);
        proof {
            assert forall|a: int, b: int|
                0 <= a < b < self.voice_states@.len() implies self.voice_states@[a].guild_id@
                != self.voice_states@[b].guild_id@ by {
                let a0: int = if a < i { a } else { a + 1 };
                let b0: int = if b < i { b } else { b + 1 };
                assert(self.voice_states@[a] == before[a0]);
                assert(self.voice_states@[b] == before[b0]);
                assert(before[a0].guild_id@ != before[b0].guild_id@);
            }
            assert forall|j: int|
                0 <= j < self.voice_states@.len() implies self.voice_states@[j].guild_id@
                != guild_id@ by {
                let j0: int = if j < i { j } else { j + 1 };
                assert(self.voice_states@[j] == before[j0]);
                if j0 < i {
                    assert(before[j0].guild_id@ != before[i as int].guild_id@);
                } else if j0 > i {
                    assert(before[i as int].guild_id@ != before[j0].guild_id@);
                }
            }
        }
    }
}

} // verus!

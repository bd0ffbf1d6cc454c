//! The orchestrator: the single owner of all cross-session state. It
//! consumes the unified event stream, tracks the resume token and the
//! voice records of every user, correlates voice events into connect
//! instructions, runs the idle-timeout bookkeeping, and answers each
//! event with the actions the surrounding tasks must perform.

use vstd::prelude::*;
use crate::events::{Event, Interaction, Member, VoiceState};
use crate::gateway::{GatewayCommand, ResumeProperties};
use crate::node::NodeCommand;
use crate::registry::{
    has_player, player_at, players_channel_set, players_destroyed, players_track_ended,
    servers_upserted, spec_attempt, states_removed, states_upserted, LavalinkBuilderOptions,
    LavalinkClient,
};

verus! {

/// The identity and intents the client identifies with.
#[derive(Debug)]
pub struct ClientBuilderOptions {
    pub intents: u32,
    pub token: String,
    pub app_id: String,
}

/// What the surrounding tasks must do after one event is handled.
/// The orchestrator decides; the tasks perform.
#[derive(Debug)]
pub enum Action {
    /// Send a payload over the gateway socket.
    Gateway(GatewayCommand),
    /// Send a payload over the audio-node socket.
    Node(NodeCommand),
    /// Tear the gateway tasks down and resume with the saved token.
    ResumeGateway,
    /// Tear the gateway tasks down, reconnect and identify afresh.
    ReconnectGateway,
    /// Tear the node writer down, reconnect and rebind the players.
    ReconnectNode,
    /// Start the idle-destroy timer for a guild.
    ScheduleDestroy(String),
    /// Cancel the idle-destroy timer of a guild.
    CancelDestroy(String),
    /// Hand an interaction, with its member's voice record attached
    /// when one is known, to the command layer.
    RunCommand(Interaction),
}

/// Some record in the all-users store belongs to (guild, user).
pub open spec fn has_member(states: Seq<VoiceState>, guild: Seq<char>, user: Seq<char>) -> bool {
    exists|i: int|
        0 <= i < states.len() && states[i].guild_id@ == guild && states[i].user_id@ == user
}

/// The (guild, user) record; meaningful only under [`unique_members`].
pub open spec fn member_at(states: Seq<VoiceState>, guild: Seq<char>, user: Seq<char>) -> VoiceState {
    states[choose|i: int|
        0 <= i < states.len() && states[i].guild_id@ == guild && states[i].user_id@ == user]
}

/// No two records in the all-users store share (guild, user).
pub open spec fn unique_members(states: Seq<VoiceState>) -> bool {
    forall|i: int, j: int|
        0 <= i < j < states.len() ==> !(states[i].guild_id@ == states[j].guild_id@
            && states[i].user_id@ == states[j].user_id@)
}

/// Every record in the all-users store names a channel: records are
/// dropped, not kept channel-less, when a user leaves voice.
pub open spec fn members_have_channels(states: Seq<VoiceState>) -> bool {
    forall|i: int| 0 <= i < states.len() ==> states[i].channel_id is Some
}

/// A witness at index `i` pins down which record (guild, user) owns.
pub proof fn lemma_member_at(states: Seq<VoiceState>, guild: Seq<char>, user: Seq<char>, i: int)
    requires
        unique_members(states),
        0 <= i < states.len(),
        states[i].guild_id@ == guild,
        states[i].user_id@ == user,
    ensures
        has_member(states, guild, user),
        member_at(states, guild, user) == states[i],
{
    assert(has_member(states, guild, user));
    let k = choose|k: int|
        0 <= k < states.len() && states[k].guild_id@ == guild && states[k].user_id@ == user;
    if k < i {
        assert(!(states[k].guild_id@ == states[i].guild_id@ && states[k].user_id@
            == states[i].user_id@));
    } else if i < k {
        assert(!(states[i].guild_id@ == states[k].guild_id@ && states[i].user_id@
            == states[k].user_id@));
    }
}

/// How many records of the store put a user of the guild in the
/// channel.
pub open spec fn count_in_channel(states: Seq<VoiceState>, guild: Seq<char>, channel: Seq<char>) -> int
    decreases states.len(),
{
    if states.len() == 0 {
        0
    } else {
        count_in_channel(states.drop_last(), guild, channel) + if states.last().guild_id@ == guild
            && (match states.last().channel_id {
            Some(c) => c@ == channel,
            None => false,
        }) {
            1int
        } else {
            0int
        }
    }
}

proof fn lemma_count_take_step(states: Seq<VoiceState>, guild: Seq<char>, channel: Seq<char>, j: int)
    requires
        0 <= j < states.len(),
    ensures
        count_in_channel(states.take(j + 1), guild, channel) == count_in_channel(
            states.take(j),
            guild,
            channel,
        ) + if states[j].guild_id@ == guild && (match states[j].channel_id {
            Some(c) => c@ == channel,
            None => false,
        }) {
            1int
        } else {
            0int
        },
{
    assert(states.take(j + 1).drop_last() =~= states.take(j));
    assert(states.take(j + 1).last() == states[j]);
}

/// `post` is `pre` with the record for (guild, user) of `state`
/// recorded, replacing any previous one.
pub open spec fn members_upserted(
    pre: Seq<VoiceState>,
    post: Seq<VoiceState>,
    state: VoiceState,
) -> bool {
    &&& (has_member(pre, state.guild_id@, state.user_id@) ==> exists|i: int|
        0 <= i < pre.len() && pre[i].guild_id@ == state.guild_id@ && pre[i].user_id@
            == state.user_id@ && post == pre.update(i, state))
    &&& (!has_member(pre, state.guild_id@, state.user_id@) ==> post == pre.push(state))
    &&& has_member(post, state.guild_id@, state.user_id@)
    &&& member_at(post, state.guild_id@, state.user_id@) == state
}

/// `post` is `pre` with the (guild, user) record removed; `pre`
/// unchanged when none exists.
pub open spec fn members_removed(
    pre: Seq<VoiceState>,
    post: Seq<VoiceState>,
    guild: Seq<char>,
    user: Seq<char>,
) -> bool {
    &&& (!has_member(pre, guild, user) ==> post == pre)
    &&& (has_member(pre, guild, user) ==> (exists|i: int|
        0 <= i < pre.len() && pre[i].guild_id@ == guild && pre[i].user_id@ == user && post
            == pre.remove(i)) && !has_member(post, guild, user))
}

/// A deferred destroy is scheduled for the guild.
pub open spec fn has_pending(pending: Seq<String>, guild: Seq<char>) -> bool {
    exists|i: int| 0 <= i < pending.len() && pending[i]@ == guild
}

/// At most one deferred destroy per guild.
pub open spec fn unique_pending(pending: Seq<String>) -> bool {
    forall|i: int, j: int| 0 <= i < j < pending.len() ==> pending[i]@ != pending[j]@
}

/// `post` is `pre` with the guild's deferred destroy dropped; `pre`
/// unchanged when none is scheduled.
pub open spec fn pending_removed(pre: Seq<String>, post: Seq<String>, guild: Seq<char>) -> bool {
    &&& (!has_pending(pre, guild) ==> post == pre)
    &&& (has_pending(pre, guild) ==> (exists|i: int|
        0 <= i < pre.len() && pre[i]@ == guild && post == pre.remove(i)) && !has_pending(
        post,
        guild,
    ))
}

/// The orchestrator's state: the registry, the all-users voice store,
/// the bot's own identity, the resume token, and the guilds whose
/// idle-destroy timer is running.
#[derive(Debug)]
pub struct Client {
    pub options: ClientBuilderOptions,
    pub manager: LavalinkClient,
    /// One voice record per (guild, user), across all users; feeds
    /// the idle-timeout heuristic.
    pub voice_states: Vec<VoiceState>,
    /// The bot's own user id, learnt from the ready event.
    pub user: String,
    pub resume_props: ResumeProperties,
    /// Guilds with a scheduled idle destroy, at most one entry each.
    pub pending_destroys: Vec<String>,
}

impl Client {
    /// The orchestrator's invariant: the registry is well-formed, the
    /// all-users store is keyed by (guild, user) and channel-bearing,
    /// and at most one idle destroy is pending per guild.
    pub open spec fn wf(self) -> bool {
        &&& self.manager.wf()
        &&& unique_members(self.voice_states@)
        &&& members_have_channels(self.voice_states@)
        &&& unique_pending(self.pending_destroys@)
    }

    /// A fresh client: empty stores, no session, sequence number zero,
    /// and the credential copied into the resume token.
    pub fn new(options: ClientBuilderOptions, lavalink_options: LavalinkBuilderOptions) -> (client:
        Client)
        ensures
            client.wf(),
            client.options == options,
            client.manager.options == lavalink_options,
            client.manager.voice_servers@ == Seq::<crate::events::VoiceServer>::empty(),
            client.manager.voice_states@ == Seq::<VoiceState>::empty(),
            client.manager.players@ == Seq::<crate::player::Player>::empty(),
            client.voice_states@ == Seq::<VoiceState>::empty(),
            client.user@ == Seq::<char>::empty(),
            client.resume_props.resume_gateway_url@ == Seq::<char>::empty(),
            client.resume_props.session_id@ == Seq::<char>::empty(),
            client.resume_props.seq == 0u64,
            client.resume_props.token == options.token,
            client.pending_destroys@ == Seq::<String>::empty(),
    {
        let token = options.token.clone();
        Client {
            options,
            manager: LavalinkClient::new(lavalink_options),
            voice_states: Vec::new(),
            user: String::new(),
            resume_props: ResumeProperties {
                resume_gateway_url: String::new(),
                session_id: String::new(),
                seq: 0,
                token,
            },
            pending_destroys: Vec::new(),
        }
    }

    /// The identify payload for a fresh session.
    pub fn identify_command(&self) -> (command: GatewayCommand)
        ensures
            command == (GatewayCommand::Identify {
                token: self.options.token,
                intents: self.options.intents,
            }),
    {
        GatewayCommand::Identify {
            token: self.options.token.clone(),
            intents: self.options.intents,
        }
    }

    /// Index of the (guild, user) record in the all-users store.
    fn find_member_index(&self, guild_id: &String, user_id: &String) -> (found: Option<usize>)
        ensures
            match found {
                Some(i) => i < self.voice_states@.len() && self.voice_states@[i as int].guild_id@
                    == guild_id@ && self.voice_states@[i as int].user_id@ == user_id@,
                None => !has_member(self.voice_states@, guild_id@, user_id@),
            },
    {
        let mut i: usize = 0;
        while i < self.voice_states.len()
            invariant
                i <= self.voice_states@.len(),
                forall|j: int|
                    0 <= j < i ==> !(self.voice_states@[j].guild_id@ == guild_id@
                        && self.voice_states@[j].user_id@ == user_id@),
            decreases self.voice_states@.len() - i,
        {
            if self.voice_states[i].guild_id == *guild_id && self.voice_states[i].user_id
                == *user_id {
                return Some(i);
            }
            i = i + 1;
        }
        None
    }

    /// How many users of the guild the store puts in the channel.
    fn count_channel_members(&self, guild_id: &String, channel_id: &String) -> (count: usize)
        ensures
            count == count_in_channel(self.voice_states@, guild_id@, channel_id@),
    {
        let mut count: usize = 0;
        let mut i: usize = 0;
        proof {
            assert(self.voice_states@.take(0) =~= Seq::<VoiceState>::empty());
        }
        while i < self.voice_states.len()
            invariant
                i <= self.voice_states@.len(),
                count <= i,
                count == count_in_channel(self.voice_states@.take(i as int), guild_id@, channel_id@),
            decreases self.voice_states@.len() - i,
        {
            proof {
                lemma_count_take_step(self.voice_states@, guild_id@, channel_id@, i as int);
            }
            let state = &self.voice_states[i];
            if state.guild_id == *guild_id {
                match &state.channel_id {
                    Some(c) => {
                        if *c == *channel_id {
                            count = count + 1;
                        }
                    },
                    None => {},
                }
            }
            i = i + 1;
        }
        proof {
            assert(self.voice_states@.take(self.voice_states@.len() as int) =~= self.voice_states@);
        }
        count
    }

    /// Index of the guild's scheduled idle destroy.
    fn find_pending_index(&self, guild_id: &String) -> (found: Option<usize>)
        ensures
            match found {
                Some(i) => i < self.pending_destroys@.len() && self.pending_destroys@[i as int]@
                    == guild_id@,
                None => !has_pending(self.pending_destroys@, guild_id@),
            },
    {
        let mut i: usize = 0;
        while i < self.pending_destroys.len()
            invariant
                i <= self.pending_destroys@.len(),
                forall|j: int| 0 <= j < i ==> self.pending_destroys@[j]@ != guild_id@,
            decreases self.pending_destroys@.len() - i,
        {
            if self.pending_destroys[i] == *guild_id {
                return Some(i);
            }
            i = i + 1;
        }
        None
    }

    /// Record a user's voice record in the all-users store, replacing
    /// any previous record for the same (guild, user).
    fn upsert_member(&mut self, state: VoiceState)
        requires
            old(self).wf(),
            state.channel_id is Some,
        ensures
            final(self).wf(),
            final(self).options == old(self).options,
            final(self).manager == old(self).manager,
            final(self).user == old(self).user,
            final(self).resume_props == old(self).resume_props,
            final(self).pending_destroys@ == old(self).pending_destroys@,
            members_upserted(old(self).voice_states@, final(self).voice_states@, state),
    {
        let ghost before = self.voice_states@;
        let ghost g = state.guild_id@;
        let ghost u = state.user_id@;
        match self.find_member_index(&state.guild_id, &state.user_id) {
            Some(i) => {
                self.voice_states[i] = state;
                proof {
                    assert forall|a: int, b: int|
                        0 <= a < b < self.voice_states@.len() implies !(self.voice_states@[
                        a
                    ].guild_id@ == self.voice_states@[b].guild_id@ && self.voice_states@[
                        a
                    ].user_id@ == self.voice_states@[b].user_id@) by {
                        assert(!(before[a].guild_id@ == before[b].guild_id@ && before[a].user_id@
                            == before[b].user_id@));
                    }
                    lemma_member_at(self.voice_states@, g, u, i as int);
                }
            },
            None => {
                proof {
                    assert forall|i: int|
                        0 <= i < self.voice_states@.len() implies !(self.voice_states@[i].guild_id@
                        == g && self.voice_states@[i].user_id@ == u) by {
                        if self.voice_states@[i].guild_id@ == g && self.voice_states@[i].user_id@
                            == u {
                            assert(has_member(self.voice_states@, g, u));
                        }
                    }
                }
                self.voice_states.push(state);
                proof {
                    let updated = self.voice_states@;
                    assert forall|a: int, b: int| 0 <= a < b < updated.len() implies !(updated[
                        a
                    ].guild_id@ == updated[b].guild_id@ && updated[a].user_id@ == updated[
                        b
                    ].user_id@) by {
                        if b < updated.len() - 1 {
                            assert(!(before[a].guild_id@ == before[b].guild_id@
                                && before[a].user_id@ == before[b].user_id@));
                        }
                    }
                    lemma_member_at(updated, g, u, updated.len() - 1);
                }
            },
        }
    }

    /// Drop a user's voice record from the all-users store, if one
    /// exists: the user left the guild's voice.
    fn remove_member(&mut self, guild_id: &String, user_id: &String)
        requires
            old(self).wf(),
        ensures
            final(self).wf(),
            final(self).options == old(self).options,
            final(self).manager == old(self).manager,
            final(self).user == old(self).user,
            final(self).resume_props == old(self).resume_props,
            final(self).pending_destroys@ == old(self).pending_destroys@,
            members_removed(old(self).voice_states@, final(self).voice_states@, guild_id@, user_id@),
    {
        let i = match self.find_member_index(guild_id, user_id) {
            Some(i) => i,
            None => {
                return;
            },
        };
        let ghost before = self.voice_states@;
        self.voice_states.remove(i);
        proof {
            assert forall|a: int, b: int|
                0 <= a < b < self.voice_states@.len() implies !(self.voice_states@[a].guild_id@
                == self.voice_states@[b].guild_id@ && self.voice_states@[a].user_id@
                == self.voice_states@[b].user_id@) by {
                let a0: int = if a < i { a } else { a + 1 };
                let b0: int = if b < i { b } else { b + 1 };
                assert(self.voice_states@[a] == before[a0]);
                assert(self.voice_states@[b] == before[b0]);
                assert(!(before[a0].guild_id@ == before[b0].guild_id@ && before[a0].user_id@
                    == before[b0].user_id@));
            }
            assert forall|j: int|
                0 <= j < self.voice_states@.len() implies !(self.voice_states@[j].guild_id@
                == guild_id@ && self.voice_states@[j].user_id@ == user_id@) by {
                let j0: int = if j < i { j } else { j + 1 };
                assert(self.voice_states@[j] == before[j0]);
                if j0 < i {
                    assert(!(before[j0].guild_id@ == before[i as int].guild_id@
                        && before[j0].user_id@ == before[i as int].user_id@));
                } else if j0 > i {
                    assert(!(before[i as int].guild_id@ == before[j0].guild_id@
                        && before[i as int].user_id@ == before[j0].user_id@));
                }
            }
        }
    }
}

/// The idle heuristic schedules a destroy: a user left a channel the
/// bot occupies in that guild, the leaver's previous record is known,
/// exactly two records still referenced that channel (the bot and the
/// leaver), and no destroy is pending yet for the guild.
pub open spec fn spec_schedules_destroy(pre: Client, state: VoiceState) -> bool {
    &&& state.channel_id is None
    &&& has_member(pre.voice_states@, state.guild_id@, pre.user@)
    &&& has_member(pre.voice_states@, state.guild_id@, state.user_id@)
    &&& count_in_channel(
        pre.voice_states@,
        state.guild_id@,
        member_at(pre.voice_states@, state.guild_id@, state.user_id@).channel_id->Some_0@,
    ) == 2
    &&& !has_pending(pre.pending_destroys@, state.guild_id@)
}

/// The idle heuristic cancels a pending destroy: a user joined a
/// channel of a guild whose voice the bot occupies, the channel held
/// exactly one recorded user before the join, and a destroy is
/// pending for the guild.
pub open spec fn spec_cancels_destroy(pre: Client, state: VoiceState) -> bool {
    &&& state.channel_id is Some
    &&& has_member(pre.voice_states@, state.guild_id@, pre.user@)
    &&& count_in_channel(pre.voice_states@, state.guild_id@, state.channel_id->Some_0@) == 1
    &&& has_pending(pre.pending_destroys@, state.guild_id@)
}

/// The commands emitted when the bot itself left a guild's voice and
/// that guild had a player: leave the channel and tear the node-side
/// player down.
pub open spec fn spec_bot_leave_actions(pre: Client, state: VoiceState) -> Seq<Action> {
    if state.user_id@ == pre.user@ && state.channel_id is None && has_player(
        pre.manager.players@,
        state.guild_id@,
    ) {
        seq![
            Action::Gateway(
                GatewayCommand::UpdateVoiceState { guild_id: state.guild_id, channel_id: None },
            ),
            Action::Node(NodeCommand::Destroy { guild_id: state.guild_id }),
        ]
    } else {
        Seq::empty()
    }
}

/// The voice-connect retry made when the bot's own record gained a
/// channel: with the record and channel now known, the instruction is
/// formed as soon as the guild's voice server and player exist too.
pub open spec fn spec_bot_connect_actions(pre: Client, post: Client, state: VoiceState) -> Seq<
    Action,
> {
    if state.user_id@ == pre.user@ && state.channel_id is Some {
        match spec_attempt(
            post.manager.voice_servers@,
            post.manager.voice_states@,
            post.manager.players@,
            state.guild_id@,
        ) {
            Some(command) => seq![Action::Node(command)],
            None => Seq::empty(),
        }
    } else {
        Seq::empty()
    }
}

/// The timer bookkeeping the idle heuristic asks for.
pub open spec fn spec_idle_actions(pre: Client, state: VoiceState) -> Seq<Action> {
    if spec_schedules_destroy(pre, state) {
        seq![Action::ScheduleDestroy(state.guild_id)]
    } else if spec_cancels_destroy(pre, state) {
        seq![Action::CancelDestroy(state.guild_id)]
    } else {
        Seq::empty()
    }
}

/// The whole effect of one voice-state update. When the record is the
/// bot's own, the registry follows it (bot left: bot record and player
/// destroyed; bot joined or moved: bot record upserted and the player
/// rebound). Independently the all-users store is updated and the idle
/// heuristic runs, scheduling or cancelling a deferred destroy.
pub open spec fn voice_state_step(
    pre: Client,
    post: Client,
    state: VoiceState,
    actions: Seq<Action>,
) -> bool {
    &&& post.options == pre.options
    &&& post.user == pre.user
    &&& post.resume_props == pre.resume_props
    &&& post.manager.options == pre.manager.options
    &&& post.manager.voice_servers@ == pre.manager.voice_servers@
    &&& (state.user_id@ != pre.user@ ==> post.manager.voice_states@ == pre.manager.voice_states@
        && post.manager.players@ == pre.manager.players@)
    &&& (state.user_id@ == pre.user@ && state.channel_id is None ==> states_removed(
        pre.manager.voice_states@,
        post.manager.voice_states@,
        state.guild_id@,
    ) && players_destroyed(pre.manager.players@, post.manager.players@, state.guild_id@))
    &&& (state.user_id@ == pre.user@ && state.channel_id is Some ==> states_upserted(
        pre.manager.voice_states@,
        post.manager.voice_states@,
        state,
    ) && players_channel_set(
        pre.manager.players@,
        post.manager.players@,
        state.guild_id@,
        state.channel_id->Some_0,
    ))
    &&& (state.channel_id is None ==> members_removed(
        pre.voice_states@,
        post.voice_states@,
        state.guild_id@,
        state.user_id@,
    ))
    &&& (state.channel_id is Some ==> members_upserted(
        pre.voice_states@,
        post.voice_states@,
        state,
    ))
    &&& (spec_schedules_destroy(pre, state) ==> post.pending_destroys@
        == pre.pending_destroys@.push(state.guild_id))
    &&& (spec_cancels_destroy(pre, state) ==> pending_removed(
        pre.pending_destroys@,
        post.pending_destroys@,
        state.guild_id@,
    ))
    &&& (!spec_schedules_destroy(pre, state) && !spec_cancels_destroy(pre, state)
        ==> post.pending_destroys@ == pre.pending_destroys@)
    &&& actions == spec_bot_leave_actions(pre, state) + spec_bot_connect_actions(pre, post, state)
        + spec_idle_actions(pre, state)
}

impl Client {
    /// Apply one voice-state update; see [`voice_state_step`] for the
    /// full effect.
    pub fn on_voice_state(&mut self, state: VoiceState) -> (actions: Vec<Action>)
        requires
            old(self).wf(),
        ensures
            final(self).wf(),
            voice_state_step(*old(self), *final(self), state, actions@),
    {
        let ghost pre = *old(self);
        let mut actions: Vec<Action> = Vec::new();
        let is_self = state.user_id == self.user;
        if is_self {
            if state.channel_id.is_none() {
                self.manager.remove_bot_voice_state(&state.guild_id);
                match self.manager.destroy_player(&state.guild_id) {
                    Ok((gateway_command, node_command)) => {
                        actions.push(Action::Gateway(gateway_command));
                        actions.push(Action::Node(node_command));
                    },
                    Err(_) => {},
                }
            } else {
                let channel_id = match &state.channel_id {
                    Some(channel) => channel.clone(),
                    None => unreached(),
                };
                self.manager.upsert_bot_voice_state(state.duplicate());
                self.manager.set_player_channel(&state.guild_id, channel_id);
                match self.manager.attempt_connection(&state.guild_id) {
                    Some(command) => {
                        actions.push(Action::Node(command));
                    },
                    None => {},
                }
            }
        }
        let ghost connect_actions = actions@.skip(
            spec_bot_leave_actions(pre, state).len() as int,
        );
        proof {
            assert(actions@ =~= spec_bot_leave_actions(pre, state) + connect_actions);
        }
        let channel_of_update = match &state.channel_id {
            Some(channel) => Some(channel.clone()),
            None => None,
        };
        match channel_of_update {
            None => {
                let prev_index = self.find_member_index(&state.guild_id, &state.user_id);
                let bot_present = self.find_member_index(&state.guild_id, &self.user).is_some();
                if bot_present {
                    if let Some(pi) = prev_index {
                        proof {
                            lemma_member_at(
                                self.voice_states@,
                                state.guild_id@,
                                state.user_id@,
                                pi as int,
                            );
                        }
                        let previous_channel = match &self.voice_states[pi].channel_id {
                            Some(channel) => channel.clone(),
                            None => unreached(),
                        };
                        let occupants = self.count_channel_members(
                            &state.guild_id,
                            &previous_channel,
                        );
                        if occupants == 2 {
                            if self.find_pending_index(&state.guild_id).is_none() {
                                proof {
                                    assert forall|k: int|
                                        0 <= k < self.pending_destroys@.len() implies
                                        self.pending_destroys@[k]@ != state.guild_id@ by {
                                        if self.pending_destroys@[k]@ == state.guild_id@ {
                                            assert(has_pending(
                                                self.pending_destroys@,
                                                state.guild_id@,
                                            ));
                                        }
                                    }
                                }
                                self.pending_destroys.push(state.guild_id.clone());
                                actions.push(Action::ScheduleDestroy(state.guild_id.clone()));
                                proof {
                                    let updated = self.pending_destroys@;
                                    assert forall|a: int, b: int|
                                        0 <= a < b < updated.len() implies updated[a]@
                                        != updated[b]@ by {
                                        if b < updated.len() - 1 {
                                            assert(pre.pending_destroys@[a]@
                                                != pre.pending_destroys@[b]@);
                                        }
                                    }
                                }
                            }
                        }
                    }
                }
                self.remove_member(&state.guild_id, &state.user_id);
                proof {
                    assert(actions@ =~= spec_bot_leave_actions(pre, state) + connect_actions
                        + spec_idle_actions(pre, state));
                    assert(connect_actions =~= spec_bot_connect_actions(pre, *self, state));
                }
            },
            Some(channel) => {
                let bot_present = self.find_member_index(&state.guild_id, &self.user).is_some();
                if bot_present {
                    let occupants = self.count_channel_members(&state.guild_id, &channel);
                    if occupants == 1 {
                        match self.find_pending_index(&state.guild_id) {
                            Some(qi) => {
                                let ghost before = self.pending_destroys@;
                                self.pending_destroys.remove(qi);
                                actions.push(Action::CancelDestroy(state.guild_id.clone()));
                                proof {
                                    assert forall|a: int, b: int|
                                        0 <= a < b < self.pending_destroys@.len() implies
                                        self.pending_destroys@[a]@ != self.pending_destroys@[b]@
                                    by {
                                        let a0: int = if a < qi { a } else { a + 1 };
                                        let b0: int = if b < qi { b } else { b + 1 };
                                        assert(self.pending_destroys@[a] == before[a0]);
                                        assert(self.pending_destroys@[b] == before[b0]);
                                        assert(before[a0]@ != before[b0]@);
                                    }
                                    assert forall|j: int|
                                        0 <= j < self.pending_destroys@.len() implies
                                        self.pending_destroys@[j]@ != state.guild_id@ by {
                                        let j0: int = if j < qi { j } else { j + 1 };
                                        assert(self.pending_destroys@[j] == before[j0]);
                                        if j0 < qi {
                                            assert(before[j0]@ != before[qi as int]@);
                                        } else if j0 > qi {
                                            assert(before[qi as int]@ != before[j0]@);
                                        }
                                    }
                                }
                            },
                            None => {},
                        }
                    }
                }
                self.upsert_member(state);
                proof {
                    assert(actions@ =~= spec_bot_leave_actions(pre, state) + connect_actions
                        + spec_idle_actions(pre, state));
                    assert(connect_actions =~= spec_bot_connect_actions(pre, *self, state));
                }
            },
        }
        actions
    }
}

/// The play command a track-end event provokes: the new head of the
/// guild's queue, when the queue held more than the ended track.
pub open spec fn spec_track_end_command(players: Seq<crate::player::Player>, guild: Seq<char>) -> Option<
    NodeCommand,
> {
    if has_player(players, guild) && player_at(players, guild).queue@.len() > 1 {
        Some(
            NodeCommand::Play {
                guild_id: player_at(players, guild).guild_id,
                track: player_at(players, guild).queue@[1].track,
            },
        )
    } else {
        None
    }
}

/// The interaction as handed to the command layer: annotated with the
/// invoking member's voice record when the all-users store knows one.
pub open spec fn spec_routed_interaction(pre: Client, interaction: Interaction) -> Interaction {
    if has_member(pre.voice_states@, interaction.guild_id@, interaction.member.user.id@) {
        Interaction {
            member: Member {
                voice: Some(
                    member_at(
                        pre.voice_states@,
                        interaction.guild_id@,
                        interaction.member.user.id@,
                    ),
                ),
                ..interaction.member
            },
            ..interaction
        }
    } else {
        interaction
    }
}

/// The whole effect of one event on the orchestrator: the state
/// transition and the actions handed back, by event kind.
pub open spec fn client_step(pre: Client, post: Client, event: Event, actions: Seq<Action>) -> bool {
    &&& post.options == pre.options
    &&& (event matches Event::Ready(user) ==> post == (Client {
                user: user.id,
                ..pre
            }) && actions == Seq::<Action>::empty())
    &&& (event matches Event::Resume ==> post == pre && actions == seq![
                Action::ResumeGateway,
            ])
    &&& (event matches Event::Reconnect ==> post == (Client {
                resume_props: post.resume_props,
                ..pre
            }) && post.resume_props == (ResumeProperties {
                seq: 0u64,
                session_id: post.resume_props.session_id,
                ..pre.resume_props
            }) && post.resume_props.session_id@ == Seq::<char>::empty() && actions == seq![
                Action::ReconnectGateway,
            ])
    &&& (event matches Event::ResumeSeq(s) ==> post == (Client {
                resume_props: post.resume_props,
                ..pre
            }) && post.resume_props == (ResumeProperties {
                seq: if s > pre.resume_props.seq {
                    s
                } else {
                    pre.resume_props.seq
                },
                ..pre.resume_props
            }) && actions == Seq::<Action>::empty())
    &&& (event matches Event::ResumeProps((url, session)) ==> post == (Client {
                resume_props: post.resume_props,
                ..pre
            }) && post.resume_props == (ResumeProperties {
                resume_gateway_url: url,
                session_id: session,
                ..pre.resume_props
            }) && actions == Seq::<Action>::empty())
    &&& (event matches Event::LavalinkClosed ==> post == pre && actions == seq![
                Action::ReconnectNode,
            ])
    &&& (event matches Event::VoiceStateUpdate(state) ==> voice_state_step(
                pre,
                post,
                state,
                actions,
            ))
    &&& (event matches Event::VoiceServerUpdate(server) ==> ({
                &&& servers_upserted(
                    pre.manager.voice_servers@,
                    post.manager.voice_servers@,
                    server,
                )
                &&& post.manager.voice_states@ == pre.manager.voice_states@
                &&& post.manager.players@ == pre.manager.players@
                &&& post.manager.options == pre.manager.options
                &&& post.voice_states@ == pre.voice_states@
                &&& post.user == pre.user
                &&& post.resume_props == pre.resume_props
                &&& post.pending_destroys@ == pre.pending_destroys@
                &&& actions == (match spec_attempt(
                    post.manager.voice_servers@,
                    post.manager.voice_states@,
                    post.manager.players@,
                    server.guild_id@,
                ) {
                    Some(command) => seq![Action::Node(command)],
                    None => Seq::<Action>::empty(),
                })
            }))
    &&& (event matches Event::TrackEnd(guild_id) ==> ({
                &&& players_track_ended(
                    pre.manager.players@,
                    post.manager.players@,
                    guild_id@,
                    spec_track_end_command(pre.manager.players@, guild_id@),
                )
                &&& post.manager.voice_states@ == pre.manager.voice_states@
                &&& post.manager.voice_servers@ == pre.manager.voice_servers@
                &&& post.manager.options == pre.manager.options
                &&& post.voice_states@ == pre.voice_states@
                &&& post.user == pre.user
                &&& post.resume_props == pre.resume_props
                &&& post.pending_destroys@ == pre.pending_destroys@
                &&& actions == (match spec_track_end_command(
                    pre.manager.players@,
                    guild_id@,
                ) {
                    Some(command) => seq![Action::Node(command)],
                    None => Seq::<Action>::empty(),
                })
            }))
    &&& (event matches Event::InteractionCreate(interaction) ==> post == pre
                && actions == seq![
                Action::RunCommand(spec_routed_interaction(pre, interaction)),
            ])
    &&& (event matches Event::DestroyPlayer(guild_id) ==> ({
                &&& players_destroyed(
                    pre.manager.players@,
                    post.manager.players@,
                    guild_id@,
                )
                &&& post.manager.voice_states@ == pre.manager.voice_states@
                &&& post.manager.voice_servers@ == pre.manager.voice_servers@
                &&& post.manager.options == pre.manager.options
                &&& post.voice_states@ == pre.voice_states@
                &&& post.user == pre.user
                &&& post.resume_props == pre.resume_props
                &&& pending_removed(
                    pre.pending_destroys@,
                    post.pending_destroys@,
                    guild_id@,
                )
                &&& actions == (if has_player(pre.manager.players@, guild_id@) {
                    seq![
                        Action::Gateway(
                            GatewayCommand::UpdateVoiceState {
                                guild_id: guild_id,
                                channel_id: None,
                            },
                        ),
                        Action::Node(NodeCommand::Destroy { guild_id: guild_id }),
                    ]
                } else {
                    Seq::<Action>::empty()
                })
            }))
}

impl Client {
    /// Handle one event of the unified stream, returning the actions
    /// the surrounding tasks must perform. Every mutation of shared
    /// state happens here.
    #[verifier::rlimit(60)]
    pub fn handle_event(&mut self, event: Event) -> (actions: Vec<Action>)
        requires
            old(self).wf(),
        ensures
            final(self).wf(),
            client_step(*old(self), *final(self), event, actions@),
    {
        match event {
            Event::Ready(user) => {
                self.user = user.id;
                Vec::new()
            },
            Event::Resume => {
                let mut actions: Vec<Action> = Vec::new();
                actions.push(Action::ResumeGateway);
                actions
            },
            Event::Reconnect => {
                self.resume_props.seq = 0;
                self.resume_props.session_id = String::new();
                let mut actions: Vec<Action> = Vec::new();
                actions.push(Action::ReconnectGateway);
                actions
            },
            Event::ResumeSeq(s) => {
                if s > self.resume_props.seq {
                    self.resume_props.seq = s;
                }
                Vec::new()
            },
            Event::ResumeProps((url, session)) => {
                self.resume_props.resume_gateway_url = url;
                self.resume_props.session_id = session;
                Vec::new()
            },
            Event::LavalinkClosed => {
                let mut actions: Vec<Action> = Vec::new();
                actions.push(Action::ReconnectNode);
                actions
            },
            Event::VoiceStateUpdate(state) => self.on_voice_state(state),
            Event::VoiceServerUpdate(server) => {
                let guild_id = server.guild_id.clone();
                self.manager.upsert_voice_server(server);
                let mut actions: Vec<Action> = Vec::new();
                match self.manager.attempt_connection(&guild_id) {
                    Some(command) => {
                        actions.push(Action::Node(command));
                    },
                    None => {},
                }
                actions
            },
            Event::TrackEnd(guild_id) => {
                let ghost pre_players = self.manager.players@;
                let command = self.manager.on_track_end(&guild_id);
                proof {
                    assert(command == spec_track_end_command(pre_players, guild_id@));
                }
                let mut actions: Vec<Action> = Vec::new();
                match command {
                    Some(command) => {
                        actions.push(Action::Node(command));
                    },
                    None => {},
                }
                actions
            },
            Event::InteractionCreate(interaction) => {
                let found = self.find_member_index(&interaction.guild_id, &interaction.member.user.id);
                let mut actions: Vec<Action> = Vec::new();
                match found {
                    Some(i) => {
                        proof {
                            lemma_member_at(
                                self.voice_states@,
                                interaction.guild_id@,
                                interaction.member.user.id@,
                                i as int,
                            );
                        }
                        let voice = self.voice_states[i].duplicate();
                        let routed = interaction.update_voice(voice);
                        actions.push(Action::RunCommand(routed));
                    },
                    None => {
                        actions.push(Action::RunCommand(interaction));
                    },
                }
                actions
            },
            Event::DestroyPlayer(guild_id) => {
                let mut actions: Vec<Action> = Vec::new();
                match self.manager.destroy_player(&guild_id) {
                    Ok((gateway_command, node_command)) => {
                        actions.push(Action::Gateway(gateway_command));
                        actions.push(Action::Node(node_command));
                    },
                    Err(_) => {},
                }
                match self.find_pending_index(&guild_id) {
                    Some(qi) => {
                        let ghost before = self.pending_destroys@;
                        self.pending_destroys.remove(qi);
                        proof {
                            assert forall|a: int, b: int|
                                0 <= a < b < self.pending_destroys@.len() implies
                                self.pending_destroys@[a]@ != self.pending_destroys@[b]@ by {
                                let a0: int = if a < qi { a } else { a + 1 };
                                let b0: int = if b < qi { b } else { b + 1 };
                                assert(self.pending_destroys@[a] == before[a0]);
                                assert(self.pending_destroys@[b] == before[b0]);
                                assert(before[a0]@ != before[b0]@);
                            }
                            assert forall|j: int|
                                0 <= j < self.pending_destroys@.len() implies
                                self.pending_destroys@[j]@ != guild_id@ by {
                                let j0: int = if j < qi { j } else { j + 1 };
                                assert(self.pending_destroys@[j] == before[j0]);
                                if j0 < qi {
                                    assert(before[j0]@ != before[qi as int]@);
                                } else if j0 > qi {
                                    assert(before[qi as int]@ != before[j0]@);
                                }
                            }
                        }
                    },
                    None => {},
                }
                proof {
                    if has_player(old(self).manager.players@, guild_id@) {
                        assert(actions@ =~= seq![
                            Action::Gateway(
                                GatewayCommand::UpdateVoiceState {
                                    guild_id: guild_id,
                                    channel_id: None,
                                },
                            ),
                            Action::Node(NodeCommand::Destroy { guild_id: guild_id }),
                        ]);
                    } else {
                        assert(actions@ =~= Seq::<Action>::empty());
                    }
                }
                actions
            },
        }
    }
}

} // verus!

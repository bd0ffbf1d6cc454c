//! Laws of the orchestrator, stated and proved over the transition
//! relations that the executable functions ensure.

use vstd::prelude::*;
use crate::client::{
    client_step, has_pending, spec_bot_connect_actions, spec_cancels_destroy,
    spec_schedules_destroy, Action, Client,
};
use crate::events::Event;
use crate::events::{VoiceServer, VoiceState};
use crate::gateway::GatewayCommand;
use crate::node::NodeCommand;
use crate::player::{Player, StateError, Track};
use crate::registry::{
    has_player, has_server, has_state, lemma_player_at, lemma_server_at, lemma_state_at,
    player_at, players_joined, players_track_ended, server_at, servers_upserted, spec_attempt,
    state_at, states_upserted, unique_player_guilds,
};

verus! {

/// The saved sequence number never decreases while the session lives:
/// every event but a full reconnect leaves it equal or larger.
pub proof fn lemma_sequence_monotonic(pre: Client, post: Client, event: Event, actions: Seq<Action>)
    requires
        client_step(pre, post, event, actions),
        !(event matches Event::Reconnect),
    ensures
        post.resume_props.seq >= pre.resume_props.seq,
{
    match event {
        Event::VoiceStateUpdate(state) => {
            assert(post.resume_props == pre.resume_props);
        },
        _ => {},
    }
}

/// A full reconnect abandons the session: the saved sequence number
/// and session id are reset.
pub proof fn lemma_sequence_reset(pre: Client, post: Client, event: Event, actions: Seq<Action>)
    requires
        client_step(pre, post, event, actions),
        event matches Event::Reconnect,
    ensures
        post.resume_props.seq == 0,
        post.resume_props.session_id@ == Seq::<char>::empty(),
{
}

/// A voice-connect instruction is formed exactly when the guild's
/// voice server, the bot's voice record and a player all exist, and
/// it then carries that record's session and that server's token and
/// endpoint.
pub proof fn lemma_voice_connect_exactly_when(
    servers: Seq<VoiceServer>,
    states: Seq<VoiceState>,
    players: Seq<Player>,
    guild: Seq<char>,
)
    ensures
        spec_attempt(servers, states, players, guild) is Some <==> has_server(servers, guild)
            && has_state(states, guild) && has_player(players, guild),
        spec_attempt(servers, states, players, guild) is Some ==> spec_attempt(
            servers,
            states,
            players,
            guild,
        ) == Some(
            NodeCommand::VoiceUpdate {
                guild_id: player_at(players, guild).guild_id,
                session_id: state_at(states, guild).session_id,
                token: server_at(servers, guild).token,
                endpoint: server_at(servers, guild).endpoint,
            },
        ),
{
}

/// Re-delivering a voice-server update changes nothing and emits the
/// same instruction again: the voice-connect attempt is idempotent in
/// its server prerequisite.
pub proof fn lemma_voice_connect_idempotent_server(
    pre: Client,
    mid: Client,
    post: Client,
    server: VoiceServer,
    first: Seq<Action>,
    second: Seq<Action>,
)
    requires
        mid.wf(),
        client_step(pre, mid, Event::VoiceServerUpdate(server), first),
        client_step(mid, post, Event::VoiceServerUpdate(server), second),
    ensures
        post.manager.voice_servers@ == mid.manager.voice_servers@,
        post.manager.voice_states@ == mid.manager.voice_states@,
        post.manager.players@ == mid.manager.players@,
        second == first,
{
    let g = server.guild_id@;
    assert(servers_upserted(mid.manager.voice_servers@, post.manager.voice_servers@, server));
    assert(has_server(mid.manager.voice_servers@, g));
    let i = choose|i: int|
        0 <= i < mid.manager.voice_servers@.len() && mid.manager.voice_servers@[i].guild_id@ == g
            && post.manager.voice_servers@ == mid.manager.voice_servers@.update(i, server);
    lemma_server_at(mid.manager.voice_servers@, g, i);
    assert(mid.manager.voice_servers@[i] == server);
    assert(post.manager.voice_servers@ =~= mid.manager.voice_servers@);
}

/// Re-delivering the bot's voice-state update leaves the registry
/// unchanged and forms the same voice-connect instruction again: the
/// attempt is idempotent in its voice-state prerequisite.
pub proof fn lemma_voice_connect_idempotent_state(
    pre: Client,
    mid: Client,
    post: Client,
    state: VoiceState,
    first: Seq<Action>,
    second: Seq<Action>,
)
    requires
        mid.wf(),
        state.user_id@ == pre.user@,
        state.channel_id is Some,
        client_step(pre, mid, Event::VoiceStateUpdate(state), first),
        client_step(mid, post, Event::VoiceStateUpdate(state), second),
    ensures
        post.manager.voice_servers@ == mid.manager.voice_servers@,
        post.manager.voice_states@ == mid.manager.voice_states@,
        post.manager.players@ == mid.manager.players@,
        spec_bot_connect_actions(mid, post, state) == spec_bot_connect_actions(pre, mid, state),
{
    let g = state.guild_id@;
    assert(states_upserted(mid.manager.voice_states@, post.manager.voice_states@, state));
    assert(has_state(mid.manager.voice_states@, g));
    let i = choose|i: int|
        0 <= i < mid.manager.voice_states@.len() && mid.manager.voice_states@[i].guild_id@ == g
            && post.manager.voice_states@ == mid.manager.voice_states@.update(i, state);
    lemma_state_at(mid.manager.voice_states@, g, i);
    assert(mid.manager.voice_states@[i] == state);
    assert(post.manager.voice_states@ =~= mid.manager.voice_states@);
    if has_player(mid.manager.players@, g) {
        let p = player_at(mid.manager.players@, g);
        let p2 = player_at(post.manager.players@, g);
        let j = choose|j: int|
            0 <= j < mid.manager.players@.len() && mid.manager.players@[j].guild_id@ == g
                && post.manager.players@ == mid.manager.players@.update(j, p2);
        lemma_player_at(mid.manager.players@, g, j);
        if has_player(pre.manager.players@, g) {
            assert(p.channel_id == state.channel_id->Some_0);
            assert(p2 == p);
            assert(post.manager.players@ =~= mid.manager.players@);
        } else {
            assert(mid.manager.players@ == pre.manager.players@);
            assert(false);
        }
    } else {
        assert(post.manager.players@ == mid.manager.players@);
    }
}

/// When a user other than the bot leaves a channel the bot occupies
/// and only the bot remains there, and no destroy is pending yet, the
/// step schedules exactly one deferred destroy for the guild.
pub proof fn lemma_idle_schedules(pre: Client, post: Client, state: VoiceState, actions: Seq<Action>)
    requires
        client_step(pre, post, Event::VoiceStateUpdate(state), actions),
        spec_schedules_destroy(pre, state),
        state.user_id@ != pre.user@,
    ensures
        actions == seq![Action::ScheduleDestroy(state.guild_id)],
        has_pending(post.pending_destroys@, state.guild_id@),
        post.pending_destroys@ == pre.pending_destroys@.push(state.guild_id),
{
    assert(actions =~= seq![Action::ScheduleDestroy(state.guild_id)]);
    let n: int = post.pending_destroys@.len() - 1;
    assert(post.pending_destroys@[n]@ == state.guild_id@);
}

/// When any user joins a channel of a guild whose voice the bot
/// occupies, while that channel held a single recorded user and a
/// destroy was pending, the step cancels the deferred destroy, and
/// none stays pending for the guild.
pub proof fn lemma_idle_cancels(pre: Client, post: Client, state: VoiceState, actions: Seq<Action>)
    requires
        client_step(pre, post, Event::VoiceStateUpdate(state), actions),
        spec_cancels_destroy(pre, state),
        state.user_id@ != pre.user@,
    ensures
        actions == seq![Action::CancelDestroy(state.guild_id)],
        !has_pending(post.pending_destroys@, state.guild_id@),
{
    assert(actions =~= seq![Action::CancelDestroy(state.guild_id)]);
}

/// A deferred destroy that fires after its player is already gone is
/// harmless: the step changes no player and issues no command.
pub proof fn lemma_destroy_idempotent(pre: Client, post: Client, guild_id: String, actions: Seq<Action>)
    requires
        client_step(pre, post, Event::DestroyPlayer(guild_id), actions),
        !has_player(pre.manager.players@, guild_id@),
    ensures
        post.manager.players@ == pre.manager.players@,
        actions == Seq::<Action>::empty(),
{
}

/// Joining a guild that already has a player fails with the
/// already-connected error and leaves every player, the existing
/// one included, exactly as it was.
pub proof fn lemma_join_existing_player(
    pre: Seq<Player>,
    post: Seq<Player>,
    guild_id: String,
    channel_id: String,
    result: Result<GatewayCommand, StateError>,
)
    requires
        players_joined(pre, post, guild_id, channel_id, result),
        has_player(pre, guild_id@),
    ensures
        result == Err::<GatewayCommand, StateError>(StateError::AlreadyConnected),
        post == pre,
        player_at(post, guild_id@) == player_at(pre, guild_id@),
{
}

/// A track end on a queue that empties leaves the player idle and
/// issues no play command; on a queue that still holds a track it
/// issues exactly one play command, for the new head.
pub proof fn lemma_track_end_outcome(
    pre: Seq<Player>,
    post: Seq<Player>,
    guild: Seq<char>,
    command: Option<NodeCommand>,
)
    requires
        players_track_ended(pre, post, guild, command),
        has_player(pre, guild),
        player_at(pre, guild).queue@.len() > 0,
    ensures
        player_at(pre, guild).queue@.len() == 1 ==> player_at(post, guild).playing == false
            && command is None,
        player_at(pre, guild).queue@.len() > 1 ==> player_at(post, guild).playing == player_at(
            pre,
            guild,
        ).playing && command == Some(
            NodeCommand::Play {
                guild_id: player_at(pre, guild).guild_id,
                track: player_at(pre, guild).queue@[1].track,
            },
        ),
{
    let p = player_at(pre, guild);
    let p2 = player_at(post, guild);
    if p.queue@.len() == 1 {
        assert(p2.queue@ == p.queue@.skip(1));
        assert(p2.queue@.len() == 0);
    }
}

} // verus!

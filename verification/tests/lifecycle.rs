use franta_rust::client::{Action, Client, ClientBuilderOptions};
use franta_rust::events::{Event, ReadyUser, VoiceServer, VoiceState};
use franta_rust::gateway::GatewayCommand;
use franta_rust::node::NodeCommand;
use franta_rust::player::{StateError, Track, TrackInfo};
use franta_rust::registry::LavalinkBuilderOptions;

fn new_client() -> Client {
    Client::new(
        ClientBuilderOptions {
            intents: 513,
            token: "credential".to_string(),
            app_id: "app".to_string(),
        },
        LavalinkBuilderOptions {
            host: "localhost".to_string(),
            port: 2333,
            password: "pass".to_string(),
        },
    )
}

fn ready(id: &str) -> Event {
    Event::Ready(ReadyUser {
        avatar: None,
        bot: true,
        discriminator: "0".to_string(),
        flags: 0,
        id: id.to_string(),
        username: "bot".to_string(),
    })
}

fn voice_state(guild: &str, user: &str, channel: Option<&str>) -> Event {
    Event::VoiceStateUpdate(VoiceState {
        channel_id: channel.map(|c| c.to_string()),
        guild_id: guild.to_string(),
        user_id: user.to_string(),
        session_id: format!("session-{user}"),
    })
}

fn track(name: &str) -> Track {
    Track {
        track: format!("encoded-{name}"),
        info: TrackInfo {
            identifier: name.to_string(),
            author: "author".to_string(),
            length: 1000,
            position: 0,
            title: name.to_string(),
            uri: format!("https://tracks.example/{name}"),
        },
    }
}

#[test]
fn sequence_numbers_never_decrease_within_a_session() {
    let mut client = new_client();
    assert!(client.handle_event(Event::ResumeSeq(5)).is_empty());
    assert_eq!(client.resume_props.seq, 5);
    assert!(client.handle_event(Event::ResumeSeq(3)).is_empty());
    assert_eq!(client.resume_props.seq, 5);
    assert!(client.handle_event(Event::ResumeSeq(9)).is_empty());
    assert_eq!(client.resume_props.seq, 9);
}

#[test]
fn full_reconnect_resets_the_resume_token() {
    let mut client = new_client();
    client.handle_event(Event::ResumeSeq(17));
    client.handle_event(Event::ResumeProps((
        "wss://resume.example".to_string(),
        "sess".to_string(),
    )));
    assert_eq!(client.resume_props.seq, 17);
    assert_eq!(client.resume_props.session_id, "sess");
    let actions = client.handle_event(Event::Reconnect);
    assert_eq!(actions.len(), 1);
    assert!(matches!(actions[0], Action::ReconnectGateway));
    assert_eq!(client.resume_props.seq, 0);
    assert_eq!(client.resume_props.session_id, "");
    assert_eq!(client.resume_props.resume_gateway_url, "wss://resume.example");
}

#[test]
fn resume_request_keeps_the_resume_token() {
    let mut client = new_client();
    client.handle_event(Event::ResumeSeq(8));
    let actions = client.handle_event(Event::Resume);
    assert_eq!(actions.len(), 1);
    assert!(matches!(actions[0], Action::ResumeGateway));
    assert_eq!(client.resume_props.seq, 8);
}

#[test]
fn node_closure_asks_for_a_node_reconnect() {
    let mut client = new_client();
    let actions = client.handle_event(Event::LavalinkClosed);
    assert_eq!(actions.len(), 1);
    assert!(matches!(actions[0], Action::ReconnectNode));
}

#[test]
fn join_on_existing_player_fails_without_mutation() {
    let mut client = new_client();
    let guild = "G".to_string();
    let channel = "C".to_string();
    let command = client.manager.join(&guild, &channel).unwrap();
    match command {
        GatewayCommand::UpdateVoiceState { guild_id, channel_id } => {
            assert_eq!(guild_id, "G");
            assert_eq!(channel_id, Some("C".to_string()));
        }
        other => panic!("unexpected: {other:?}"),
    }
    client.manager.play(&guild, track("a")).unwrap();
    let other_channel = "D".to_string();
    match client.manager.join(&guild, &other_channel) {
        Err(StateError::AlreadyConnected) => {}
        other => panic!("unexpected: {other:?}"),
    }
    let player = client.manager.get_player(&guild).unwrap();
    assert_eq!(player.channel_id, "C");
    assert_eq!(player.queue.len(), 1);
    assert!(player.playing);
}

#[test]
fn voice_connect_needs_all_three_and_is_emitted_once() {
    let mut client = new_client();
    client.handle_event(ready("bot"));
    let guild = "G".to_string();
    let channel = "C".to_string();
    client.manager.join(&guild, &channel).unwrap();

    // The server assignment arrives first: no instruction yet, the
    // bot's voice record is still missing.
    let actions = client.handle_event(Event::VoiceServerUpdate(VoiceServer {
        token: "tok".to_string(),
        guild_id: "G".to_string(),
        endpoint: "voice.example".to_string(),
    }));
    assert_eq!(actions.len(), 0);

    // The bot's own voice record arrives second: exactly one
    // voice-connect instruction is emitted.
    let actions = client.handle_event(voice_state("G", "bot", Some("C")));
    let mut connects = 0;
    for action in &actions {
        if let Action::Node(NodeCommand::VoiceUpdate { guild_id, session_id, token, endpoint }) =
            action
        {
            connects += 1;
            assert_eq!(guild_id, "G");
            assert_eq!(session_id, "session-bot");
            assert_eq!(token, "tok");
            assert_eq!(endpoint, "voice.example");
        }
    }
    assert_eq!(connects, 1);
    assert_eq!(actions.len(), 1);
}

#[test]
fn voice_connect_is_idempotent_under_redelivery() {
    let mut client = new_client();
    client.handle_event(ready("bot"));
    client.manager.join(&"G".to_string(), &"C".to_string()).unwrap();
    client.handle_event(voice_state("G", "bot", Some("C")));

    let server_update = |client: &mut Client| {
        client.handle_event(Event::VoiceServerUpdate(VoiceServer {
            token: "tok".to_string(),
            guild_id: "G".to_string(),
            endpoint: "voice.example".to_string(),
        }))
    };
    let first = server_update(&mut client);
    let second = server_update(&mut client);
    assert_eq!(first.len(), 1);
    assert_eq!(second.len(), 1);
    for actions in [&first, &second] {
        match &actions[0] {
            Action::Node(NodeCommand::VoiceUpdate { guild_id, session_id, token, endpoint }) => {
                assert_eq!(guild_id, "G");
                assert_eq!(session_id, "session-bot");
                assert_eq!(token, "tok");
                assert_eq!(endpoint, "voice.example");
            }
            other => panic!("unexpected: {other:?}"),
        }
    }
}

#[test]
fn idle_timeout_schedules_and_cancels() {
    let mut client = new_client();
    client.handle_event(ready("bot"));
    client.manager.join(&"G".to_string(), &"C".to_string()).unwrap();
    // Bot and one other user occupy the channel.
    client.handle_event(voice_state("G", "bot", Some("C")));
    let actions = client.handle_event(voice_state("G", "u1", Some("C")));
    assert!(actions.is_empty());

    // The other user leaves: only the bot remains, a destroy is
    // scheduled.
    let actions = client.handle_event(voice_state("G", "u1", None));
    assert_eq!(actions.len(), 1);
    match &actions[0] {
        Action::ScheduleDestroy(guild) => assert_eq!(guild, "G"),
        other => panic!("unexpected: {other:?}"),
    }
    assert_eq!(client.pending_destroys.len(), 1);

    // A second leave of an unrelated user must not double-schedule.
    let actions = client.handle_event(voice_state("G", "u2", None));
    assert!(actions.is_empty());
    assert_eq!(client.pending_destroys.len(), 1);

    // The user rejoins the now bot-only channel: the destroy is
    // cancelled.
    let actions = client.handle_event(voice_state("G", "u1", Some("C")));
    assert_eq!(actions.len(), 1);
    match &actions[0] {
        Action::CancelDestroy(guild) => assert_eq!(guild, "G"),
        other => panic!("unexpected: {other:?}"),
    }
    assert!(client.pending_destroys.is_empty());
}

#[test]
fn fired_idle_destroy_is_destructive_once() {
    let mut client = new_client();
    client.handle_event(ready("bot"));
    client.manager.join(&"G".to_string(), &"C".to_string()).unwrap();
    client.handle_event(voice_state("G", "bot", Some("C")));
    client.handle_event(voice_state("G", "u1", Some("C")));
    client.handle_event(voice_state("G", "u1", None));
    assert_eq!(client.pending_destroys.len(), 1);

    // The timer fires: the player is destroyed, the channel left.
    let actions = client.handle_event(Event::DestroyPlayer("G".to_string()));
    assert_eq!(actions.len(), 2);
    match &actions[0] {
        Action::Gateway(GatewayCommand::UpdateVoiceState { guild_id, channel_id }) => {
            assert_eq!(guild_id, "G");
            assert!(channel_id.is_none());
        }
        other => panic!("unexpected: {other:?}"),
    }
    match &actions[1] {
        Action::Node(NodeCommand::Destroy { guild_id }) => assert_eq!(guild_id, "G"),
        other => panic!("unexpected: {other:?}"),
    }
    assert!(client.pending_destroys.is_empty());
    assert!(client.manager.get_player(&"G".to_string()).is_none());

    // A late second firing is harmless.
    let actions = client.handle_event(Event::DestroyPlayer("G".to_string()));
    assert!(actions.is_empty());
}

#[test]
fn track_end_advances_then_idles() {
    let mut client = new_client();
    client.handle_event(ready("bot"));
    let guild = "G".to_string();
    client.manager.join(&guild, &"C".to_string()).unwrap();

    // First play starts at once; the second only enqueues.
    let started = client.manager.play(&guild, track("a")).unwrap();
    match started {
        Some(NodeCommand::Play { guild_id, track }) => {
            assert_eq!(guild_id, "G");
            assert_eq!(track, "encoded-a");
        }
        other => panic!("unexpected: {other:?}"),
    }
    let queued = client.manager.play(&guild, track("b")).unwrap();
    assert!(queued.is_none());

    // First track ends: queue becomes [b], one play command, still
    // playing.
    let actions = client.handle_event(Event::TrackEnd("G".to_string()));
    assert_eq!(actions.len(), 1);
    match &actions[0] {
        Action::Node(NodeCommand::Play { guild_id, track }) => {
            assert_eq!(guild_id, "G");
            assert_eq!(track, "encoded-b");
        }
        other => panic!("unexpected: {other:?}"),
    }
    {
        let player = client.manager.get_player(&guild).unwrap();
        assert!(player.playing);
        assert_eq!(player.queue.len(), 1);
    }

    // Second track ends: queue empties, no play command, idle.
    let actions = client.handle_event(Event::TrackEnd("G".to_string()));
    assert!(actions.is_empty());
    let player = client.manager.get_player(&guild).unwrap();
    assert!(!player.playing);
    assert!(player.queue.is_empty());
}

#[test]
fn track_end_without_player_is_a_no_op() {
    let mut client = new_client();
    let actions = client.handle_event(Event::TrackEnd("G".to_string()));
    assert!(actions.is_empty());
}

#[test]
fn bot_leaving_voice_destroys_the_player() {
    let mut client = new_client();
    client.handle_event(ready("bot"));
    client.manager.join(&"G".to_string(), &"C".to_string()).unwrap();
    client.handle_event(voice_state("G", "bot", Some("C")));
    let actions = client.handle_event(voice_state("G", "bot", None));
    assert_eq!(actions.len(), 2);
    assert!(matches!(
        actions[0],
        Action::Gateway(GatewayCommand::UpdateVoiceState { channel_id: None, .. })
    ));
    assert!(matches!(actions[1], Action::Node(NodeCommand::Destroy { .. })));
    assert!(client.manager.get_player(&"G".to_string()).is_none());
}

#[test]
fn skip_returns_the_current_track_and_a_stop() {
    let mut client = new_client();
    let guild = "G".to_string();
    client.manager.join(&guild, &"C".to_string()).unwrap();
    match client.manager.skip(&guild) {
        Err(StateError::NothingPlaying) => {}
        other => panic!("unexpected: {other:?}"),
    }
    client.manager.play(&guild, track("a")).unwrap();
    let (skipped, command) = client.manager.skip(&guild).unwrap();
    assert_eq!(skipped.info.title, "a");
    assert!(matches!(command, NodeCommand::Stop { .. }));
    // The queue is popped by the later track-end event, not by skip.
    assert_eq!(client.manager.get_player(&guild).unwrap().queue.len(), 1);
}

#[test]
fn skip_without_player_reports_not_found() {
    let client = new_client();
    match client.manager.skip(&"G".to_string()) {
        Err(StateError::NotFound) => {}
        other => panic!("unexpected: {other:?}"),
    }
}

#[test]
fn pause_relays_the_flag() {
    let mut client = new_client();
    let guild = "G".to_string();
    client.manager.join(&guild, &"C".to_string()).unwrap();
    match client.manager.pause(&guild, true) {
        Ok(NodeCommand::Pause { guild_id, pause }) => {
            assert_eq!(guild_id, "G");
            assert!(pause);
        }
        other => panic!("unexpected: {other:?}"),
    }
    match client.manager.pause(&"H".to_string(), true) {
        Err(StateError::NotFound) => {}
        other => panic!("unexpected: {other:?}"),
    }
}

#[test]
fn destroy_without_player_reports_not_found() {
    let mut client = new_client();
    match client.manager.destroy_player(&"G".to_string()) {
        Err(StateError::NotFound) => {}
        other => panic!("unexpected: {other:?}"),
    }
}

#[test]
fn interactions_are_routed_with_the_callers_voice() {
    let mut client = new_client();
    client.handle_event(ready("bot"));
    client.handle_event(voice_state("G", "caller", Some("C")));
    let interaction = franta_rust::events::Interaction {
        id: "i1".to_string(),
        application_id: "app".to_string(),
        interaction_type: 2,
        data: None,
        guild_id: "G".to_string(),
        channel_id: "text".to_string(),
        member: franta_rust::events::Member {
            avatar: None,
            nick: None,
            roles: Vec::new(),
            user: franta_rust::events::User {
                avatar: None,
                discriminator: "1".to_string(),
                id: "caller".to_string(),
                public_flags: 0,
                username: "caller".to_string(),
            },
            voice: None,
        },
        token: "itoken".to_string(),
    };
    let actions = client.handle_event(Event::InteractionCreate(interaction));
    assert_eq!(actions.len(), 1);
    match &actions[0] {
        Action::RunCommand(routed) => {
            let voice = routed.member.voice.as_ref().unwrap();
            assert_eq!(voice.channel_id, Some("C".to_string()));
            assert_eq!(voice.session_id, "session-caller");
        }
        other => panic!("unexpected: {other:?}"),
    }
}

#[test]
fn voice_connect_withheld_while_any_prerequisite_is_missing() {
    let mut client = new_client();
    client.handle_event(ready("bot"));

    // Server and bot record exist, but no player.
    let actions = client.handle_event(voice_state("G", "bot", Some("C")));
    assert!(actions.is_empty());
    let actions = client.handle_event(Event::VoiceServerUpdate(VoiceServer {
        token: "tok".to_string(),
        guild_id: "G".to_string(),
        endpoint: "voice.example".to_string(),
    }));
    assert!(actions.is_empty());

    // The player appears, and the next server update completes the
    // triple.
    client.manager.join(&"G".to_string(), &"C".to_string()).unwrap();
    let actions = client.handle_event(Event::VoiceServerUpdate(VoiceServer {
        token: "tok2".to_string(),
        guild_id: "G".to_string(),
        endpoint: "voice2.example".to_string(),
    }));
    assert_eq!(actions.len(), 1);
    match &actions[0] {
        Action::Node(NodeCommand::VoiceUpdate { token, endpoint, .. }) => {
            // The replaced server record wins.
            assert_eq!(token, "tok2");
            assert_eq!(endpoint, "voice2.example");
        }
        other => panic!("unexpected: {other:?}"),
    }
}

#[test]
fn bot_move_rebinds_the_player_channel() {
    let mut client = new_client();
    client.handle_event(ready("bot"));
    client.manager.join(&"G".to_string(), &"C".to_string()).unwrap();
    client.handle_event(voice_state("G", "bot", Some("C")));
    client.handle_event(voice_state("G", "bot", Some("D")));
    let player = client.manager.get_player(&"G".to_string()).unwrap();
    assert_eq!(player.channel_id, "D");
}

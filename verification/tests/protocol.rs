use franta_rust::events::Event;
use franta_rust::gateway::{
    close_action, create_event, gateway_step, on_close, CloseAction, CloseInfo, DispatchData,
    GatewayFrame, ProtocolError,
};
use franta_rust::node::{configure_resuming, node_step, NodeCommand, NodeFrame};

fn frame(op: Option<u64>, seq: Option<u64>) -> GatewayFrame {
    GatewayFrame {
        op,
        seq,
        event_name: None,
        resume_gateway_url: None,
        session_id: None,
        data: DispatchData::Absent,
    }
}

#[test]
fn close_codes_that_resume() {
    for code in [4000u16, 4001, 4002, 4009] {
        assert!(matches!(close_action(code), CloseAction::Resume));
        let outcome = on_close(Some(CloseInfo { code, reason: "r".to_string() }));
        assert!(matches!(outcome, Ok(Event::Resume)));
    }
}

#[test]
fn close_codes_that_reconnect() {
    for code in [4003u16, 4005, 4007, 4008] {
        assert!(matches!(close_action(code), CloseAction::Reconnect));
        let outcome = on_close(Some(CloseInfo { code, reason: "r".to_string() }));
        assert!(matches!(outcome, Ok(Event::Reconnect)));
    }
}

#[test]
fn close_codes_that_are_fatal() {
    for code in [4004u16, 4010, 4011, 4013, 4014] {
        assert!(matches!(close_action(code), CloseAction::Fatal));
        let outcome = on_close(Some(CloseInfo { code, reason: "denied".to_string() }));
        match outcome {
            Err(reason) => assert_eq!(reason, "denied"),
            Ok(event) => panic!("expected an error, got {event:?}"),
        }
    }
}

#[test]
fn unknown_close_codes_resume() {
    for code in [1000u16, 1006, 4006, 4012, 4015, 4999] {
        assert!(matches!(close_action(code), CloseAction::Resume));
    }
    assert!(matches!(on_close(None), Ok(Event::Resume)));
}

#[test]
fn reconnect_notice_stops_reader_with_resume() {
    let result = gateway_step(frame(Some(7), Some(12)));
    assert!(result.stop);
    assert_eq!(result.events.len(), 2);
    assert!(matches!(result.events[0], Event::ResumeSeq(12)));
    assert!(matches!(result.events[1], Event::Resume));
}

#[test]
fn invalid_session_stops_reader_and_resumes() {
    let result = gateway_step(frame(Some(9), None));
    assert!(result.stop);
    assert_eq!(result.events.len(), 1);
    assert!(matches!(result.events[0], Event::Resume));
}

#[test]
fn sequence_number_is_forwarded() {
    let result = gateway_step(frame(Some(0), Some(42)));
    assert!(!result.stop);
    assert_eq!(result.events.len(), 1);
    assert!(matches!(result.events[0], Event::ResumeSeq(42)));
}

#[test]
fn ready_dispatch_yields_resume_props_and_ready() {
    let user = franta_rust::events::ReadyUser {
        avatar: None,
        bot: true,
        discriminator: "0".to_string(),
        flags: 0,
        id: "42".to_string(),
        username: "bot".to_string(),
    };
    let f = GatewayFrame {
        op: Some(0),
        seq: Some(1),
        event_name: Some("READY".to_string()),
        resume_gateway_url: Some("wss://resume.example".to_string()),
        session_id: Some("sess".to_string()),
        data: DispatchData::Ready(user),
    };
    let result = gateway_step(f);
    assert!(!result.stop);
    assert_eq!(result.events.len(), 3);
    assert!(matches!(result.events[0], Event::ResumeSeq(1)));
    match &result.events[1] {
        Event::ResumeProps((url, session)) => {
            assert_eq!(url, "wss://resume.example");
            assert_eq!(session, "sess");
        }
        other => panic!("unexpected event: {other:?}"),
    }
    match &result.events[2] {
        Event::Ready(ready) => assert_eq!(ready.id, "42"),
        other => panic!("unexpected event: {other:?}"),
    }
}

#[test]
fn ready_without_resume_endpoint_is_skipped() {
    let user = franta_rust::events::ReadyUser {
        avatar: None,
        bot: true,
        discriminator: "0".to_string(),
        flags: 0,
        id: "42".to_string(),
        username: "bot".to_string(),
    };
    let f = GatewayFrame {
        op: Some(0),
        seq: None,
        event_name: Some("READY".to_string()),
        resume_gateway_url: None,
        session_id: Some("sess".to_string()),
        data: DispatchData::Ready(user),
    };
    let result = gateway_step(f);
    assert!(!result.stop);
    assert_eq!(result.events.len(), 0);
}

#[test]
fn unrecognised_dispatch_names_are_ignored() {
    let mut f = frame(Some(0), Some(7));
    f.event_name = Some("GUILD_CREATE".to_string());
    let result = gateway_step(f);
    assert!(!result.stop);
    assert_eq!(result.events.len(), 1);
    assert!(matches!(result.events[0], Event::ResumeSeq(7)));
}

#[test]
fn voice_state_dispatch_decodes() {
    let state = franta_rust::events::VoiceState {
        channel_id: Some("C".to_string()),
        guild_id: "G".to_string(),
        user_id: "U".to_string(),
        session_id: "S".to_string(),
    };
    let event = create_event(&"VOICE_STATE_UPDATE".to_string(), DispatchData::VoiceState(state));
    match event {
        Ok(Event::VoiceStateUpdate(s)) => {
            assert_eq!(s.guild_id, "G");
            assert_eq!(s.user_id, "U");
        }
        other => panic!("unexpected: {other:?}"),
    }
}

#[test]
fn mismatched_dispatch_data_is_malformed() {
    let event = create_event(&"VOICE_SERVER_UPDATE".to_string(), DispatchData::Absent);
    assert!(matches!(event, Err(ProtocolError::MalformedData)));
}

#[test]
fn unknown_dispatch_name_is_reported() {
    let event = create_event(&"TYPING_START".to_string(), DispatchData::Absent);
    assert!(matches!(event, Err(ProtocolError::UnknownEvent)));
}

#[test]
fn node_track_end_is_forwarded() {
    let event = node_step(NodeFrame {
        guild_id: Some("G".to_string()),
        event_type: Some("TrackEndEvent".to_string()),
    });
    match event {
        Some(Event::TrackEnd(guild)) => assert_eq!(guild, "G"),
        other => panic!("unexpected: {other:?}"),
    }
}

#[test]
fn node_other_payloads_are_dropped() {
    assert!(node_step(NodeFrame {
        guild_id: Some("G".to_string()),
        event_type: Some("TrackStartEvent".to_string()),
    })
    .is_none());
    assert!(node_step(NodeFrame {
        guild_id: None,
        event_type: Some("TrackEndEvent".to_string()),
    })
    .is_none());
    assert!(node_step(NodeFrame { guild_id: Some("G".to_string()), event_type: None }).is_none());
}

#[test]
fn resume_configuration_payload() {
    match configure_resuming() {
        NodeCommand::ConfigureResuming { key, timeout } => {
            assert_eq!(key, "franta-rust-resume-key");
            assert_eq!(timeout, 60);
        }
        other => panic!("unexpected: {other:?}"),
    }
}

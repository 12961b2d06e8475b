use aivyx_server::engine::AutonomyTier;
use aivyx_server::error::{AivyxError, ServerError};
use aivyx_server::routes::a2a::{stream_events, A2aTaskState};
use aivyx_server::routes::chat::{
    audio_chat_step, chat_step, sse_closing_events, AudioAction, AudioEvent, AudioForm, AudioStage, ChatAction,
    ChatEvent, ChatStage, SseEvent,
};
use aivyx_server::routes::ws::{ws_turn_step, WsTurnAction, WsTurnEvent, WsTurnStage};
use aivyx_server::sso::oidc::{OidcValidator, SsoError};

fn creating(session: Option<&str>) -> ChatStage {
    ChatStage::CreatingAgent { agent: "coder".into(), session_id: session.map(|s| s.to_string()) }
}

#[test]
fn chat_turn_order() {
    let (s, a) = chat_step(creating(None), ChatEvent::AgentCreated(AutonomyTier::Trust), false);
    assert_eq!((s.clone(), a), (ChatStage::Running, ChatAction::RunTurn));
    let (_, a) = chat_step(s, ChatEvent::TurnCompleted("hi".into()), false);
    assert_eq!(a, ChatAction::SaveAndRespond("hi".into()));

    let (s, a) = chat_step(
        creating(Some("550e8400-e29b-41d4-a716-446655440000")),
        ChatEvent::AgentCreated(AutonomyTier::Free),
        true,
    );
    assert_eq!(s, ChatStage::LoadingSession);
    match a {
        ChatAction::LoadSession(id) => assert_eq!(id.as_str(), "550e8400-e29b-41d4-a716-446655440000"),
        other => panic!("unexpected {other:?}"),
    }
    let (s, a) = chat_step(s, ChatEvent::SessionLoaded, true);
    assert_eq!(a, ChatAction::RunTurn);
    let (_, a) = chat_step(s.clone(), ChatEvent::TurnCompleted("ok".into()), true);
    assert_eq!(a, ChatAction::SaveAndClose(vec![SseEvent::Done("ok".into()), SseEvent::Sentinel]));
    let (_, a) = chat_step(s, ChatEvent::TurnFailed(AivyxError::LlmProvider("down".into()), "provider failed".into()), true);
    assert_eq!(a, ChatAction::Close(vec![SseEvent::Error("provider failed".into()), SseEvent::Sentinel]));
}

#[test]
fn chat_turn_refusals() {
    let (_, a) = chat_step(creating(None), ChatEvent::AgentFailed(AivyxError::Io("gone".into())), false);
    assert_eq!(a, ChatAction::Fail(ServerError(AivyxError::Config("agent not found: coder".into()))));
    let (_, a) = chat_step(creating(None), ChatEvent::AgentFailed(AivyxError::Http("x".into())), false);
    assert_eq!(a, ChatAction::Fail(ServerError(AivyxError::Http("x".into()))));
    let (_, a) = chat_step(creating(Some("junk")), ChatEvent::AgentCreated(AutonomyTier::Leash), false);
    assert_eq!(
        a,
        ChatAction::Fail(ServerError(AivyxError::Config(
            "Leash-tier agents require an interactive channel (not supported via HTTP)".into()
        )))
    );
    let (_, a) = chat_step(creating(Some("junk")), ChatEvent::AgentCreated(AutonomyTier::Trust), false);
    assert_eq!(a, ChatAction::Fail(ServerError(AivyxError::Config("invalid session ID: junk".into()))));
    let (_, a) = chat_step(ChatStage::Running, ChatEvent::TurnFailed(AivyxError::Http("h".into()), "h".into()), false);
    assert_eq!(a, ChatAction::Fail(ServerError(AivyxError::Http("h".into()))));
    assert_eq!(sse_closing_events(Err("e".into())), vec![SseEvent::Error("e".into()), SseEvent::Sentinel]);
}

#[test]
fn audio_chat_check_order() {
    let (_, a) = audio_chat_step(AudioStage::CheckingSpeech, AudioEvent::SpeechConfigured(false));
    assert_eq!(
        a,
        AudioAction::Fail(ServerError(AivyxError::Config(
            "speech not configured \u{2014} add [speech] section to config.toml".into()
        )))
    );
    let (s, a) = audio_chat_step(AudioStage::CheckingSpeech, AudioEvent::SpeechConfigured(true));
    assert_eq!(a, AudioAction::ReadForm);
    let empty = AudioForm::new();
    let (_, a) = audio_chat_step(s.clone(), AudioEvent::FormRead(empty));
    assert_eq!(
        a,
        AudioAction::Fail(ServerError(AivyxError::Config("missing required 'audio' field in multipart form".into())))
    );
    let mut form = AudioForm::new();
    form.audio = Some(vec![1, 2, 3]);
    let (s, a) = audio_chat_step(s, AudioEvent::FormRead(form));
    assert_eq!(a, AudioAction::Transcribe { audio: vec![1, 2, 3], filename: "audio.wav".into() });
    let (_, a) = audio_chat_step(s, AudioEvent::Transcribed("hello".into()));
    assert_eq!(
        a,
        AudioAction::StartChat {
            stage: ChatStage::CreatingAgent { agent: "aivyx".into(), session_id: None },
            transcript: "hello".into()
        }
    );
}

#[test]
fn ws_turn_order() {
    let (s, a) = ws_turn_step(WsTurnStage::CreatingAgent, WsTurnEvent::AgentCreated(AutonomyTier::Leash));
    assert_eq!(a, WsTurnAction::RunTurn { approvals_over_socket: true });
    let (_, a) = ws_turn_step(s.clone(), WsTurnEvent::TurnCompleted);
    assert_eq!(a, WsTurnAction::SaveAndSendDone);
    let (_, a) = ws_turn_step(s, WsTurnEvent::TurnFailed("boom".into()));
    assert_eq!(a, WsTurnAction::SendError("boom".into()));
    let (_, a) = ws_turn_step(WsTurnStage::CreatingAgent, WsTurnEvent::AgentCreated(AutonomyTier::Locked));
    assert_eq!(a, WsTurnAction::SendError("Locked-tier agents cannot be used".into()));
    let (_, a) = ws_turn_step(WsTurnStage::CreatingAgent, WsTurnEvent::AgentCreated(AutonomyTier::Trust));
    assert_eq!(a, WsTurnAction::RunTurn { approvals_over_socket: false });
    let (_, a) = ws_turn_step(WsTurnStage::CreatingAgent, WsTurnEvent::AgentFailed("no profile".into()));
    assert_eq!(a, WsTurnAction::SendError("agent creation failed: no profile".into()));
}

#[test]
fn a2a_stream_sends_submitted_then_completed() {
    let v = stream_events("t1".into(), "coder", "t0".into(), "t9".into());
    assert_eq!(v.len(), 2);
    assert_eq!(v[0].status.state, A2aTaskState::Submitted);
    assert!(!v[0].is_final);
    assert_eq!(v[1].status.state, A2aTaskState::Completed);
    assert!(v[1].is_final);
    assert_eq!(v[1].status.timestamp, "t9");
}

#[test]
fn dotted_payload_fails_alike() {
    let a = OidcValidator::new("i1".into(), "c1".into());
    let b = OidcValidator::new("i2".into(), "c2".into());
    let ra = a.decode_payload("h1.p.q.s1");
    let rb = b.decode_payload("other.p.q.sig");
    assert_eq!(ra, Err(SsoError::InvalidToken("expected 3 dot-separated parts, got 4".into())));
    assert_eq!(ra, rb);
}

use aivyx_server::channels::manager::{check_channel_autonomy, ChannelConfig, MessageHandler, MessagePlan};
use aivyx_server::channels::telegram::{chunk_message, is_chunkable};
use aivyx_server::engine::AutonomyTier;
use aivyx_server::error::AivyxError;
use aivyx_server::middleware::trace_context::{format_traceparent, generate_traceparent, parse_traceparent};
use aivyx_server::sso::oidc::OidcValidator;
use aivyx_server::routes::ws::{command_action, frame_action, ClientCommand, CommandAction, FrameAction, TurnSlot, WsFrame};
use aivyx_server::routes::ws_voice::{voice_turn_step, VoiceTurnAction, VoiceTurnEvent, VoiceTurnStage};
use aivyx_server::security::capability_audit::{is_profile_file, profile_files};
use aivyx_server::validation::{validate_name, validate_secret_name};

#[test]
fn secret_name_length_counts_characters() {
    assert!(validate_secret_name(&"é".repeat(100)).is_ok());
    assert!(validate_secret_name(&"é".repeat(128)).is_ok());
    assert!(validate_secret_name(&"é".repeat(129)).is_err());
    // Resource names stay bounded in bytes.
    assert!(validate_name(&"é".repeat(32)).is_ok());
    assert!(validate_name(&"é".repeat(33)).is_err());
}

#[test]
fn chunk_breaks_at_character_boundary() {
    assert!(is_chunkable("éé", 3));
    assert_eq!(chunk_message("éé", 3), vec!["é", "é"]);
    assert_eq!(chunk_message("aé", 2), vec!["a", "é"]);
    assert!(!is_chunkable("éé", 1));
    assert!(!is_chunkable("é", 1));
    assert!(is_chunkable("ab", 1));
    assert_eq!(chunk_message("ab", 1), vec!["a", "b"]);
}

#[test]
fn generated_traceparent_is_sampled() {
    let tp = generate_traceparent();
    let (_, _, flags) = parse_traceparent(&tp).unwrap();
    assert_eq!(flags, "01");
    assert!(tp.ends_with("-01"));
}

#[test]
fn unlisted_user_rejected_with_channel_error() {
    let mut h = MessageHandler::new(ChannelConfig {
        name: "tg-test".into(),
        platform: "telegram".into(),
        agent: "assistant".into(),
        allowed_users: vec![],
        enabled: true,
        settings: vec![],
    });
    match h.prepare_message("42", "hello", 0) {
        MessagePlan::Reject(AivyxError::Channel(m)) => {
            assert_eq!(m, "user '42' not in allowed_users for channel 'tg-test'")
        }
        other => panic!("unexpected {other:?}"),
    }
}

#[test]
fn channel_autonomy_error_text() {
    match check_channel_autonomy("helper", AutonomyTier::Leash) {
        Err(AivyxError::Channel(m)) => assert_eq!(
            m,
            "agent 'helper' requires interactive approval (tier: Leash), which is not supported via channels"
        ),
        other => panic!("unexpected {other:?}"),
    }
    assert!(check_channel_autonomy("helper", AutonomyTier::Trust).is_ok());
}

#[test]
fn profile_file_filter() {
    assert!(is_profile_file("coder.toml"));
    assert!(is_profile_file("a.b.toml"));
    assert!(!is_profile_file(".toml"));
    assert!(!is_profile_file("notes.txt"));
    assert!(!is_profile_file("toml"));
    let names = vec!["a.toml".to_string(), "b.yaml".to_string(), "c.toml".to_string()];
    assert_eq!(profile_files(&names), vec![0, 2]);
}

#[test]
fn voice_turn_sequence() {
    let (s, a) = voice_turn_step(VoiceTurnStage::Start, VoiceTurnEvent::SpeechConfigured(true), false);
    assert_eq!(a, VoiceTurnAction::OpenStore);
    let (s, a) = voice_turn_step(s, VoiceTurnEvent::StoreOpened, false);
    assert_eq!(a, VoiceTurnAction::CreateStt);
    let (s, a) = voice_turn_step(s, VoiceTurnEvent::SttCreated, false);
    assert_eq!(a, VoiceTurnAction::Transcribe);
    let (s, a) = voice_turn_step(s, VoiceTurnEvent::Transcribed("hello there".into()), false);
    assert_eq!(a, VoiceTurnAction::SendTranscript("hello there".into()));
    let (s, a) = voice_turn_step(s, VoiceTurnEvent::TranscriptSent, false);
    assert_eq!(a, VoiceTurnAction::CreateAgent);
    let (s, a) = voice_turn_step(s, VoiceTurnEvent::AgentCreated, false);
    assert_eq!(a, VoiceTurnAction::RunTurn("hello there".into()));
    let (s, a) = voice_turn_step(s, VoiceTurnEvent::TurnCompleted, false);
    assert_eq!((s, a), (VoiceTurnStage::Finished, VoiceTurnAction::SaveAndSendDone));
}

#[test]
fn voice_turn_failures_and_cancellation() {
    let (_, a) = voice_turn_step(VoiceTurnStage::Start, VoiceTurnEvent::SpeechConfigured(false), false);
    assert_eq!(a, VoiceTurnAction::SendError("speech not configured".into()));
    let (_, a) = voice_turn_step(VoiceTurnStage::OpeningStore, VoiceTurnEvent::StoreFailed("locked".into()), false);
    assert_eq!(a, VoiceTurnAction::SendError("store error: locked".into()));
    let (_, a) = voice_turn_step(VoiceTurnStage::CreatingStt, VoiceTurnEvent::SttCreated, true);
    assert_eq!(a, VoiceTurnAction::Stop);
    let (_, a) = voice_turn_step(VoiceTurnStage::Transcribing, VoiceTurnEvent::Transcribed("   ".into()), false);
    assert_eq!(a, VoiceTurnAction::Stop);
    let (_, a) = voice_turn_step(VoiceTurnStage::RunningTurn, VoiceTurnEvent::TurnFailed("boom".into()), true);
    assert_eq!(a, VoiceTurnAction::Stop);
    let (_, a) = voice_turn_step(VoiceTurnStage::RunningTurn, VoiceTurnEvent::TurnFailed("boom".into()), false);
    assert_eq!(a, VoiceTurnAction::SendError("boom".into()));
    let (s, a) = voice_turn_step(VoiceTurnStage::Start, VoiceTurnEvent::TranscriptSent, false);
    assert_eq!((s, a), (VoiceTurnStage::Finished, VoiceTurnAction::Stop));
}

#[test]
fn connection_loop_frames() {
    assert_eq!(frame_action(WsFrame::Close, 10), FrameAction::Stop);
    assert_eq!(frame_action(WsFrame::ReadError, 10), FrameAction::Stop);
    assert_eq!(frame_action(WsFrame::Ping(vec![1, 2]), 10), FrameAction::Pong(vec![1, 2]));
    assert_eq!(frame_action(WsFrame::Other, 10), FrameAction::Ignore);
    assert_eq!(frame_action(WsFrame::Text("hi".into()), 10), FrameAction::Handle("hi".into()));
    assert_eq!(
        frame_action(WsFrame::Text("ééééé!".into()), 10),
        FrameAction::RefuseOversized {
            message: "message too large: 11 bytes (max 10)".into(),
            size_bytes: 11,
            max_bytes: 10
        }
    );
}

#[test]
fn connection_loop_commands() {
    let mut slot = TurnSlot::new();
    assert_eq!(command_action(&mut slot, ClientCommand::Cancel), CommandAction::Nothing);
    assert_eq!(
        command_action(&mut slot, ClientCommand::Message),
        CommandAction::StartTurn { cancel_previous: false }
    );
    assert_eq!(
        command_action(&mut slot, ClientCommand::Message),
        CommandAction::StartTurn { cancel_previous: true }
    );
    assert_eq!(command_action(&mut slot, ClientCommand::Cancel), CommandAction::CancelTurn);
    assert_eq!(command_action(&mut slot, ClientCommand::Auth), CommandAction::SendAuthOk);
    assert_eq!(command_action(&mut slot, ClientCommand::Ping), CommandAction::SendPong);
    assert_eq!(
        command_action(&mut slot, ClientCommand::Approval { request_id: "3".into(), approved: true }),
        CommandAction::ForwardApproval { request_id: "3".into(), approved: true }
    );
}

#[test]
fn parsed_traceparent_reformats_to_itself() {
    let v = "00-4bf92f3577b34da6a3ce929d0e0e4736-00f067aa0ba902b7-01";
    let (t, p, f) = parse_traceparent(v).unwrap();
    assert_eq!(format_traceparent(&t, &p, &f), v);
}

#[test]
fn payload_alone_decides_decoding() {
    let a = OidcValidator::new("https://idp-a".into(), "client-a".into());
    let b = OidcValidator::new("https://idp-b".into(), "client-b".into());
    let pl = "eyJzdWIiOiJ1MSIsImV4cCI6OTk5OTk5OTk5OX0";
    let one = a.decode_payload(&format!("h1.{pl}.s1")).unwrap();
    let two = b.decode_payload(&format!("other-header.{pl}.other-sig")).unwrap();
    assert_eq!(one, two);
    assert_eq!(one, b"{\"sub\":\"u1\",\"exp\":9999999999}".to_vec());
}

#[test]
fn rate_history_ten_pass_then_refused() {
    let mut h = MessageHandler::new(ChannelConfig {
        name: "c".into(),
        platform: "telegram".into(),
        agent: "a".into(),
        allowed_users: vec!["u".into()],
        enabled: true,
        settings: vec![],
    });
    for i in 0..10 {
        assert!(!h.is_rate_limited_at("u", 1000 + i));
    }
    assert!(h.is_rate_limited_at("u", 1100));
    assert!(h.is_rate_limited_at("u", 1200));
    assert!(!h.is_rate_limited_at("v", 1300));
    assert!(!h.is_rate_limited_at("u", 61_010));
}

use aivyx_server::channels::manager::{
    channels_to_start, check_channel_autonomy, check_platform, ChannelConfig, MessageHandler, MessagePlan,
};
use aivyx_server::channels::session::derive_channel_session_id;
use aivyx_server::channels::telegram::{
    admit_update, bot_token, get_me_outcome, get_updates_url, telegram_settings, DEFAULT_POLL_TIMEOUT,
};
use aivyx_server::engine::AutonomyTier;
use aivyx_server::error::AivyxError;
use aivyx_server::routes::chat::{reject_non_autonomous, AudioForm, FieldValue};
use aivyx_server::routes::memory::{eq_ignore_ascii_case, graph_nodes, merge_items};
use aivyx_server::routes::ws::{authenticate, frame_size_error, FirstFrame, RequestCounter, TurnSlot};
use aivyx_server::routes::ws_voice::{authenticate_voice, SentenceSplitter, VoiceSession, VoiceSessionConfig};
use aivyx_server::startup::bearer_token_hash;
use aivyx_server::text::{i64_to_decimal, parse_u64};

fn config(users: Vec<&str>) -> ChannelConfig {
    ChannelConfig {
        name: "tg".into(),
        platform: "telegram".into(),
        agent: "assistant".into(),
        allowed_users: users.into_iter().map(|u| u.to_string()).collect(),
        enabled: true,
        settings: vec![],
    }
}

#[test]
fn channel_session_id_value() {
    let id = derive_channel_session_id("telegram", "123456");
    assert_eq!(id.as_str(), "767f870a-bb67-4080-97fa-853f0d6f03bc");
}

#[test]
fn prepare_message_flow() {
    let mut h = MessageHandler::new(config(vec!["u1"]));
    match h.prepare_message("u2", "hi", 0) {
        MessagePlan::Reject(AivyxError::Channel(m)) => {
            assert_eq!(m, "user 'u2' not in allowed_users for channel 'tg'")
        }
        other => panic!("unexpected {other:?}"),
    }
    match h.prepare_message("u1", "  /new ", 1) {
        MessagePlan::ResetSession { session_id, reply } => {
            assert_eq!(reply, "Session cleared. Starting fresh conversation.");
            assert_eq!(session_id, derive_channel_session_id("telegram", "u1"));
        }
        other => panic!("unexpected {other:?}"),
    }
    let long = format!("  {}  ", "é".repeat(5000));
    match h.prepare_message("u1", &long, 2) {
        MessagePlan::RunTurn { message, .. } => assert_eq!(message, "é".repeat(4000)),
        other => panic!("unexpected {other:?}"),
    }
}

#[test]
fn channel_rate_limit_after_ten_messages() {
    let mut h = MessageHandler::new(config(vec!["u1", "u2"]));
    for i in 0..10 {
        assert!(!h.is_rate_limited_at("u1", i));
    }
    assert!(h.is_rate_limited_at("u1", 10));
    assert!(!h.is_rate_limited_at("u2", 10));
    assert!(!h.is_rate_limited_at("u1", 60_000 + 10));
    for i in 0..9 {
        assert!(!h.is_rate_limited_at("u1", 60_011 + i));
    }
    match h.prepare_message("u1", "hello", 60_100) {
        MessagePlan::Reply(r) => assert_eq!(r, "You're sending messages too quickly. Please wait a moment."),
        other => panic!("unexpected {other:?}"),
    }
}

#[test]
fn channel_checks() {
    assert!(check_channel_autonomy("a", AutonomyTier::Trust).is_ok());
    match check_channel_autonomy("a", AutonomyTier::Leash) {
        Err(AivyxError::Channel(m)) => assert_eq!(
            m,
            "agent 'a' requires interactive approval (tier: Leash), which is not supported via channels"
        ),
        other => panic!("unexpected {other:?}"),
    }
    assert!(check_platform("telegram").is_ok());
    assert!(check_platform("slack").is_err());
    let mut off = config(vec![]);
    off.enabled = false;
    assert_eq!(channels_to_start(&[off, config(vec![])]), vec![1]);
}

#[test]
fn telegram_settings_and_token() {
    let s = vec![("bot_token_ref".to_string(), "tg-token".to_string())];
    let t = telegram_settings(&s).unwrap();
    assert_eq!(t.bot_token_ref, "tg-token");
    assert_eq!(t.poll_timeout, DEFAULT_POLL_TIMEOUT);
    let s2 = vec![
        ("bot_token_ref".to_string(), "x".to_string()),
        ("poll_timeout_secs".to_string(), "+45".to_string()),
    ];
    assert_eq!(telegram_settings(&s2).unwrap().poll_timeout, 45);
    assert!(telegram_settings(&vec![]).is_err());
    assert_eq!(bot_token("k", Some(b"abc".to_vec())).unwrap(), "abc");
    assert!(bot_token("k", Some(vec![0xff])).is_err());
    match bot_token("k", None) {
        Err(AivyxError::Channel(m)) => assert_eq!(m, "bot token not found in encrypted store (key: 'k')"),
        other => panic!("unexpected {other:?}"),
    }
    assert_eq!(
        get_updates_url("T", -5, 30),
        "https://api.telegram.org/botT/getUpdates?offset=-5&timeout=30"
    );
    assert_eq!(get_me_outcome(true, None, Some(None)).unwrap(), "unknown");
    assert!(get_me_outcome(false, Some("bad".into()), None).is_err());
}

#[test]
fn telegram_update_admission() {
    let allowed = vec!["42".to_string()];
    assert_eq!(admit_update(&allowed, Some(42), Some("hi".into())), Some(("42".to_string(), "hi".to_string())));
    assert_eq!(admit_update(&allowed, Some(7), Some("hi".into())), None);
    assert_eq!(admit_update(&vec![], Some(-7), Some("hi".into())), Some(("-7".to_string(), "hi".to_string())));
    assert_eq!(admit_update(&allowed, None, Some("hi".into())), None);
}

#[test]
fn decimal_texts() {
    assert_eq!(i64_to_decimal(i64::MIN), "-9223372036854775808");
    assert_eq!(i64_to_decimal(0), "0");
    assert_eq!(parse_u64("18446744073709551615"), Some(u64::MAX));
    assert_eq!(parse_u64("18446744073709551616"), None);
    assert_eq!(parse_u64(""), None);
    assert_eq!(parse_u64("+"), None);
    assert_eq!(parse_u64("-1"), None);
    assert_eq!(parse_u64("12a"), None);
}

#[test]
fn chat_tiers_and_audio_form() {
    assert!(reject_non_autonomous(AutonomyTier::Free).is_ok());
    assert!(reject_non_autonomous(AutonomyTier::Locked).is_err());
    let mut f = AudioForm::new();
    f.apply_field("agent", FieldValue::Text("".into()));
    f.apply_field("agent", FieldValue::Text("coder".into()));
    f.apply_field("audio", FieldValue::File { file_name: Some("a.mp3".into()), bytes: vec![1, 2] });
    f.apply_field("unknown", FieldValue::Text("x".into()));
    let r = f.finish().unwrap();
    assert_eq!(r.agent, "coder");
    assert_eq!(r.filename, "a.mp3");
    assert_eq!(r.audio, vec![1, 2]);
    assert!(AudioForm::new().finish().is_err());
}

#[test]
fn ws_auth_and_frames() {
    let h = bearer_token_hash("tok");
    assert_eq!(authenticate(FirstFrame::Auth("tok".into()), &h), Ok(()));
    assert_eq!(authenticate(FirstFrame::Auth("bad".into()), &h), Err(("invalid bearer token".to_string(), true)));
    assert_eq!(
        authenticate(FirstFrame::NotText, &h),
        Err(("expected text message with auth token".to_string(), false))
    );
    assert_eq!(authenticate_voice(FirstFrame::NotText, &h), Err("auth timeout or connection error".to_string()));
    assert_eq!(frame_size_error(10, 5), Some("message too large: 10 bytes (max 5)".to_string()));
    assert_eq!(frame_size_error(5, 5), None);
    let mut c = RequestCounter::new();
    assert_eq!(c.next_request_id(), "0");
    assert_eq!(c.next_request_id(), "1");
    let mut slot = TurnSlot::new();
    assert!(!slot.cancel());
    assert!(!slot.begin_turn());
    assert!(slot.begin_turn());
}

#[test]
fn sentences_split_for_speech() {
    let mut s = SentenceSplitter::new();
    s.push_token("Hello there. How");
    s.push_token(" are you? I am");
    s.push_token(" fine");
    let out = s.finish();
    assert_eq!(out, vec!["Hello there.".to_string(), "How are you?".to_string(), "I am fine".to_string()]);
}

#[test]
fn voice_session_buffers_audio() {
    let mut v = VoiceSession::new();
    assert!(v.end_utterance().is_none());
    v.buffer_audio(vec![1, 2]);
    v.buffer_audio(vec![3]);
    let (audio, cancel_prev, cfg) = v.end_utterance().unwrap();
    assert_eq!(audio, vec![1, 2, 3]);
    assert!(!cancel_prev);
    assert_eq!(cfg.voice, "alloy");
    v.configure(VoiceSessionConfig { agent: "x".into(), session_id: None, project: None, voice: "nova".into() });
    v.buffer_audio(vec![9]);
    let (_, cancel_prev, cfg) = v.end_utterance().unwrap();
    assert!(cancel_prev);
    assert_eq!(cfg.agent, "x");
    assert!(v.interrupt());
}

#[test]
fn profile_lists_merge_without_duplicates() {
    let mut list = vec!["Rust".to_string()];
    merge_items(&mut list, &vec!["rust".into(), "Go".into(), "go".into()], true);
    assert_eq!(list, vec!["Rust".to_string(), "Go".to_string()]);
    let mut notes = vec!["a".to_string()];
    merge_items(&mut notes, &vec!["A".into(), "a".into()], false);
    assert_eq!(notes, vec!["a".to_string(), "A".to_string()]);
    assert!(eq_ignore_ascii_case("HeLLo", "hello"));
    assert!(!eq_ignore_ascii_case("É", "é"));
    let nodes = graph_nodes(&vec!["a".into(), "b".into(), "a".into()]);
    assert_eq!(nodes.len(), 2);
}

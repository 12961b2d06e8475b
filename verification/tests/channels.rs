use aivyx_server::channels::manager::{ChannelConfig, MessageHandler, SpecialCommand};
use aivyx_server::channels::session::derive_channel_session_id;
use aivyx_server::channels::telegram::chunk_message;

fn test_config() -> ChannelConfig {
    ChannelConfig {
        name: "tg-test".to_string(),
        platform: "telegram".to_string(),
        agent: "assistant".to_string(),
        allowed_users: vec!["123456".to_string()],
        enabled: true,
        settings: vec![],
    }
}

#[test]
fn chunk_short_message() {
    let chunks = chunk_message("hello", 100);
    assert_eq!(chunks, vec!["hello"]);
}

#[test]
fn chunk_exact_limit() {
    let msg = "a".repeat(100);
    let chunks = chunk_message(&msg, 100);
    assert_eq!(chunks.len(), 1);
    assert_eq!(chunks[0].len(), 100);
}

#[test]
fn chunk_long_message_at_newline() {
    let msg = format!("{}\n{}", "a".repeat(50), "b".repeat(50));
    let chunks = chunk_message(&msg, 60);
    assert_eq!(chunks.len(), 2);
    assert!(chunks[0].ends_with('\n'));
    assert!(chunks[1].starts_with('b'));
}

#[test]
fn chunk_long_message_no_newline() {
    let msg = "a".repeat(250);
    let chunks = chunk_message(&msg, 100);
    assert_eq!(chunks.len(), 3);
    assert_eq!(chunks[0].len(), 100);
    assert_eq!(chunks[1].len(), 100);
    assert_eq!(chunks[2].len(), 50);
}

#[test]
fn special_command_new() {
    let handler = MessageHandler::new(test_config());
    match handler.handle_special_command("/new", "user1") {
        SpecialCommand::Handled(msg) => assert!(msg.contains("cleared")),
        SpecialCommand::NotSpecial => panic!("should handle /new"),
    }
}

#[test]
fn special_command_reset() {
    let handler = MessageHandler::new(test_config());
    match handler.handle_special_command("/reset", "user1") {
        SpecialCommand::Handled(msg) => assert!(msg.contains("cleared")),
        SpecialCommand::NotSpecial => panic!("should handle /reset"),
    }
}

#[test]
fn special_command_status() {
    let handler = MessageHandler::new(test_config());
    match handler.handle_special_command("/status", "user1") {
        SpecialCommand::Handled(msg) => {
            assert!(msg.contains("tg-test"));
            assert!(msg.contains("assistant"));
        }
        SpecialCommand::NotSpecial => panic!("should handle /status"),
    }
}

#[test]
fn special_command_help() {
    let handler = MessageHandler::new(test_config());
    match handler.handle_special_command("/help", "user1") {
        SpecialCommand::Handled(msg) => assert!(msg.contains("/new")),
        SpecialCommand::NotSpecial => panic!("should handle /help"),
    }
}

#[test]
fn special_command_not_special() {
    let handler = MessageHandler::new(test_config());
    match handler.handle_special_command("Hello world", "user1") {
        SpecialCommand::Handled(_) => panic!("regular message should not be special"),
        SpecialCommand::NotSpecial => {}
    }
}

#[test]
fn allowed_users_empty_denies_all() {
    let mut config = test_config();
    config.allowed_users = vec![];
    let handler = MessageHandler::new(config);
    assert!(!handler.is_user_allowed("anyone"));
}

#[test]
fn allowed_users_list_filters() {
    let mut config = test_config();
    config.allowed_users = vec!["123".into(), "456".into()];
    let handler = MessageHandler::new(config);
    assert!(handler.is_user_allowed("123"));
    assert!(handler.is_user_allowed("456"));
    assert!(!handler.is_user_allowed("789"));
}

#[test]
fn deterministic_same_input() {
    let a = derive_channel_session_id("telegram", "123456");
    let b = derive_channel_session_id("telegram", "123456");
    assert_eq!(a, b);
}

#[test]
fn different_platform_different_id() {
    let tg = derive_channel_session_id("telegram", "123456");
    let em = derive_channel_session_id("email", "123456");
    assert_ne!(tg, em);
}

#[test]
fn different_user_different_id() {
    let a = derive_channel_session_id("telegram", "111");
    let b = derive_channel_session_id("telegram", "222");
    assert_ne!(a, b);
}

#[test]
fn id_has_valid_uuid_format() {
    let id = derive_channel_session_id("telegram", "test");
    let s = id.as_str().to_string();
    assert_eq!(s.len(), 36);
    assert!(uuid::Uuid::parse_str(&s).is_ok());
}

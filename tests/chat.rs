use term_dashboard::chat_config::{Config, ConfigError};
use term_dashboard::chat_types::{Chat, ChatId, ChatPattern, ChatPlatform, ChatType, SourceInfo, UserId};
use term_dashboard::filter_parser::{
    chat_type_from_lowered, parse_chat_pattern, parse_chat_type, parse_source_filter, FilterError,
};
use term_dashboard::mcp::{self, ChatInfo};

fn chat(id: &str, title: Option<&str>) -> Chat {
    Chat {
        id: ChatId::new(id),
        title: title.map(|t| t.to_string()),
        chat_type: ChatType::Group,
        participant_count: Some(3),
    }
}

#[test]
fn test_parse_source_filter_with_name() {
    let (source, pattern) = parse_source_filter("telegram:Antti").unwrap();
    assert_eq!(source.as_deref(), Some("telegram"));
    assert_eq!(pattern, ChatPattern::Name("Antti".to_string()));
}

#[test]
fn test_parse_source_filter_with_id() {
    let (source, pattern) = parse_source_filter("telegram:123456").unwrap();
    assert_eq!(source.as_deref(), Some("telegram"));
    assert_eq!(pattern, ChatPattern::Id(ChatId::new("123456")));
}

#[test]
fn test_parse_source_filter_with_wildcard_pattern() {
    let (source, pattern) = parse_source_filter("telegram:*").unwrap();
    assert_eq!(source.as_deref(), Some("telegram"));
    assert_eq!(pattern, ChatPattern::All);
}

#[test]
fn test_parse_source_filter_with_wildcard_source() {
    let (source, pattern) = parse_source_filter("*:*").unwrap();
    assert_eq!(source, None);
    assert_eq!(pattern, ChatPattern::All);
}

#[test]
fn test_parse_source_filter_no_colon() {
    let (source, pattern) = parse_source_filter("Antti").unwrap();
    assert_eq!(source, None);
    assert_eq!(pattern, ChatPattern::Name("Antti".to_string()));
}

#[test]
fn parse_source_filter_splits_at_first_colon() {
    let (source, pattern) = parse_source_filter("matrix:room:1").unwrap();
    assert_eq!(source.as_deref(), Some("matrix"));
    assert_eq!(pattern, ChatPattern::Name("room:1".to_string()));
}

#[test]
fn parse_chat_pattern_negative_id_and_empty() {
    assert_eq!(parse_chat_pattern("-100123"), ChatPattern::Id(ChatId::new("-100123")));
    assert_eq!(parse_chat_pattern(""), ChatPattern::Id(ChatId::new("")));
    assert_eq!(parse_chat_pattern("12a"), ChatPattern::Name("12a".to_string()));
}

#[test]
fn test_parse_chat_type() {
    assert!(matches!(parse_chat_type("direct").unwrap(), ChatType::DirectMessage));
    assert!(matches!(parse_chat_type("dm").unwrap(), ChatType::DirectMessage));
    assert!(matches!(parse_chat_type("group").unwrap(), ChatType::Group));
    assert!(matches!(parse_chat_type("channel").unwrap(), ChatType::Channel));
    assert!(parse_chat_type("invalid").is_err());
}

#[test]
fn parse_chat_type_ignores_case() {
    assert_eq!(parse_chat_type("GROUP"), Ok(ChatType::Group));
    assert_eq!(parse_chat_type("Dm"), Ok(ChatType::DirectMessage));
    assert_eq!(parse_chat_type("chan"), Err(FilterError::InvalidChatType));
}

#[test]
fn chat_pattern_matching() {
    let work = chat("1", Some("Work Team"));
    let untitled = chat("2", None);
    assert!(ChatPattern::Name("work".to_string()).matches(&work));
    assert!(ChatPattern::Name("TEAM".to_string()).matches(&work));
    assert!(!ChatPattern::Name("home".to_string()).matches(&work));
    assert!(!ChatPattern::Name("work".to_string()).matches(&untitled));
    assert!(ChatPattern::Id(ChatId::new("1")).matches(&work));
    assert!(!ChatPattern::Id(ChatId::new("1")).matches(&untitled));
    assert!(ChatPattern::All.matches(&untitled));
    let many = ChatPattern::Multiple(vec![ChatId::new("5"), ChatId::new("2")]);
    assert!(many.matches(&untitled));
    assert!(!many.matches(&work));
}

#[test]
fn identifiers_keep_text() {
    assert_eq!(ChatId::new("abc").as_str(), "abc");
    assert_eq!(UserId::new("u1").as_str(), "u1");
    assert_eq!(ChatId::new("x"), ChatId::new("x"));
    assert_ne!(UserId::new("x"), UserId::new("y"));
    assert_eq!(ChatPlatform::WhatsApp.name(), "WhatsApp");
}

#[test]
fn config_set_and_get() {
    let mut c = Config::default();
    assert_eq!(c.get("api_id"), None);
    assert_eq!(c.set("api_id", "-42"), Ok(()));
    assert_eq!(c.get("api_id").as_deref(), Some("-42"));
    assert_eq!(c.set("api_id", "+7"), Ok(()));
    assert_eq!(c.api_id, Some(7));
    assert_eq!(c.set("api_id", "2147483648"), Err(ConfigError::InvalidApiId));
    assert_eq!(c.set("api_id", "12x"), Err(ConfigError::InvalidApiId));
    assert_eq!(c.api_id, Some(7));
    assert_eq!(c.set("api_id", "-2147483648"), Ok(()));
    assert_eq!(c.get("api_id").as_deref(), Some("-2147483648"));
    assert_eq!(c.set("phone", "+358"), Ok(()));
    assert_eq!(c.get("phone").as_deref(), Some("+358"));
    assert_eq!(c.set("colour", "red"), Err(ConfigError::UnknownKey));
    assert_eq!(c.get("colour"), None);
}

#[test]
fn config_files_sit_in_directory() {
    assert_eq!(Config::config_file("/home/u/.config/chat/telegram"), "/home/u/.config/chat/telegram/config.toml");
    assert_eq!(Config::session_file("/tmp/t"), "/tmp/t/session.dat");
}

#[test]
fn tool_reports_of_sources_and_chats() {
    let info = mcp::SourceInfo::from_source(SourceInfo {
        id: "telegram".to_string(),
        name: "Telegram".to_string(),
        is_connected: true,
    });
    assert_eq!(info.id, "telegram");
    assert!(info.is_connected);
    let c = Chat {
        id: ChatId::new("9"),
        title: Some("News".to_string()),
        chat_type: ChatType::Channel,
        participant_count: None,
    };
    let report = ChatInfo::from_chat(&c);
    assert_eq!(report.id, "9");
    assert_eq!(report.title.as_deref(), Some("News"));
    assert_eq!(report.chat_type, "channel");
}

#[test]
fn chats_as_csv_and_compact() {
    use_formatters();
}

fn use_formatters() {
    let chats = vec![chat("1", Some("Work Team")), chat("2", None)];
    assert_eq!(
        term_dashboard::formatters::format_chats_csv(&chats),
        "id,title,type,participant_count\n1,Work Team,group,3\n2,,group,3\n"
    );
    assert_eq!(term_dashboard::formatters::format_chats_compact(&chats), "1 | Work Team\n2 | Untitled");
    assert_eq!(term_dashboard::formatters::format_chats_compact(&[]), "");
    let listing = term_dashboard::formatters::format_chats_text(&chats);
    assert!(listing.contains("Available Chats:"));
    assert!(listing.contains("Work Team"));
    assert!(listing.contains("Untitled"));
    assert!(listing.contains("participants"));
    let segs = term_dashboard::formatters::chat_listing_segments(&chats[..1]);
    let plain: String = segs.iter().map(|s| s.text.as_str()).collect();
    assert_eq!(plain, "Available Chats:\n\n  [Group] Work Team (1)\n    3 participants\n");
}

#[test]
fn chat_type_from_lowered_names() {
    assert_eq!(chat_type_from_lowered("dm"), Ok(ChatType::DirectMessage));
    assert_eq!(chat_type_from_lowered("channel"), Ok(ChatType::Channel));
    assert_eq!(chat_type_from_lowered("Group"), Err(FilterError::InvalidChatType));
}

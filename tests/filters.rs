use term_dashboard::chat_types::{Chat, ChatId, ChatPattern, ChatType, ContentType, User, UserId};
use term_dashboard::filter_parser::{
    parse_relative_time, parse_time, parse_time_at, parse_time_spec, parse_time_spec_at, RelativeTime,
    TimeError, TimeSpecError, TimeUnit,
};
use term_dashboard::mcp::{build_message_filter, build_message_filter_at, RequestError};
use term_dashboard::messages::{
    ChatFilter, Message, MessageContent, MessageFilter, MessageFilterError, MessageId, UtcTime,
};

const NANOS: i128 = 1_000_000_000;

fn at(secs: i128) -> UtcTime {
    UtcTime { unix_nanos: secs * NANOS }
}

fn message(text: &str, sender: &str, secs: i128) -> Message {
    Message {
        id: MessageId::new("m1"),
        chat_id: ChatId::new("10"),
        sender: User {
            id: UserId::new("u"),
            username: None,
            display_name: Some(sender.to_string()),
            phone_number: None,
        },
        content: MessageContent::Text(text.to_string()),
        timestamp: at(secs),
        reply_to: None,
        edited: false,
    }
}

#[test]
fn test_parse_relative_time_days() {
    assert_eq!(parse_relative_time("7d"), Some(RelativeTime { amount: 7, unit: TimeUnit::Days }));
}

#[test]
fn test_parse_relative_time_hours() {
    assert_eq!(parse_relative_time("2h"), Some(RelativeTime { amount: 2, unit: TimeUnit::Hours }));
}

#[test]
fn test_parse_relative_time_minutes() {
    assert_eq!(parse_relative_time("30m"), Some(RelativeTime { amount: 30, unit: TimeUnit::Minutes }));
}

#[test]
fn test_parse_relative_time_seconds() {
    assert_eq!(parse_relative_time("60s"), Some(RelativeTime { amount: 60, unit: TimeUnit::Seconds }));
}

#[test]
fn test_parse_relative_time_weeks() {
    assert_eq!(parse_relative_time("1w"), Some(RelativeTime { amount: 1, unit: TimeUnit::Weeks }));
}

#[test]
fn parse_relative_time_rejects() {
    assert_eq!(parse_relative_time(""), None);
    assert_eq!(parse_relative_time("d"), None);
    assert_eq!(parse_relative_time("7x"), None);
    assert_eq!(parse_relative_time("5é"), None);
    assert_eq!(parse_relative_time(" -3h "), Some(RelativeTime { amount: -3, unit: TimeUnit::Hours }));
}

#[test]
fn test_parse_time_spec_relative() {
    let now = at(1_700_000_000);
    let t = parse_time_spec_at("7d", now).unwrap();
    assert_eq!(t, at(1_700_000_000 - 7 * 86400));
    let live = parse_time_spec("1h").unwrap();
    assert!(live.unix_nanos > at(1_600_000_000).unix_nanos);
}

#[test]
fn test_parse_time_spec_date_only() {
    let t = parse_time_spec("2025-01-15").unwrap();
    assert_eq!(t, at(1_736_899_200));
}

#[test]
fn test_parse_time_spec_iso_datetime() {
    let t = parse_time_spec("2025-01-15T14:30:00Z").unwrap();
    assert_eq!(t, at(1_736_951_400));
}

#[test]
fn test_parse_time_spec_invalid() {
    assert_eq!(parse_time_spec("invalid"), Err(TimeSpecError::Invalid));
}

#[test]
fn message_filter_matching() {
    let m = message("Meeting tomorrow", "Alice", 1000);
    let mut f = MessageFilter::new();
    assert!(f.matches(&m));
    f.search = Some("MEETING".to_string());
    assert!(f.matches(&m));
    f.sender = Some("ali".to_string());
    assert!(f.matches(&m));
    f.sender = Some("bob".to_string());
    assert!(!f.matches(&m));
    f.sender = None;
    f.since = Some(at(1000));
    f.before = Some(at(1001));
    assert!(f.matches(&m));
    f.before = Some(at(1000));
    assert!(!f.matches(&m));
    f.before = None;
    f.content_type = Some(vec![ContentType::Image]);
    assert!(!f.matches(&m));
    f.content_type = Some(vec![ContentType::Image, ContentType::Text]);
    assert!(f.matches(&m));
}

#[test]
fn message_filter_searches_captions_only() {
    let mut m = message("x", "A", 0);
    m.content = MessageContent::Image { caption: Some("Holiday".to_string()), url: None };
    let mut f = MessageFilter::new();
    f.search = Some("holi".to_string());
    assert!(f.matches(&m));
    m.content = MessageContent::Location { latitude_micro: 60_170_000, longitude_micro: 24_940_000 };
    assert!(!f.matches(&m));
    assert!(ContentType::Location.matches(&m.content));
    assert!(!ContentType::Location.matches(&MessageContent::Unknown));
}

#[test]
fn message_filter_validation() {
    let mut f = MessageFilter::for_chat_id(ChatId::new("1"));
    assert_eq!(f.chat, ChatPattern::Id(ChatId::new("1")));
    assert_eq!(f.limit, Some(100));
    assert_eq!(f.validate(), Ok(()));
    f.since = Some(at(5));
    f.before = Some(at(5));
    assert_eq!(f.validate(), Err(MessageFilterError::EmptyTimeRange));
    f.before = Some(at(6));
    f.limit = Some(0);
    assert_eq!(f.validate(), Err(MessageFilterError::ZeroLimit));
    assert_eq!(MessageFilter::for_chat_name("Work".to_string()).chat, ChatPattern::Name("Work".to_string()));
}

#[test]
fn chat_filter_matching() {
    let work = Chat { id: ChatId::new("1"), title: Some("Work Team".to_string()), chat_type: ChatType::Group, participant_count: None };
    let news = Chat { id: ChatId::new("2"), title: None, chat_type: ChatType::Channel, participant_count: None };
    assert!(ChatFilter::new().matches(&news));
    let groups = ChatFilter::new().with_type(ChatType::Group);
    assert!(groups.matches(&work));
    assert!(!groups.matches(&news));
    let named = ChatFilter::new().with_name("work".to_string());
    assert!(named.matches(&work));
    assert!(!named.matches(&news));
    let both = ChatFilter::new().with_type(ChatType::Channel).with_name("work".to_string());
    assert!(!both.matches(&work));
}

#[test]
fn test_build_chat_filter_empty() {
    let req = term_dashboard::mcp::ListChatsRequest {
        source: "telegram".to_string(),
        name_pattern: None,
        chat_type: None,
    };
    let filter = term_dashboard::mcp::build_chat_filter(&req).unwrap();
    assert!(filter.is_none());
}

#[test]
fn test_build_chat_filter_with_name() {
    let req = term_dashboard::mcp::ListChatsRequest {
        source: "telegram".to_string(),
        name_pattern: Some("Work".to_string()),
        chat_type: None,
    };
    let filter = term_dashboard::mcp::build_chat_filter(&req).unwrap();
    assert!(filter.is_some());
}

#[test]
fn build_chat_filter_with_type() {
    let req = term_dashboard::mcp::ListChatsRequest {
        source: "telegram".to_string(),
        name_pattern: None,
        chat_type: Some("Group".to_string()),
    };
    let filter = term_dashboard::mcp::build_chat_filter(&req).unwrap().unwrap();
    assert_eq!(filter.chat_type, Some(ChatType::Group));
    let bad = term_dashboard::mcp::ListChatsRequest {
        source: "telegram".to_string(),
        name_pattern: Some("x".to_string()),
        chat_type: Some("forum".to_string()),
    };
    assert!(term_dashboard::mcp::build_chat_filter(&bad).is_err());
}

fn request(chat: &str, since: Option<&str>, before: Option<&str>, limit: Option<usize>) -> term_dashboard::mcp::GetMessagesRequest {
    term_dashboard::mcp::GetMessagesRequest {
        source: None,
        chat: chat.to_string(),
        since: since.map(|s| s.to_string()),
        before: before.map(|s| s.to_string()),
        sender: Some("alice".to_string()),
        search: None,
        limit,
    }
}

#[test]
fn build_message_filter_from_request() {
    use_request_builder();
}

fn use_request_builder() {
    let now = at(1_000_000);
    let f = build_message_filter_at(&request("telegram:Work", Some("1h"), None, Some(5)), now).unwrap();
    assert_eq!(f.chat, ChatPattern::Name("Work".to_string()));
    assert_eq!(f.since, Some(at(1_000_000 - 3600)));
    assert_eq!(f.sender.as_deref(), Some("alice"));
    assert_eq!(f.limit, Some(5));
    assert_eq!(
        build_message_filter_at(&request("*:*", Some("soon"), None, None), now).unwrap_err(),
        RequestError::InvalidSince
    );
    assert_eq!(
        build_message_filter_at(&request("*:*", None, Some("later"), None), now).unwrap_err(),
        RequestError::InvalidBefore
    );
    assert_eq!(
        build_message_filter_at(&request("*:*", Some("1h"), Some("2h"), None), now).unwrap_err(),
        RequestError::InvalidFilter(MessageFilterError::EmptyTimeRange)
    );
    assert_eq!(
        build_message_filter_at(&request("42", None, None, Some(0)), now).unwrap_err(),
        RequestError::InvalidFilter(MessageFilterError::ZeroLimit)
    );
    let live = build_message_filter(&request("42", Some("2025-01-15"), None, None)).unwrap();
    assert_eq!(live.chat, ChatPattern::Id(ChatId::new("42")));
    assert_eq!(live.since, Some(at(1_736_899_200)));
}

#[test]
fn gathered_messages_newest_first() {
    let msgs = vec![message("a", "A", 5), message("b", "B", 9), message("c", "C", 1), message("d", "D", 7)];
    let top = term_dashboard::messages::newest_first(msgs.clone(), Some(3));
    let times: Vec<i128> = top.iter().map(|m| m.timestamp.unix_nanos / NANOS).collect();
    assert_eq!(times, vec![9, 7, 5]);
    let all = term_dashboard::messages::newest_first(msgs, None);
    assert_eq!(all.len(), 4);
    assert_eq!(all[3].timestamp, at(1));
    assert!(term_dashboard::messages::newest_first(Vec::new(), Some(2)).is_empty());
}

#[test]
fn telegram_times() {
    use_telegram_times();
}

fn use_telegram_times() {
    let now = at(1_000_000_000);
    assert_eq!(parse_time_at("2days", now), Ok(at(1_000_000_000 - 2 * 86400)));
    assert_eq!(parse_time_at("1h 30m", now), Ok(at(1_000_000_000 - 5400)));
    assert_eq!(parse_time_at("2025-01-01T00:00:00Z", now), Ok(at(1_735_689_600)));
    assert_eq!(parse_time_at("soon", now), Err(TimeError::Invalid));
    assert_eq!(parse_time_at("1000000000years", now), Err(TimeError::DurationTooLarge));
    assert!(parse_time("5min").is_ok());
    assert_eq!(parse_time_at("18446744073709551615s 1000000000ns", now), Err(TimeError::TooManyDigits));
    assert_eq!(parse_time_at("99999999999s", now), Ok(at(1_000_000_000 - 99_999_999_999)));
    assert_eq!(parse_time_at("1.5h", now), Ok(at(1_000_000_000 - 5400)));
}

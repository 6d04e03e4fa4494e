use vstd::prelude::*;
use vstd::multiset::Multiset;
use crate::chat_types::{
    contains_ignoring_case, holds_ignoring_case, Chat, ChatId, ChatPattern, ChatType, ContentType,
    User,
};
use crate::text::str_eq;

verus! {

/// A point in time, as nanoseconds since 1970-01-01 00:00:00 UTC.
#[derive(Debug, Clone, Copy, PartialEq, Eq, Structural)]
pub struct UtcTime {
    pub unix_nanos: i128,
}

/// Identifier of a message.
#[derive(Debug, Clone, Hash)]
pub struct MessageId(String);

impl View for MessageId {
    type V = Seq<char>;

    closed spec fn view(&self) -> Seq<char> {
        self.0@
    }
}

impl MessageId {
    /// An identifier holding `id`.
    pub fn new(id: &str) -> (r: Self)
        ensures
            r@ == id@,
    {
        MessageId(id.to_owned())
    }

    /// The identifier's text.
    pub fn as_str(&self) -> (r: &str)
        ensures
            r@ == self@,
    {
        self.0.as_str()
    }
}

impl PartialEq for MessageId {
    fn eq(&self, other: &MessageId) -> (r: bool) {
        str_eq(self.0.as_str(), other.0.as_str())
    }
}

impl Eq for MessageId {
}

impl vstd::std_specs::cmp::PartialEqSpecImpl for MessageId {
    open spec fn obeys_eq_spec() -> bool {
        true
    }

    open spec fn eq_spec(&self, other: &MessageId) -> bool {
        self@ == other@
    }
}

/// What a message carries. A location is held in millionths of a degree.
#[derive(Debug, Clone)]
pub enum MessageContent {
    Text(String),
    Image { caption: Option<String>, url: Option<String> },
    Video { caption: Option<String>, url: Option<String> },
    Audio { url: Option<String> },
    File { filename: Option<String>, url: Option<String> },
    Sticker,
    Location { latitude_micro: i64, longitude_micro: i64 },
    Contact { name: String, phone: Option<String> },
    Unknown,
}

/// A message in a chat.
#[derive(Debug, Clone)]
pub struct Message {
    pub id: MessageId,
    pub chat_id: ChatId,
    pub sender: User,
    pub content: MessageContent,
    pub timestamp: UtcTime,
    pub reply_to: Option<MessageId>,
    pub edited: bool,
}

/// The content type of a message's content, if it has one.
pub open spec fn content_kind(c: MessageContent) -> Option<ContentType> {
    match c {
        MessageContent::Text(_) => Some(ContentType::Text),
        MessageContent::Image { .. } => Some(ContentType::Image),
        MessageContent::Video { .. } => Some(ContentType::Video),
        MessageContent::Audio { .. } => Some(ContentType::Audio),
        MessageContent::File { .. } => Some(ContentType::File),
        MessageContent::Sticker => Some(ContentType::Sticker),
        MessageContent::Location { .. } => Some(ContentType::Location),
        MessageContent::Contact { .. } => Some(ContentType::Contact),
        MessageContent::Unknown => None,
    }
}

impl ContentType {
    /// Whether `content` is of this type.
    pub fn matches(&self, content: &MessageContent) -> (r: bool)
        ensures
            r == (content_kind(*content) == Some(*self)),
    {
        match (self, content) {
            (ContentType::Text, MessageContent::Text(_)) => true,
            (ContentType::Image, MessageContent::Image { .. }) => true,
            (ContentType::Video, MessageContent::Video { .. }) => true,
            (ContentType::Audio, MessageContent::Audio { .. }) => true,
            (ContentType::File, MessageContent::File { .. }) => true,
            (ContentType::Sticker, MessageContent::Sticker) => true,
            (ContentType::Location, MessageContent::Location { .. }) => true,
            (ContentType::Contact, MessageContent::Contact { .. }) => true,
            _ => false,
        }
    }
}

/// Why a message filter is refused.
#[derive(Debug, Clone, Copy, PartialEq, Eq, Structural)]
pub enum MessageFilterError {
    /// The start of the time range is not before its end.
    EmptyTimeRange,
    /// The limit is zero.
    ZeroLimit,
}

/// A query for messages.
#[derive(Debug, Clone)]
pub struct MessageFilter {
    /// Chat identifier or name pattern
    pub chat: ChatPattern,
    /// Only messages at or after this time
    pub since: Option<UtcTime>,
    /// Only messages before this time
    pub before: Option<UtcTime>,
    /// Sender name pattern, ignoring case
    pub sender: Option<String>,
    /// Text to search for, ignoring case
    pub search: Option<String>,
    /// Most messages to return
    pub limit: Option<usize>,
    /// Content types to keep
    pub content_type: Option<Vec<ContentType>>,
}

/// The number of messages a filter returns when none is given.
pub const DEFAULT_MESSAGE_LIMIT: usize = 100;

/// Whether an optional name holds `pattern`, ignoring case.
pub open spec fn name_holds(name: Option<String>, pattern: Seq<char>) -> bool {
    match name {
        Some(n) => holds_ignoring_case(n@, pattern),
        None => false,
    }
}

/// Whether the searchable text of `c` holds `term`, ignoring case: the text
/// of a text message, or the caption of an image or a video.
pub open spec fn content_holds(c: MessageContent, term: Seq<char>) -> bool {
    match c {
        MessageContent::Text(t) => holds_ignoring_case(t@, term),
        MessageContent::Image { caption: Some(t), .. } => holds_ignoring_case(t@, term),
        MessageContent::Video { caption: Some(t), .. } => holds_ignoring_case(t@, term),
        _ => false,
    }
}

/// Whether a filter keeps a message: its time is in range, its sender and
/// text hold the patterns, and its content is of a listed type. The chat
/// pattern is left to the source that fetches the messages.
pub open spec fn message_selected(f: MessageFilter, m: Message) -> bool {
    &&& (f.since matches Some(s) ==> m.timestamp.unix_nanos >= s.unix_nanos)
    &&& (f.before matches Some(b) ==> m.timestamp.unix_nanos < b.unix_nanos)
    &&& (f.sender matches Some(p) ==> name_holds(m.sender.display_name, p@) || name_holds(
        m.sender.username,
        p@,
    ))
    &&& (f.search matches Some(q) ==> content_holds(m.content, q@))
    &&& (f.content_type matches Some(ts) ==> exists|i: int|
        0 <= i < ts@.len() && content_kind(m.content) == Some(#[trigger] ts@[i]))
}

/// Whether an optional name holds `pattern`, ignoring case.
fn optional_name_holds(name: &Option<String>, pattern: &str) -> (r: bool)
    ensures
        r == name_holds(*name, pattern@),
{
    match name {
        Some(n) => contains_ignoring_case(n.as_str(), pattern),
        None => false,
    }
}

/// Whether some listed type matches `content`.
fn any_type_matches(types: &Vec<ContentType>, content: &MessageContent) -> (r: bool)
    ensures
        r == exists|i: int| 0 <= i < types@.len() && content_kind(*content) == Some(#[trigger] types@[i]),
{
    let mut i: usize = 0;
    while i < types.len()
        invariant
            i <= types@.len(),
            forall|j: int| 0 <= j < i ==> content_kind(*content) != Some(#[trigger] types@[j]),
        decreases types@.len() - i,
    {
        if types[i].matches(content) {
            return true;
        }
        i += 1;
    }
    false
}

impl Default for MessageFilter {
    fn default() -> (r: Self)
        ensures
            r.chat is All,
            r.since is None,
            r.before is None,
            r.sender is None,
            r.search is None,
            r.limit == Some(DEFAULT_MESSAGE_LIMIT),
            r.content_type is None,
    {
        MessageFilter {
            chat: ChatPattern::All,
            since: None,
            before: None,
            sender: None,
            search: None,
            limit: Some(DEFAULT_MESSAGE_LIMIT),
            content_type: None,
        }
    }
}

impl MessageFilter {
    /// A filter over all chats with the default limit.
    pub fn new() -> (r: Self)
        ensures
            r.chat is All,
            r.since is None && r.before is None,
            r.sender is None && r.search is None,
            r.limit == Some(DEFAULT_MESSAGE_LIMIT),
            r.content_type is None,
    {
        MessageFilter::default()
    }

    /// A filter for the chat with identifier `chat_id`.
    pub fn for_chat_id(chat_id: ChatId) -> (r: Self)
        ensures
            r.chat == ChatPattern::Id(chat_id),
            r.since is None && r.before is None,
            r.sender is None && r.search is None,
            r.limit == Some(DEFAULT_MESSAGE_LIMIT),
            r.content_type is None,
    {
        MessageFilter { chat: ChatPattern::Id(chat_id), ..MessageFilter::default() }
    }

    /// A filter for the chats whose title holds `name`.
    pub fn for_chat_name(name: String) -> (r: Self)
        ensures
            r.chat == ChatPattern::Name(name),
            r.since is None && r.before is None,
            r.sender is None && r.search is None,
            r.limit == Some(DEFAULT_MESSAGE_LIMIT),
            r.content_type is None,
    {
        MessageFilter { chat: ChatPattern::Name(name), ..MessageFilter::default() }
    }

    /// Refuses a time range whose start is not before its end, and a zero limit.
    pub fn validate(&self) -> (r: Result<(), MessageFilterError>)
        ensures
            r == if (self.since matches Some(s) && self.before matches Some(b) && s.unix_nanos
                >= b.unix_nanos) {
                Err(MessageFilterError::EmptyTimeRange)
            } else if self.limit == Some(0usize) {
                Err(MessageFilterError::ZeroLimit)
            } else {
                Ok(())
            },
    {
        if let (Some(since), Some(before)) = (&self.since, &self.before) {
            if since.unix_nanos >= before.unix_nanos {
                return Err(MessageFilterError::EmptyTimeRange);
            }
        }
        if let Some(limit) = self.limit {
            if limit == 0 {
                return Err(MessageFilterError::ZeroLimit);
            }
        }
        Ok(())
    }

    /// Whether this filter keeps `message`.
    pub fn matches(&self, message: &Message) -> (r: bool)
        ensures
            r == message_selected(*self, *message),
    {
        if let Some(since) = &self.since {
            if message.timestamp.unix_nanos < since.unix_nanos {
                return false;
            }
        }
        if let Some(before) = &self.before {
            if message.timestamp.unix_nanos >= before.unix_nanos {
                return false;
            }
        }
        if let Some(pattern) = &self.sender {
            let hit = optional_name_holds(&message.sender.display_name, pattern.as_str())
                || optional_name_holds(&message.sender.username, pattern.as_str());
            if !hit {
                return false;
            }
        }
        if let Some(term) = &self.search {
            let hit = match &message.content {
                MessageContent::Text(text) => contains_ignoring_case(text.as_str(), term.as_str()),
                MessageContent::Image { caption: Some(caption), .. } => contains_ignoring_case(
                    caption.as_str(),
                    term.as_str(),
                ),
                MessageContent::Video { caption: Some(caption), .. } => contains_ignoring_case(
                    caption.as_str(),
                    term.as_str(),
                ),
                _ => false,
            };
            if !hit {
                return false;
            }
        }
        if let Some(types) = &self.content_type {
            if !any_type_matches(types, &message.content) {
                return false;
            }
        }
        true
    }
}

/// A query for chats.
#[derive(Debug, Clone)]
pub struct ChatFilter {
    /// Only chats of this type
    pub chat_type: Option<ChatType>,
    /// Only chats whose title holds this text, ignoring case
    pub name_pattern: Option<String>,
    /// Only chats active since this time; the sources check it
    pub active_since: Option<UtcTime>,
}

/// Whether a chat filter keeps a chat: its type is the one asked for, and
/// its title holds the name pattern; a chat without a title has no name.
pub open spec fn chat_selected(f: ChatFilter, c: Chat) -> bool {
    &&& (f.chat_type matches Some(t) ==> c.chat_type == t)
    &&& (f.name_pattern matches Some(p) ==> name_holds(c.title, p@))
}

impl ChatFilter {
    /// A filter that keeps every chat.
    pub fn new() -> (r: Self)
        ensures
            r.chat_type is None,
            r.name_pattern is None,
            r.active_since is None,
    {
        ChatFilter { chat_type: None, name_pattern: None, active_since: None }
    }

    /// This filter, keeping only chats of `chat_type`.
    pub fn with_type(self, chat_type: ChatType) -> (r: Self)
        ensures
            r.chat_type == Some(chat_type),
            r.name_pattern == self.name_pattern,
            r.active_since == self.active_since,
    {
        ChatFilter { chat_type: Some(chat_type), ..self }
    }

    /// This filter, keeping only chats whose title holds `pattern`.
    pub fn with_name(self, pattern: String) -> (r: Self)
        ensures
            r.name_pattern == Some(pattern),
            r.chat_type == self.chat_type,
            r.active_since == self.active_since,
    {
        ChatFilter { name_pattern: Some(pattern), ..self }
    }

    /// Whether this filter keeps `chat`.
    pub fn matches(&self, chat: &Chat) -> (r: bool)
        ensures
            r == chat_selected(*self, *chat),
    {
        if let Some(t) = &self.chat_type {
            if chat.chat_type != *t {
                return false;
            }
        }
        if let Some(pattern) = &self.name_pattern {
            return optional_name_holds(&chat.title, pattern.as_str());
        }
        true
    }
}

impl Default for ChatFilter {
    fn default() -> (r: Self)
        ensures
            r.chat_type is None,
            r.name_pattern is None,
            r.active_since is None,
    {
        ChatFilter::new()
    }
}

/// Whether messages are in order from newest to oldest.
pub open spec fn newest_to_oldest(s: Seq<Message>) -> bool {
    forall|i: int, j: int|
        0 <= i < j < s.len() ==> (#[trigger] s[i]).timestamp.unix_nanos >= (#[trigger] s[j]).timestamp.unix_nanos
}

/// The first `limit` items of `s`, or all of them without a limit.
pub open spec fn limited(s: Seq<Message>, limit: Option<usize>) -> Seq<Message> {
    match limit {
        Some(n) => if n < s.len() {
            s.subrange(0, n as int)
        } else {
            s
        },
        None => s,
    }
}

/// The messages gathered from several sources, newest first, cut to `limit`:
/// the result is the start of an ordering of exactly the given messages.
pub fn newest_first(messages: Vec<Message>, limit: Option<usize>) -> (r: Vec<Message>)
    ensures
        exists|all: Seq<Message>|
            #[trigger] all.to_multiset() == messages@.to_multiset() && newest_to_oldest(all) && r@
                == limited(all, limit),
{
    broadcast use vstd::seq_lib::to_multiset_build, vstd::seq_lib::to_multiset_insert, vstd::seq_lib::to_multiset_len;

    let mut rest = messages;
    let mut sorted: Vec<Message> = Vec::new();
    assert(sorted@.to_multiset().len() == 0);
    assert(sorted@.to_multiset() =~= Multiset::empty());
    assert(rest@.to_multiset().add(sorted@.to_multiset()) =~= messages@.to_multiset());
    while rest.len() > 0
        invariant
            newest_to_oldest(sorted@),
            rest@.to_multiset().add(sorted@.to_multiset()) == messages@.to_multiset(),
        decreases rest@.len(),
    {
        let ghost before_rest = rest@;
        let m = rest.pop().unwrap();
        assert(before_rest =~= rest@.push(m));
        let mut p: usize = 0;
        while p < sorted.len() && sorted[p].timestamp.unix_nanos >= m.timestamp.unix_nanos
            invariant
                p <= sorted@.len(),
                forall|k: int| 0 <= k < p ==> (#[trigger] sorted@[k]).timestamp.unix_nanos >= m.timestamp.unix_nanos,
            decreases sorted@.len() - p,
        {
            p += 1;
        }
        let ghost before = sorted@;
        sorted.insert(p, m);
        assert(sorted@ =~= before.insert(p as int, m));
        proof {
            vstd::seq_lib::to_multiset_build(rest@, m);
            vstd::seq_lib::to_multiset_insert(before, p as int, m);
        }
        assert(before_rest.to_multiset() == rest@.to_multiset().insert(m));
        assert(sorted@.to_multiset() == before.to_multiset().insert(m));
        assert(rest@.to_multiset().add(sorted@.to_multiset()) =~= before_rest.to_multiset().add(before.to_multiset()));
        assert forall|i: int, j: int| 0 <= i < j < sorted@.len() implies (#[trigger] sorted@[i]).timestamp.unix_nanos
            >= (#[trigger] sorted@[j]).timestamp.unix_nanos by {
            if j < p {
                assert(sorted@[i] == before[i] && sorted@[j] == before[j]);
            } else if j == p {
                assert(sorted@[i] == before[i]);
            } else if i < p {
                assert(sorted@[i] == before[i] && sorted@[j] == before[j - 1]);
            } else if i == p {
                assert(sorted@[j] == before[j - 1]);
                assert(before[p as int].timestamp.unix_nanos < m.timestamp.unix_nanos);
                if j - 1 > p {
                    assert(before[p as int].timestamp.unix_nanos >= before[j - 1].timestamp.unix_nanos);
                }
            } else {
                assert(sorted@[i] == before[i - 1] && sorted@[j] == before[j - 1]);
            }
        }
    }
    assert(rest@.to_multiset().len() == 0);
    assert(rest@.to_multiset() =~= Multiset::empty());
    assert(sorted@.to_multiset() =~= messages@.to_multiset());
    let ghost all = sorted@;
    match limit {
        Some(n) => {
            if n < sorted.len() {
                sorted.truncate(n);
            }
        },
        None => {},
    }
    assert(sorted@ =~= limited(all, limit));
    sorted
}

} // verus!

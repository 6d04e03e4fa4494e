use vstd::prelude::*;
use crate::text::{lowercase, lower_of, chars_of, contains_chars, contains_seq, str_eq};

verus! {

/// Supported chat platforms.
#[derive(Debug, Clone, Copy, PartialEq, Eq, Structural)]
pub enum ChatPlatform {
    Telegram,
    WhatsApp,
    Signal,
    Matrix,
}

/// The display name of a platform.
pub open spec fn platform_name(p: ChatPlatform) -> Seq<char> {
    match p {
        ChatPlatform::Telegram => "Telegram"@,
        ChatPlatform::WhatsApp => "WhatsApp"@,
        ChatPlatform::Signal => "Signal"@,
        ChatPlatform::Matrix => "Matrix"@,
    }
}

impl ChatPlatform {
    /// The display name of the platform.
    pub fn name(&self) -> (r: &'static str)
        ensures
            r@ == platform_name(*self),
    {
        match self {
            ChatPlatform::Telegram => "Telegram",
            ChatPlatform::WhatsApp => "WhatsApp",
            ChatPlatform::Signal => "Signal",
            ChatPlatform::Matrix => "Matrix",
        }
    }
}

/// Connection status of a chat client.
#[derive(Debug, Clone, PartialEq, Eq)]
pub enum ChatClientStatus {
    Disconnected,
    Connecting,
    Connected,
    Syncing,
    Error(String),
}

/// Identifier of a chat or conversation.
#[derive(Debug, Clone, Hash)]
pub struct ChatId(String);

impl View for ChatId {
    type V = Seq<char>;

    closed spec fn view(&self) -> Seq<char> {
        self.0@
    }
}

impl ChatId {
    /// An identifier holding `id`.
    pub fn new(id: &str) -> (r: Self)
        ensures
            r@ == id@,
    {
        ChatId(id.to_owned())
    }

    /// The identifier's text.
    pub fn as_str(&self) -> (r: &str)
        ensures
            r@ == self@,
    {
        self.0.as_str()
    }
}

impl PartialEq for ChatId {
    fn eq(&self, other: &ChatId) -> (r: bool) {
        str_eq(self.0.as_str(), other.0.as_str())
    }
}

impl Eq for ChatId {
}

impl vstd::std_specs::cmp::PartialEqSpecImpl for ChatId {
    open spec fn obeys_eq_spec() -> bool {
        true
    }

    open spec fn eq_spec(&self, other: &ChatId) -> bool {
        self@ == other@
    }
}

/// Identifier of a user.
#[derive(Debug, Clone, Hash)]
pub struct UserId(String);

impl View for UserId {
    type V = Seq<char>;

    closed spec fn view(&self) -> Seq<char> {
        self.0@
    }
}

impl UserId {
    /// An identifier holding `id`.
    pub fn new(id: &str) -> (r: Self)
        ensures
            r@ == id@,
    {
        UserId(id.to_owned())
    }

    /// The identifier's text.
    pub fn as_str(&self) -> (r: &str)
        ensures
            r@ == self@,
    {
        self.0.as_str()
    }
}

impl PartialEq for UserId {
    fn eq(&self, other: &UserId) -> (r: bool) {
        str_eq(self.0.as_str(), other.0.as_str())
    }
}

impl Eq for UserId {
}

impl vstd::std_specs::cmp::PartialEqSpecImpl for UserId {
    open spec fn obeys_eq_spec() -> bool {
        true
    }

    open spec fn eq_spec(&self, other: &UserId) -> bool {
        self@ == other@
    }
}

/// Information about a user.
#[derive(Debug, Clone)]
pub struct User {
    pub id: UserId,
    pub username: Option<String>,
    pub display_name: Option<String>,
    pub phone_number: Option<String>,
}

/// Kind of chat.
#[derive(Debug, Clone, Copy, PartialEq, Eq, Structural)]
pub enum ChatType {
    DirectMessage,
    Group,
    Channel,
    Unknown,
}

/// Information about a chat or conversation.
#[derive(Debug, Clone)]
pub struct Chat {
    pub id: ChatId,
    pub title: Option<String>,
    pub chat_type: ChatType,
    pub participant_count: Option<usize>,
}

/// Kind of message content that a filter asks for.
#[derive(Debug, Clone, Copy, PartialEq, Eq, Structural)]
pub enum ContentType {
    Text,
    Image,
    Video,
    Audio,
    File,
    Sticker,
    Location,
    Contact,
}

/// Information about a chat source.
#[derive(Debug, Clone)]
pub struct SourceInfo {
    /// Unique identifier (telegram, signal, whatsapp)
    pub id: String,
    /// Display name (Telegram, Signal, WhatsApp)
    pub name: String,
    /// Connection status
    pub is_connected: bool,
}

/// Pattern selecting chats.
#[derive(Debug, Clone, PartialEq, Eq)]
pub enum ChatPattern {
    /// One chat, by identifier
    Id(ChatId),
    /// Chats whose title holds this text, ignoring case
    Name(String),
    /// Every chat
    All,
    /// Any of several chats, by identifier
    Multiple(Vec<ChatId>),
}

/// Whether a chat with identifier `id` and title `title` is selected by `p`.
/// A name pattern matches when the lower-cased title contains the
/// lower-cased name; a chat without a title never matches it.
pub open spec fn pattern_matches(p: ChatPattern, id: Seq<char>, title: Option<Seq<char>>) -> bool {
    match p {
        ChatPattern::Id(i) => i@ == id,
        ChatPattern::Name(n) => match title {
            Some(t) => holds_ignoring_case(t, n@),
            None => false,
        },
        ChatPattern::All => true,
        ChatPattern::Multiple(ids) => exists|k: int| 0 <= k < ids@.len() && ids@[k]@ == id,
    }
}

/// The title of a chat as characters.
pub open spec fn title_view(c: &Chat) -> Option<Seq<char>> {
    match c.title {
        Some(t) => Some(t@),
        None => None,
    }
}

impl ChatPattern {
    /// Whether this pattern selects `chat`.
    pub fn matches(&self, chat: &Chat) -> (r: bool)
        ensures
            r == pattern_matches(*self, chat.id@, title_view(chat)),
    {
        match self {
            ChatPattern::Id(id) => chat.id == *id,
            ChatPattern::Name(name) => match &chat.title {
                Some(title) => contains_ignoring_case(title.as_str(), name.as_str()),
                None => false,
            },
            ChatPattern::All => true,
            ChatPattern::Multiple(ids) => contains_id(ids, &chat.id),
        }
    }
}

/// Whether the lower-cased `hay` contains the lower-cased `needle`.
pub open spec fn holds_ignoring_case(hay: Seq<char>, needle: Seq<char>) -> bool {
    contains_seq(lower_of(hay), lower_of(needle))
}

/// Whether `hay` contains `needle`, both lower-cased.
pub fn contains_ignoring_case(hay: &str, needle: &str) -> (r: bool)
    ensures
        r == holds_ignoring_case(hay@, needle@),
{
    let h = chars_of(lowercase(hay).as_str());
    let n = chars_of(lowercase(needle).as_str());
    contains_chars(&h, &n)
}

/// Whether `ids` holds an identifier equal to `id`.
fn contains_id(ids: &Vec<ChatId>, id: &ChatId) -> (r: bool)
    ensures
        r == exists|k: int| 0 <= k < ids@.len() && ids@[k]@ == id@,
{
    let mut k: usize = 0;
    while k < ids.len()
        invariant
            k <= ids@.len(),
            forall|j: int| 0 <= j < k ==> ids@[j]@ != id@,
        decreases ids@.len() - k,
    {
        if ids[k] == *id {
            assert(ids@[k as int]@ == id@);
            return true;
        }
        k += 1;
    }
    false
}

} // verus!

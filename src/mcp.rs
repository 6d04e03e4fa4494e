use vstd::prelude::*;
use crate::chat_types::{Chat, ChatPattern, ChatType};
use crate::filter_parser::{
    current_time,
    chat_type_named, parse_chat_type, parse_source_filter, parse_time_spec_at, parsed_pattern,
    index_of, time_spec_at, FilterError,
};
use crate::messages::{ChatFilter, MessageFilter, MessageFilterError, UtcTime};
use crate::text::{lower_of, opt_view, clone_opt};

verus! {

/// Request of the list_sources tool.
#[derive(Debug)]
pub struct ListSourcesRequest {}

/// Response of the list_sources tool.
#[derive(Debug)]
pub struct ListSourcesResponse {
    pub sources: Vec<SourceInfo>,
}

/// A chat source as the tools report it.
#[derive(Debug)]
pub struct SourceInfo {
    pub id: String,
    pub name: String,
    pub is_connected: bool,
}

/// Request of the list_chats tool.
#[derive(Debug)]
pub struct ListChatsRequest {
    pub source: String,
    pub name_pattern: Option<String>,
    pub chat_type: Option<String>,
}

/// Response of the list_chats tool.
#[derive(Debug)]
pub struct ListChatsResponse {
    pub chats: Vec<ChatInfo>,
}

/// A chat as the tools report it.
#[derive(Debug)]
pub struct ChatInfo {
    pub id: String,
    pub title: Option<String>,
    pub chat_type: String,
    pub participant_count: Option<usize>,
}

/// Request of the get_messages tool.
#[derive(Debug)]
pub struct GetMessagesRequest {
    pub source: Option<String>,
    pub chat: String,
    pub since: Option<String>,
    pub before: Option<String>,
    pub sender: Option<String>,
    pub search: Option<String>,
    pub limit: Option<usize>,
}

/// Response of the get_messages tool.
#[derive(Debug)]
pub struct GetMessagesResponse {
    pub messages: Vec<MessageInfo>,
    pub total: usize,
}

/// A message as the tools report it.
#[derive(Debug)]
pub struct MessageInfo {
    pub id: String,
    pub chat_id: String,
    pub sender: SenderInfo,
    pub content: String,
    pub timestamp: String,
    pub edited: bool,
}

/// The sender of a reported message.
#[derive(Debug)]
pub struct SenderInfo {
    pub id: String,
    pub display_name: Option<String>,
}

/// The name under which the tools report a chat type.
pub open spec fn chat_type_label(t: ChatType) -> Seq<char> {
    match t {
        ChatType::DirectMessage => "direct"@,
        ChatType::Group => "group"@,
        ChatType::Channel => "channel"@,
        ChatType::Unknown => "unknown"@,
    }
}


impl SourceInfo {
    /// The report of a chat source.
    pub fn from_source(info: crate::chat_types::SourceInfo) -> (r: Self)
        ensures
            r.id@ == info.id@,
            r.name@ == info.name@,
            r.is_connected == info.is_connected,
    {
        SourceInfo { id: info.id, name: info.name, is_connected: info.is_connected }
    }
}

impl ChatInfo {
    /// The report of a chat.
    pub fn from_chat(chat: &Chat) -> (r: Self)
        ensures
            r.id@ == chat.id@,
            opt_view(r.title) == opt_view(chat.title),
            r.chat_type@ == chat_type_label(chat.chat_type),
            r.participant_count == chat.participant_count,
    {
        let label = match chat.chat_type {
            ChatType::DirectMessage => "direct",
            ChatType::Group => "group",
            ChatType::Channel => "channel",
            ChatType::Unknown => "unknown",
        };
        ChatInfo {
            id: chat.id.as_str().to_owned(),
            title: clone_opt(&chat.title),
            chat_type: label.to_owned(),
            participant_count: chat.participant_count,
        }
    }
}

/// The chat filter that a list_chats request asks for, if any.
pub fn build_chat_filter(req: &ListChatsRequest) -> (r: Result<Option<ChatFilter>, FilterError>)
    ensures
        (req.chat_type matches Some(t) && chat_type_named(lower_of(t@)) is None) ==> r == Err::<
            Option<ChatFilter>,
            FilterError,
        >(FilterError::InvalidChatType),
        !(req.chat_type matches Some(t) && chat_type_named(lower_of(t@)) is None) ==> {
            &&& req.name_pattern is None && req.chat_type is None ==> (r matches Ok(None))
            &&& !(req.name_pattern is None && req.chat_type is None) ==> (r matches Ok(Some(f)) && {
                &&& opt_view(f.name_pattern) == opt_view(req.name_pattern)
                &&& f.chat_type == match req.chat_type {
                    Some(t) => chat_type_named(lower_of(t@)),
                    None => None,
                }
                &&& f.active_since is None
            })
        },
{
    let mut filter = ChatFilter::new();
    let mut has_filters = false;
    match &req.name_pattern {
        Some(p) => {
            filter = filter.with_name(p.clone());
            has_filters = true;
        },
        None => {},
    }
    match &req.chat_type {
        Some(t) => {
            match parse_chat_type(t.as_str()) {
                Ok(ct) => {
                    filter = filter.with_type(ct);
                    has_filters = true;
                },
                Err(e) => {
                    return Err(e);
                },
            }
        },
        None => {},
    }
    if has_filters {
        Ok(Some(filter))
    } else {
        Ok(None)
    }
}

/// Why a get_messages request does not give a message filter.
#[derive(Debug, Clone, Copy, PartialEq, Eq, Structural)]
pub enum RequestError {
    /// The since time cannot be read.
    InvalidSince,
    /// The before time cannot be read.
    InvalidBefore,
    /// The filter is refused.
    InvalidFilter(MessageFilterError),
}

/// Reads an optional time specification at time `now`.
fn optional_time(spec: &Option<String>, now: UtcTime) -> (r: Result<Option<UtcTime>, ()>)
    requires
        i128::MIN / 2 <= now.unix_nanos <= i128::MAX / 2,
    ensures
        r == match *spec {
            Some(s) => match time_spec_at(s@, now) {
                Some(t) => Ok(Some(t)),
                None => Err(()),
            },
            None => Ok(None::<UtcTime>),
        },
{
    match spec {
        Some(s) => match parse_time_spec_at(s.as_str(), now) {
            Ok(t) => Ok(Some(t)),
            Err(_) => Err(()),
        },
        None => Ok(None),
    }
}

/// The time that a request's optional time specification denotes at `now`.
pub open spec fn requested_time(spec: Option<String>, now: UtcTime) -> Option<Option<UtcTime>> {
    match spec {
        Some(s) => match time_spec_at(s@, now) {
            Some(t) => Some(Some(t)),
            None => None,
        },
        None => Some(None),
    }
}

/// Whether `r` is what a get_messages request gives at time `now`: the chat
/// pattern comes from the request's `source:pattern` text, the times from
/// its since and before, and the rest as given; the filter must then pass
/// validation.
pub open spec fn filter_built(req: GetMessagesRequest, now: UtcTime, r: Result<MessageFilter, RequestError>) -> bool {
    &&& requested_time(req.since, now) is None ==> r == Err::<MessageFilter, RequestError>(RequestError::InvalidSince)
    &&& requested_time(req.since, now) matches Some(since) ==> {
        &&& requested_time(req.before, now) is None ==> r == Err::<MessageFilter, RequestError>(
            RequestError::InvalidBefore,
        )
        &&& requested_time(req.before, now) matches Some(before) ==> {
            &&& (since matches Some(s) && before matches Some(b) && s.unix_nanos >= b.unix_nanos)
                ==> r == Err::<MessageFilter, RequestError>(
                RequestError::InvalidFilter(MessageFilterError::EmptyTimeRange),
            )
            &&& !(since matches Some(s) && before matches Some(b) && s.unix_nanos >= b.unix_nanos)
                && req.limit == Some(0usize) ==> r == Err::<MessageFilter, RequestError>(
                RequestError::InvalidFilter(MessageFilterError::ZeroLimit),
            )
            &&& !(since matches Some(s) && before matches Some(b) && s.unix_nanos >= b.unix_nanos)
                && req.limit != Some(0usize) ==> (r matches Ok(f) && {
                let k = index_of(req.chat@, ':');
                &&& parsed_pattern(
                    f.chat,
                    if k < req.chat@.len() {
                        req.chat@.subrange(k + 1, req.chat@.len() as int)
                    } else {
                        req.chat@
                    },
                )
                &&& f.since == since
                &&& f.before == before
                &&& f.sender == req.sender
                &&& f.search == req.search
                &&& f.limit == req.limit
                &&& f.content_type is None
            })
        }
    }
}

/// The message filter that a get_messages request asks for, with relative
/// times counted back from `now`.
pub fn build_message_filter_at(req: &GetMessagesRequest, now: UtcTime) -> (r: Result<MessageFilter, RequestError>)
    requires
        i128::MIN / 2 <= now.unix_nanos <= i128::MAX / 2,
    ensures
        filter_built(*req, now, r),
{
    let pattern = match parse_source_filter(req.chat.as_str()) {
        Ok((_, p)) => p,
        // every text is accepted as a filter
        Err(_) => ChatPattern::All,
    };
    let since = match optional_time(&req.since, now) {
        Ok(t) => t,
        Err(_) => {
            return Err(RequestError::InvalidSince);
        },
    };
    let before = match optional_time(&req.before, now) {
        Ok(t) => t,
        Err(_) => {
            return Err(RequestError::InvalidBefore);
        },
    };
    let filter = MessageFilter {
        chat: pattern,
        since,
        before,
        sender: req.sender.clone(),
        search: req.search.clone(),
        limit: req.limit,
        content_type: None,
    };
    match filter.validate() {
        Ok(()) => Ok(filter),
        Err(e) => Err(RequestError::InvalidFilter(e)),
    }
}

/// The message filter that a get_messages request asks for, with relative
/// times counted back from the current time.
pub fn build_message_filter(req: &GetMessagesRequest) -> (r: Result<MessageFilter, RequestError>)
    ensures
        exists|now: UtcTime| #[trigger] filter_built(*req, now, r),
{
    let now = current_time();
    build_message_filter_at(req, now)
}

} // verus!

use vstd::prelude::*;
use crate::agent::AgentId;
use crate::filter_parser::current_time;
use crate::ids::fresh_uuid;
use crate::messages::UtcTime;
use crate::text::{chars_of, contains_chars, contains_seq, parse_u64, str_eq, trim_of, trimmed, u64_text_value};

verus! {

/// Tabs of the dashboard window.
#[derive(Debug, Clone, Copy, PartialEq, Eq, Structural)]
pub enum AppTab {
    Home,
    Term,
}

/// Who a chat message goes to or comes from.
#[derive(Debug, Clone, Copy, PartialEq, Eq, Structural)]
pub enum MessageDirection {
    ToAgent,
    FromAgent,
    Broadcast,
}

/// Flags attached to a chat message.
#[derive(Debug, Clone)]
pub struct MessageMetadata {
    pub is_toolcall: bool,
    pub is_error: bool,
    pub error_message: Option<String>,
}

impl Default for MessageMetadata {
    fn default() -> (r: Self)
        ensures
            !r.is_toolcall,
            !r.is_error,
            r.error_message is None,
    {
        MessageMetadata { is_toolcall: false, is_error: false, error_message: None }
    }
}

/// Identifier of a chat message in the dashboard.
#[derive(Debug, Clone, Copy, PartialEq, Eq, Structural, Hash)]
pub struct MessageId(pub u128);

impl MessageId {
    /// A fresh random identifier.
    pub fn new() -> (r: Self) {
        MessageId(fresh_uuid())
    }
}

/// A message of the dashboard's chat with its agents.
#[derive(Debug)]
pub struct ChatMessage {
    pub id: MessageId,
    pub agent_id: Option<AgentId>,
    pub content: String,
    pub timestamp: UtcTime,
    pub direction: MessageDirection,
    pub metadata: MessageMetadata,
}

impl ChatMessage {
    /// A message from the user, to one agent or, without a recipient, to all.
    pub fn new_user_message(content: String, recipient: Option<AgentId>) -> (r: Self)
        ensures
            r.content == content,
            r.agent_id == recipient,
            r.direction == if recipient is Some {
                MessageDirection::ToAgent
            } else {
                MessageDirection::Broadcast
            },
            !r.metadata.is_toolcall && !r.metadata.is_error && r.metadata.error_message is None,
    {
        let direction = if recipient.is_some() {
            MessageDirection::ToAgent
        } else {
            MessageDirection::Broadcast
        };
        ChatMessage {
            id: MessageId::new(),
            agent_id: recipient,
            content,
            timestamp: current_time(),
            direction,
            metadata: MessageMetadata::default(),
        }
    }

    /// A message from an agent.
    pub fn new_agent_message(agent_id: AgentId, content: String) -> (r: Self)
        ensures
            r.content == content,
            r.agent_id == Some(agent_id),
            r.direction == MessageDirection::FromAgent,
            !r.metadata.is_toolcall && !r.metadata.is_error && r.metadata.error_message is None,
    {
        ChatMessage {
            id: MessageId::new(),
            agent_id: Some(agent_id),
            content,
            timestamp: current_time(),
            direction: MessageDirection::FromAgent,
            metadata: MessageMetadata::default(),
        }
    }
}

/// The dashboard's chat with its agents: the messages, the text being typed,
/// the agent it goes to, and whether it goes to every agent.
pub struct ChatPanel {
    pub messages: Vec<ChatMessage>,
    pub input: String,
    pub selected_agent: Option<AgentId>,
    pub broadcast_mode: bool,
}

impl ChatPanel {
    /// An empty chat with no agent selected.
    pub fn new() -> (r: Self)
        ensures
            r.messages@.len() == 0,
            r.input@.len() == 0,
            r.selected_agent is None,
            !r.broadcast_mode,
    {
        ChatPanel { messages: Vec::new(), input: String::new(), selected_agent: None, broadcast_mode: false }
    }

    /// Sends the typed text as a user message, to every agent in broadcast
    /// mode and otherwise to the selected one, and clears it. Blank text is
    /// not sent.
    pub fn send_message(&mut self)
        ensures
            trim_of(old(self).input@).len() == 0 ==> final(self).messages@ == old(self).messages@
                && final(self).input@ == old(self).input@,
            trim_of(old(self).input@).len() > 0 ==> {
                let m = final(self).messages@.last();
                &&& final(self).messages@.len() == old(self).messages@.len() + 1
                &&& final(self).messages@.drop_last() == old(self).messages@
                &&& m.content@ == old(self).input@
                &&& m.agent_id == if old(self).broadcast_mode {
                    None
                } else {
                    old(self).selected_agent
                }
                &&& final(self).input@.len() == 0
            },
            final(self).selected_agent == old(self).selected_agent,
            final(self).broadcast_mode == old(self).broadcast_mode,
    {
        let t = trimmed(self.input.as_str());
        if t.as_str().unicode_len() == 0 {
            return;
        }
        let content = self.input.clone();
        let recipient = if self.broadcast_mode {
            None
        } else {
            self.selected_agent
        };
        let message = ChatMessage::new_user_message(content, recipient);
        self.messages.push(message);
        self.input = String::new();
        assert(self.messages@.drop_last() =~= old(self).messages@);
    }
}

/// The time limit of a test run when none is given, in seconds.
pub const DEFAULT_TEST_TIMEOUT_SECS: u64 = 30;

/// The texts of a list of strings.
pub open spec fn texts(v: Seq<String>) -> Seq<Seq<char>> {
    v.map_values(|s: String| s@)
}

/// The position of the first occurrence of `t` in `v`, or the length of `v`.
pub open spec fn position_of(v: Seq<Seq<char>>, t: Seq<char>) -> int
    decreases v.len(),
{
    if v.len() == 0 {
        0
    } else if v[0] == t {
        0
    } else {
        1 + position_of(v.subrange(1, v.len() as int), t)
    }
}

/// The argument that follows the first `flag`, if there is one.
pub open spec fn value_after(v: Seq<Seq<char>>, flag: Seq<char>) -> Option<Seq<char>> {
    let p = position_of(v, flag);
    if p + 1 < v.len() {
        Some(v[p + 1])
    } else {
        None
    }
}

/// The time limit that the arguments give: the number after `--timeout`
/// when it reads as one, else the default.
pub open spec fn timeout_from(v: Seq<Seq<char>>) -> u64 {
    match value_after(v, "--timeout"@) {
        Some(t) => match u64_text_value(t) {
            Some(n) => n,
            None => DEFAULT_TEST_TIMEOUT_SECS,
        },
        None => DEFAULT_TEST_TIMEOUT_SECS,
    }
}

/// Settings of an automated run of the dashboard, read from its arguments,
/// with the lines it has logged.
#[derive(Debug, Clone)]
pub struct TestMode {
    pub enabled: bool,
    pub timeout_secs: u64,
    pub exit_message: Option<String>,
    pub log_buffer: Vec<String>,
}

/// The position of the first argument equal to `flag`, or the number of arguments.
fn find_arg(args: &Vec<String>, flag: &str) -> (r: usize)
    ensures
        r as int == position_of(texts(args@), flag@),
        r <= args@.len(),
{
    let n = args.len();
    let ghost v = texts(args@);
    let mut i: usize = 0;
    assert(v.subrange(0, n as int) =~= v);
    while i < n
        invariant
            n == args@.len(),
            v == texts(args@),
            i <= n,
            position_of(v, flag@) == i + position_of(v.subrange(i as int, n as int), flag@),
        decreases n - i,
    {
        if str_eq(args[i].as_str(), flag) {
            assert(v.subrange(i as int, n as int)[0] == v[i as int]);
            return i;
        }
        assert(v.subrange(i as int, n as int).subrange(1, n - i) =~= v.subrange(i + 1, n as int));
        i += 1;
    }
    i
}

/// Whether some line holds `needle`.
fn any_line_contains(lines: &Vec<String>, needle: &str) -> (r: bool)
    ensures
        r == exists|k: int| 0 <= k < lines@.len() && contains_seq(#[trigger] lines@[k]@, needle@),
{
    let nd = chars_of(needle);
    let mut k: usize = 0;
    while k < lines.len()
        invariant
            nd@ == needle@,
            k <= lines@.len(),
            forall|j: int| 0 <= j < k ==> !contains_seq(#[trigger] lines@[j]@, needle@),
        decreases lines@.len() - k,
    {
        let line = chars_of(lines[k].as_str());
        if contains_chars(&line, &nd) {
            assert(contains_seq(lines@[k as int]@, needle@));
            return true;
        }
        k += 1;
    }
    false
}

impl TestMode {
    /// Reads the settings from the program arguments: `--test` turns the
    /// mode on, `--timeout N` sets the time limit in seconds, and
    /// `--exit-on TEXT` ends the run once a logged line holds TEXT.
    pub fn from_args(args: &Vec<String>) -> (r: Self)
        ensures
            r.enabled == texts(args@).contains("--test"@),
            r.timeout_secs == timeout_from(texts(args@)),
            match value_after(texts(args@), "--exit-on"@) {
                Some(m) => r.exit_message matches Some(x) && x@ == m,
                None => r.exit_message is None,
            },
            r.log_buffer@.len() == 0,
    {
        let ghost v = texts(args@);
        let n = args.len();
        let t = find_arg(args, "--test");
        let enabled = t < n;
        proof {
            lemma_position_of(v, "--test"@);
        }
        let p = find_arg(args, "--timeout");
        let timeout_secs = if p < n && p + 1 < n {
            assert(v[p + 1] == args@[p + 1]@);
            match parse_u64(args[p + 1].as_str()) {
                Some(x) => x,
                None => DEFAULT_TEST_TIMEOUT_SECS,
            }
        } else {
            DEFAULT_TEST_TIMEOUT_SECS
        };
        let q = find_arg(args, "--exit-on");
        let exit_message = if q < n && q + 1 < n {
            assert(v[q + 1] == args@[q + 1]@);
            Some(args[q + 1].clone())
        } else {
            None
        };
        TestMode { enabled, timeout_secs, exit_message, log_buffer: Vec::new() }
    }

    /// Whether the run should end, `elapsed_ms` milliseconds after it
    /// started: only in test mode, once the time limit is passed or once a
    /// logged line holds the exit message.
    pub fn should_exit(&self, elapsed_ms: u64) -> (r: bool)
        ensures
            r == (self.enabled && (elapsed_ms as int > self.timeout_secs as int * 1000 || match self.exit_message {
                Some(m) => exists|k: int| 0 <= k < self.log_buffer@.len() && contains_seq(#[trigger] self.log_buffer@[k]@, m@),
                None => false,
            })),
    {
        if !self.enabled {
            return false;
        }
        if (elapsed_ms as u128) > (self.timeout_secs as u128) * 1000 {
            return true;
        }
        match &self.exit_message {
            Some(m) => any_line_contains(&self.log_buffer, m.as_str()),
            None => false,
        }
    }

    /// Keeps a logged line when test mode is on.
    pub fn log(&mut self, message: String)
        ensures
            final(self).enabled == old(self).enabled,
            final(self).timeout_secs == old(self).timeout_secs,
            final(self).exit_message == old(self).exit_message,
            old(self).enabled ==> final(self).log_buffer@ == old(self).log_buffer@.push(message),
            !old(self).enabled ==> final(self).log_buffer@ == old(self).log_buffer@,
    {
        if self.enabled {
            self.log_buffer.push(message);
        }
    }
}

/// The first position of `t` is within `v`, exactly when `v` contains `t`.
proof fn lemma_position_of(v: Seq<Seq<char>>, t: Seq<char>)
    ensures
        0 <= position_of(v, t) <= v.len(),
        (position_of(v, t) < v.len()) == v.contains(t),
        position_of(v, t) < v.len() ==> v[position_of(v, t)] == t,
    decreases v.len(),
{
    if v.len() > 0 {
        let w = v.subrange(1, v.len() as int);
        lemma_position_of(w, t);
        if v[0] != t {
            if v.contains(t) {
                let k = choose|k: int| 0 <= k < v.len() && v[k] == t;
                assert(w[k - 1] == t);
            }
            if w.contains(t) {
                let k = choose|k: int| 0 <= k < w.len() && w[k] == t;
                assert(v[k + 1] == t);
            }
        } else {
            assert(v[0] == t);
        }
    }
}

} // verus!

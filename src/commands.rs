use vstd::prelude::*;

verus! {

/// How listings are printed.
#[derive(Debug, Clone, Copy, PartialEq, Eq, Structural)]
pub enum OutputFormat {
    /// Human-readable text format
    Text,
    /// JSON format
    Json,
    /// CSV format
    Csv,
    /// Compact single-line format
    Compact,
}

/// Kind of chat to list.
#[derive(Debug, Clone, Copy, PartialEq, Eq, Structural)]
pub enum ChatTypeFilter {
    /// Direct messages
    DirectMessage,
    /// Group chats
    Group,
    /// Channels
    Channel,
}

/// Action on the stored Telegram configuration.
#[derive(Debug, Clone)]
pub enum ConfigAction {
    /// Set a configuration value
    SetValue { key: String, value: String },
    /// Get a configuration value
    GetValue { key: String },
    /// List all configuration values
    List,
}

/// Subcommands of the Telegram command line.
#[derive(Debug, Clone)]
pub enum TelegramCommand {
    /// Initialize and authenticate the Telegram connection
    Init { api_id: Option<i32>, api_hash: Option<String>, phone: Option<String> },
    /// Check connection status
    Status,
    /// List all chats and groups
    List { format: OutputFormat, chat_type: Option<ChatTypeFilter> },
    /// Get messages from a chat
    Get {
        chat: Option<String>,
        id: Option<String>,
        limit: usize,
        since: Option<String>,
        before: Option<String>,
        after: Option<String>,
        sender: Option<String>,
        message_type: Option<String>,
        format: OutputFormat,
        output: Option<String>,
    },
    /// Watch chats for new messages
    Watch { chat: Option<String>, all: bool, format: OutputFormat },
    /// Export a chat's messages to a file
    Export {
        chat: String,
        format: OutputFormat,
        output: String,
        since: Option<String>,
        before: Option<String>,
        limit: Option<usize>,
    },
    /// Search messages
    Search {
        term: String,
        chat: Option<String>,
        all: bool,
        ignore_case: bool,
        format: OutputFormat,
    },
    /// Show information about a chat
    Info { chat: Option<String>, id: Option<String>, format: OutputFormat },
    /// Manage configuration
    Config { action: ConfigAction },
    /// Logout and clear the session
    Logout,
}

/// Subcommands of the source-independent command line.
#[derive(Debug, Clone)]
pub enum UnifiedCommand {
    /// List all configured chat sources
    Sources,
    /// List chats from a source
    Chats {
        source: String,
        name: Option<String>,
        chat_type: Option<String>,
        format: String,
    },
    /// Get messages with filters
    Messages {
        filter: String,
        since: Option<String>,
        before: Option<String>,
        sender: Option<String>,
        search: Option<String>,
        limit: Option<usize>,
        format: String,
    },
}

} // verus!

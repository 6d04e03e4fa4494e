use vstd::prelude::*;
use crate::text::{join_path, path_join};

verus! {

/// Settings of a Matrix homeserver account.
#[derive(Debug, Clone)]
pub struct MatrixConfig {
    pub homeserver_url: String,
    pub username: String,
    pub password: String,
}

/// Settings of a direct Telegram account.
#[derive(Debug, Clone)]
pub struct TelegramConfig {
    pub api_id: i32,
    pub api_hash: String,
    pub phone: String,
    /// Optional session file path for persistent login
    pub session_file: Option<String>,
}

/// Settings of the WhatsApp source.
#[derive(Debug, Clone)]
pub struct WhatsAppConfig {
    /// Path to the session file
    pub session_path: String,
    /// Whether to save the session automatically
    pub auto_save_session: bool,
}

/// Relies on `dirs::data_local_dir`: the user's local data directory, if the
/// platform has one. It depends on the environment, so nothing is stated of it.
#[verifier::external_body]
fn local_data_dir() -> (r: Option<String>) {
    dirs::data_local_dir().map(|p| p.to_string_lossy().into_owned())
}

/// Where the WhatsApp session lives under a data directory.
pub open spec fn whatsapp_session_path(data_dir: Seq<char>) -> Seq<char> {
    path_join(path_join(data_dir, "chat"@), "whatsapp_session.bin"@)
}

impl WhatsAppConfig {
    /// Settings that keep the session under `data_dir` and save it automatically.
    pub fn in_data_dir(data_dir: &str) -> (r: Self)
        ensures
            r.session_path@ == whatsapp_session_path(data_dir@),
            r.auto_save_session,
    {
        let chat_dir = join_path(data_dir, "chat");
        let session_path = join_path(chat_dir.as_str(), "whatsapp_session.bin");
        WhatsAppConfig { session_path, auto_save_session: true }
    }
}

impl Default for WhatsAppConfig {
    /// Settings that keep the session under the user's local data directory,
    /// or under the current directory where there is none.
    fn default() -> (r: Self)
        ensures
            r.auto_save_session,
            exists|d: Seq<char>| r.session_path@ == whatsapp_session_path(d),
    {
        let r = match local_data_dir() {
            Some(d) => WhatsAppConfig::in_data_dir(d.as_str()),
            None => WhatsAppConfig::in_data_dir("."),
        };
        r
    }
}

} // verus!

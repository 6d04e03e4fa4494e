use vstd::prelude::*;
use crate::text::{
    clone_opt, opt_view, i32_text_value, int_text, parse_i32, i32_to_string, str_eq, join_path,
    path_join,
};

verus! {

/// Stored settings of the Telegram command line.
#[derive(Debug, Clone)]
pub struct Config {
    pub api_id: Option<i32>,
    pub api_hash: Option<String>,
    pub phone: Option<String>,
    pub session_path: Option<String>,
}

/// Why a setting could not be changed.
#[derive(Debug, Clone, Copy, PartialEq, Eq, Structural)]
pub enum ConfigError {
    /// The value given for api_id is not an integer.
    InvalidApiId,
    /// No setting has that name.
    UnknownKey,
}

/// The text that `get` reports for the setting named `key`.
pub open spec fn setting_text(c: Config, key: Seq<char>) -> Option<Seq<char>> {
    if key == "api_id"@ {
        match c.api_id {
            Some(v) => Some(int_text(v as int)),
            None => None,
        }
    } else if key == "api_hash"@ {
        opt_view(c.api_hash)
    } else if key == "phone"@ {
        opt_view(c.phone)
    } else if key == "session_path"@ {
        opt_view(c.session_path)
    } else {
        None
    }
}

/// Whether the text settings of two configurations agree.
pub open spec fn same_texts(a: Config, b: Config) -> bool {
    &&& opt_view(a.api_hash) == opt_view(b.api_hash)
    &&& opt_view(a.phone) == opt_view(b.phone)
    &&& opt_view(a.session_path) == opt_view(b.session_path)
}

impl Default for Config {
    fn default() -> (r: Self)
        ensures
            r.api_id is None,
            r.api_hash is None,
            r.phone is None,
            r.session_path is None,
    {
        Config { api_id: None, api_hash: None, phone: None, session_path: None }
    }
}

impl Config {
    /// The settings file inside the configuration directory.
    pub fn config_file(config_dir: &str) -> (r: String)
        ensures
            r@ == path_join(config_dir@, "config.toml"@),
    {
        join_path(config_dir, "config.toml")
    }

    /// The session file inside the configuration directory.
    pub fn session_file(config_dir: &str) -> (r: String)
        ensures
            r@ == path_join(config_dir@, "session.dat"@),
    {
        join_path(config_dir, "session.dat")
    }

    /// Sets the setting named `key`. api_id takes an integer; api_hash,
    /// phone and session_path take any text.
    pub fn set(&mut self, key: &str, value: &str) -> (r: Result<(), ConfigError>)
        ensures
            key@ == "api_id"@ ==> match i32_text_value(value@) {
                Some(v) => r is Ok && final(self).api_id == Some(v) && same_texts(*final(self), *old(self)),
                None => r == Err::<(), ConfigError>(ConfigError::InvalidApiId) && *final(self) == *old(self),
            },
            key@ == "api_hash"@ ==> r is Ok && opt_view(final(self).api_hash) == Some(value@)
                && final(self).api_id == old(self).api_id
                && opt_view(final(self).phone) == opt_view(old(self).phone)
                && opt_view(final(self).session_path) == opt_view(old(self).session_path),
            key@ == "phone"@ ==> r is Ok && opt_view(final(self).phone) == Some(value@)
                && final(self).api_id == old(self).api_id
                && opt_view(final(self).api_hash) == opt_view(old(self).api_hash)
                && opt_view(final(self).session_path) == opt_view(old(self).session_path),
            key@ == "session_path"@ ==> r is Ok && opt_view(final(self).session_path) == Some(value@)
                && final(self).api_id == old(self).api_id
                && opt_view(final(self).api_hash) == opt_view(old(self).api_hash)
                && opt_view(final(self).phone) == opt_view(old(self).phone),
            key@ != "api_id"@ && key@ != "api_hash"@ && key@ != "phone"@ && key@ != "session_path"@
                ==> r == Err::<(), ConfigError>(ConfigError::UnknownKey) && *final(self) == *old(self),
    {
        proof {
            reveal_strlit("api_id");
            reveal_strlit("api_hash");
            reveal_strlit("phone");
            reveal_strlit("session_path");
            assert("session_path"@.len() != "api_id"@.len());
            assert("session_path"@.len() != "api_hash"@.len());
            assert("session_path"@.len() != "phone"@.len());
        }
        if str_eq(key, "api_id") {
            match parse_i32(value) {
                Some(v) => {
                    self.api_id = Some(v);
                    Ok(())
                },
                None => Err(ConfigError::InvalidApiId),
            }
        } else if str_eq(key, "api_hash") {
            self.api_hash = Some(value.to_owned());
            Ok(())
        } else if str_eq(key, "phone") {
            self.phone = Some(value.to_owned());
            Ok(())
        } else if str_eq(key, "session_path") {
            self.session_path = Some(value.to_owned());
            Ok(())
        } else {
            Err(ConfigError::UnknownKey)
        }
    }

    /// The text of the setting named `key`, if it is set and the name is known.
    pub fn get(&self, key: &str) -> (r: Option<String>)
        ensures
            opt_view(r) == setting_text(*self, key@),
    {
        if str_eq(key, "api_id") {
            match self.api_id {
                Some(v) => Some(i32_to_string(v)),
                None => None,
            }
        } else if str_eq(key, "api_hash") {
            clone_opt(&self.api_hash)
        } else if str_eq(key, "phone") {
            clone_opt(&self.phone)
        } else if str_eq(key, "session_path") {
            clone_opt(&self.session_path)
        } else {
            None
        }
    }
}

} // verus!

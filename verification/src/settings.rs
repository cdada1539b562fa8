use vstd::prelude::*;

verus! {

use crate::json;

/// The user's credentials and theme preference, loaded once at startup from
/// the secure store and written back only on an explicit save.
#[derive(Debug)]
pub struct Settings {
    pub client_id: String,
    pub client_secret: String,
    pub username: String,
    pub password: String,
    pub dark_mode: bool,
}

/// The abstract value of a settings record.
pub ghost struct SettingsV {
    pub client_id: Seq<char>,
    pub client_secret: Seq<char>,
    pub username: Seq<char>,
    pub password: Seq<char>,
    pub dark_mode: bool,
}

impl View for Settings {
    type V = SettingsV;

    open spec fn view(&self) -> SettingsV {
        SettingsV {
            client_id: self.client_id@,
            client_secret: self.client_secret@,
            username: self.username@,
            password: self.password@,
            dark_mode: self.dark_mode,
        }
    }
}

/// The record a fresh install starts from: empty credentials and dark mode
/// enabled.
pub open spec fn is_default_settings(s: Settings) -> bool {
    &&& s.client_id@ == Seq::<char>::empty()
    &&& s.client_secret@ == Seq::<char>::empty()
    &&& s.username@ == Seq::<char>::empty()
    &&& s.password@ == Seq::<char>::empty()
    &&& s.dark_mode
}

impl Default for Settings {
    fn default() -> (s: Settings)
        ensures
            is_default_settings(s),
    {
        Settings {
            client_id: String::new(),
            client_secret: String::new(),
            username: String::new(),
            password: String::new(),
            dark_mode: true,
        }
    }
}

impl Settings {
    /// All four credential fields are filled in; only then is an
    /// authentication attempted at startup.
    pub fn has_credentials(&self) -> (r: bool)
        ensures
            r == (self.client_id@.len() > 0 && self.client_secret@.len() > 0
                && self.username@.len() > 0 && self.password@.len() > 0),
    {
        !self.client_id.as_str().is_empty() && !self.client_secret.as_str().is_empty()
            && !self.username.as_str().is_empty() && !self.password.as_str().is_empty()
    }
}

impl Clone for Settings {
    fn clone(&self) -> (r: Settings)
        ensures
            r == *self,
    {
        Settings {
            client_id: self.client_id.clone(),
            client_secret: self.client_secret.clone(),
            username: self.username.clone(),
            password: self.password.clone(),
            dark_mode: self.dark_mode,
        }
    }
}

/// Assembles a settings record from the fields read out of the stored blob:
/// the record itself when every field was present and well-typed, the
/// default record otherwise, exactly as a fresh install starts.
pub fn settings_from_fields(
    client_id: Option<String>,
    client_secret: Option<String>,
    username: Option<String>,
    password: Option<String>,
    dark_mode: Option<bool>,
) -> (s: Settings)
    ensures
        client_id is Some && client_secret is Some && username is Some && password is Some
            && dark_mode is Some ==> s == (Settings {
            client_id: client_id->0,
            client_secret: client_secret->0,
            username: username->0,
            password: password->0,
            dark_mode: dark_mode->0,
        }),
        (client_id is None || client_secret is None || username is None || password is None
            || dark_mode is None) ==> is_default_settings(s),
{
    match (client_id, client_secret, username, password, dark_mode) {
        (Some(ci), Some(cs), Some(u), Some(p), Some(d)) => Settings {
            client_id: ci,
            client_secret: cs,
            username: u,
            password: p,
            dark_mode: d,
        },
        _ => Settings::default(),
    }
}

/// The record a stored blob denotes: its five fields when the blob is valid
/// JSON carrying each of them well-typed; nothing otherwise, the empty blob
/// of a fresh install included.
pub open spec fn spec_stored_settings(blob: Seq<char>) -> Option<SettingsV> {
    if blob.len() == 0 {
        None
    } else {
        match json::json_doc_of(blob) {
            None => None,
            Some(root) => match (
                json::spec_str_field(root, "client_id"@),
                json::spec_str_field(root, "client_secret"@),
                json::spec_str_field(root, "username"@),
                json::spec_str_field(root, "password"@),
                json::spec_bool_field(root, "dark_mode"@),
            ) {
                (Some(ci), Some(cs), Some(u), Some(p), Some(d)) => Some(
                    SettingsV {
                        client_id: ci,
                        client_secret: cs,
                        username: u,
                        password: p,
                        dark_mode: d,
                    },
                ),
                _ => None,
            },
        }
    }
}

/// Reads a settings record from the blob the secure store handed back:
/// exactly the record the blob denotes, and the default record when it
/// denotes none — a missing record, a blob that is not JSON, or one with a
/// field missing or ill-typed.
pub fn settings_from_stored(stored: &str) -> (s: Settings)
    ensures
        spec_stored_settings(stored@) matches Some(v) ==> s@ == v,
        spec_stored_settings(stored@) is None ==> is_default_settings(s),
{
    if stored.is_empty() {
        return Settings::default();
    }
    match json::parse_json_tree(stored) {
        Some(root) => {
            let client_id = json::json_str_field(&root, "client_id");
            let client_secret = json::json_str_field(&root, "client_secret");
            let username = json::json_str_field(&root, "username");
            let password = json::json_str_field(&root, "password");
            let dark_mode = json::json_bool_field(&root, "dark_mode");
            settings_from_fields(client_id, client_secret, username, password, dark_mode)
        },
        None => Settings::default(),
    }
}

} // verus!

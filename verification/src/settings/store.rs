//! The settings held by the connection store: the settings document as it
//! was loaded, and the reads and writes that the application makes of it.
//! Loading the document from the database and writing it back after a change
//! are the caller's part.

use vstd::prelude::*;

use crate::settings::json::{json_view, spec_keys, JsonModel, JsonValue};
use crate::settings::normalize::{
    normalize_host_key_policy, normalize_quick_cmd_sort_mode, normalize_quick_cmd_view_mode,
    spec_ascii_lower, spec_eq_ignore_ascii_case, spec_host_key_policy, spec_quick_cmd_sort_mode,
    spec_quick_cmd_view_mode,
};
use crate::settings::summary::{is_summary_of, summary_from_document, AppSettingsSummary};
use crate::settings::encode::text_value;
use crate::settings::write::{
    lemma_set_path_then_read, set_nested_json_string, set_nested_json_value, spec_is_plain_word,
    spec_set_path,
};
use crate::text::{lemma_trim_of_unpadded, spec_trim};

verus! {

/// Why a settings operation failed.
pub enum StorageError {
    /// The settings database could not be read or written.
    Database(String),
    /// A stored secret could not be decrypted or encrypted.
    Crypto(String),
    /// A value was refused.
    InvalidData(String),
}

/// The settings side of the connection store.
pub struct ConnectionStore {
    /// The settings document.
    pub settings: JsonValue,
    /// The master password as stored, decrypted; `None` when none is set.
    pub master_password: Option<String>,
}

/// Where the host-key policy is stored.
pub open spec fn host_key_policy_path() -> Seq<Seq<char>> {
    spec_keys(seq!["security", "host_key_policy"])
}

/// Where the quick-command view is stored.
pub open spec fn quick_cmd_view_mode_path() -> Seq<Seq<char>> {
    spec_keys(seq!["ui", "quick_cmd_view_mode"])
}

/// Where the quick-command sort is stored.
pub open spec fn quick_cmd_sort_mode_path() -> Seq<Seq<char>> {
    spec_keys(seq!["ui", "quick_cmd_sort_mode"])
}

/// Whether `password` opens the store: always when no master password is
/// set, else when it is the stored one.
pub open spec fn spec_password_matches(stored: Option<String>, password: Seq<char>) -> bool {
    match stored {
        None => true,
        Some(s) => s@ == password,
    }
}

/// A word of lower-case ASCII letters is a plain word and its own trim.
proof fn lemma_lower_word(w: Seq<char>)
    requires
        w.len() > 0,
        forall|i: int| 0 <= i < w.len() ==> 'a' <= #[trigger] w[i] && w[i] <= 'z' || 'A' <= w[i]
            && w[i] <= 'Z',
        !spec_eq_ignore_ascii_case(w, "inf"@),
        !spec_eq_ignore_ascii_case(w, "infinity"@),
        !spec_eq_ignore_ascii_case(w, "nan"@),
    ensures
        spec_is_plain_word(w),
        spec_trim(w) == w,
{
    assert(w[0] == w[0]);
    assert(w.last() == w[w.len() - 1]);
    lemma_trim_of_unpadded(w);
}

/// Every host-key policy that is stored is a plain word, and reading it
/// again keeps it.
pub proof fn lemma_host_key_policy_stable(policy: Seq<char>)
    ensures
        spec_is_plain_word(spec_host_key_policy(policy)),
        spec_host_key_policy(policy).len() > 0,
        spec_host_key_policy(spec_host_key_policy(policy)) == spec_host_key_policy(policy),
{
    let opts = spec_keys(seq!["strict", "accept", "prompt"]);
    reveal_strlit("strict");
    reveal_strlit("accept");
    reveal_strlit("prompt");
    reveal_strlit("inf");
    reveal_strlit("infinity");
    reveal_strlit("nan");
    assert(opts[0] == "strict"@ && opts[1] == "accept"@ && opts[2] == "prompt"@);
    let w = spec_host_key_policy(policy);
    assert(w == "strict"@ || w == "accept"@ || w == "prompt"@);
    assert(!spec_eq_ignore_ascii_case(w, "inf"@));
    assert(!spec_eq_ignore_ascii_case(w, "infinity"@));
    assert(!spec_eq_ignore_ascii_case(w, "nan"@));
    lemma_lower_word(w);
    assert(opts.contains(w));
}

/// Every quick-command view that is stored is a plain word, and reading it
/// again keeps it.
pub proof fn lemma_quick_cmd_view_mode_stable(value: Seq<char>)
    ensures
        spec_is_plain_word(spec_quick_cmd_view_mode(value)),
        spec_quick_cmd_view_mode(value).len() > 0,
        spec_quick_cmd_view_mode(spec_quick_cmd_view_mode(value)) == spec_quick_cmd_view_mode(value),
{
    let opts = spec_keys(seq!["list", "compact", "tile"]);
    reveal_strlit("list");
    reveal_strlit("compact");
    reveal_strlit("tile");
    reveal_strlit("inf");
    reveal_strlit("infinity");
    reveal_strlit("nan");
    assert(opts[0] == "list"@ && opts[1] == "compact"@ && opts[2] == "tile"@);
    let w = spec_quick_cmd_view_mode(value);
    assert(w == "list"@ || w == "compact"@ || w == "tile"@);
    assert(!spec_eq_ignore_ascii_case(w, "inf"@));
    assert(!spec_eq_ignore_ascii_case(w, "infinity"@));
    assert(!spec_eq_ignore_ascii_case(w, "nan"@));
    lemma_lower_word(w);
    assert(opts.contains(w));
}

/// Every quick-command sort that is stored is a plain word, and reading it
/// again keeps it.
pub proof fn lemma_quick_cmd_sort_mode_stable(value: Seq<char>)
    ensures
        spec_is_plain_word(spec_quick_cmd_sort_mode(value)),
        spec_quick_cmd_sort_mode(value).len() > 0,
        spec_quick_cmd_sort_mode(spec_quick_cmd_sort_mode(value)) == spec_quick_cmd_sort_mode(value),
{
    let opts = spec_keys(seq!["created", "name", "useCount"]);
    reveal_strlit("created");
    reveal_strlit("name");
    reveal_strlit("useCount");
    reveal_strlit("inf");
    reveal_strlit("infinity");
    reveal_strlit("nan");
    assert(opts[0] == "created"@ && opts[1] == "name"@ && opts[2] == "useCount"@);
    let w = spec_quick_cmd_sort_mode(value);
    assert(w == "created"@ || w == "name"@ || w == "useCount"@);
    if w == "useCount"@ {
        assert(spec_ascii_lower(w[0]) != spec_ascii_lower("infinity"@[0]));
    }
    assert(!spec_eq_ignore_ascii_case(w, "inf"@));
    assert(!spec_eq_ignore_ascii_case(w, "infinity"@));
    assert(!spec_eq_ignore_ascii_case(w, "nan"@));
    lemma_lower_word(w);
    assert(opts.contains(w));
}

impl ConnectionStore {
    /// Reads every setting from the settings document.
    pub fn load_app_settings_summary(&self) -> (r: Result<AppSettingsSummary, StorageError>)
        ensures
            r is Ok,
            r matches Ok(s) ==> is_summary_of(s, json_view(self.settings)),
    {
        Ok(summary_from_document(&self.settings))
    }

    /// Whether `password` is the master password; any password is when none
    /// is set.
    pub fn verify_master_password(&self, password: &str) -> (r: Result<bool, StorageError>)
        ensures
            r == Ok::<bool, StorageError>(spec_password_matches(self.master_password, password@)),
    {
        match &self.master_password {
            None => Ok(true),
            Some(stored) => Ok(crate::text::str_eq(stored.as_str(), password)),
        }
    }

    /// Stores the host-key policy, read as `normalize_host_key_policy` reads
    /// it, and returns the settings as they now read.
    pub fn save_host_key_policy(&mut self, policy: &str) -> (r: Result<AppSettingsSummary, StorageError>)
        ensures
            json_view(final(self).settings) == spec_set_path(
                json_view(old(self).settings),
                host_key_policy_path(),
                JsonModel::Str(spec_host_key_policy(policy@), None),
            ),
            final(self).master_password == old(self).master_password,
            r is Ok,
            r matches Ok(s) ==> is_summary_of(s, json_view(final(self).settings)),
            r matches Ok(s) ==> s.host_key_policy@ == spec_host_key_policy(policy@),
    {
        let ghost policy_in = policy;
        let policy = normalize_host_key_policy(policy);
        proof {
            lemma_host_key_policy_stable(policy_in@);
        }
        let ghost written = JsonModel::Str(policy@, None);
        set_nested_json_string(&mut self.settings, &["security", "host_key_policy"], policy);
        proof {
            lemma_set_path_then_read(
                json_view(old(self).settings),
                host_key_policy_path(),
                written,
            );
        }
        self.load_app_settings_summary()
    }

    /// Stores the quick-command view and sort of `settings`, each read as its
    /// normaliser reads it, and returns the settings as they now read.
    pub fn save_quick_command_ui_settings(&mut self, settings: &AppSettingsSummary) -> (r: Result<
        AppSettingsSummary,
        StorageError,
    >)
        ensures
            json_view(final(self).settings) == spec_set_path(
                spec_set_path(
                    json_view(old(self).settings),
                    quick_cmd_view_mode_path(),
                    JsonModel::Str(spec_quick_cmd_view_mode(settings.ui_quick_cmd_view_mode@), None),
                ),
                quick_cmd_sort_mode_path(),
                JsonModel::Str(spec_quick_cmd_sort_mode(settings.ui_quick_cmd_sort_mode@), None),
            ),
            final(self).master_password == old(self).master_password,
            r is Ok,
            r matches Ok(s) ==> is_summary_of(s, json_view(final(self).settings)),
            r matches Ok(s) ==> s.ui_quick_cmd_view_mode@ == spec_quick_cmd_view_mode(
                settings.ui_quick_cmd_view_mode@,
            ),
            r matches Ok(s) ==> s.ui_quick_cmd_sort_mode@ == spec_quick_cmd_sort_mode(
                settings.ui_quick_cmd_sort_mode@,
            ),
    {
        let view_mode = normalize_quick_cmd_view_mode(settings.ui_quick_cmd_view_mode.as_str());
        let sort_mode = normalize_quick_cmd_sort_mode(settings.ui_quick_cmd_sort_mode.as_str());
        proof {
            lemma_quick_cmd_view_mode_stable(settings.ui_quick_cmd_view_mode@);
            lemma_quick_cmd_sort_mode_stable(settings.ui_quick_cmd_sort_mode@);
        }
        let ghost view_written = JsonModel::Str(view_mode@, None);
        let ghost sort_written = JsonModel::Str(sort_mode@, None);
        set_nested_json_string(&mut self.settings, &["ui", "quick_cmd_view_mode"], view_mode);
        let ghost middle = json_view(self.settings);
        set_nested_json_string(&mut self.settings, &["ui", "quick_cmd_sort_mode"], sort_mode);
        proof {
            lemma_set_path_then_read(middle, quick_cmd_sort_mode_path(), sort_written);
            lemma_set_path_then_read(
                json_view(old(self).settings),
                quick_cmd_view_mode_path(),
                view_written,
            );
            reveal_strlit("ui");
            reveal_strlit("quick_cmd_view_mode");
            reveal_strlit("quick_cmd_sort_mode");
            assert("quick_cmd_sort_mode"@[10] != "quick_cmd_view_mode"@[10]);
            assert(quick_cmd_sort_mode_path()[1] != quick_cmd_view_mode_path()[1]);
            crate::settings::write::lemma_set_path_frame(
                middle,
                quick_cmd_sort_mode_path(),
                sort_written,
                quick_cmd_view_mode_path(),
            );
        }
        self.load_app_settings_summary()
    }
}

/// Where the encrypted master password is kept.
pub open spec fn master_password_path() -> Seq<Seq<char>> {
    spec_keys(seq!["security", "master_password"])
}

/// A stored secret as text.
pub open spec fn opt_text(o: Option<String>) -> Option<Seq<char>> {
    match o {
        Some(t) => Some(t@),
        None => None,
    }
}

/// A borrowed text as text.
pub open spec fn opt_str(o: Option<&str>) -> Option<Seq<char>> {
    match o {
        Some(t) => Some(t@),
        None => None,
    }
}

impl ConnectionStore {
    /// Sets (`Some`) or removes (`None`) the master password. `encrypted` is
    /// the new password as the caller encrypted it for storage, present
    /// exactly when there is a new password. An empty new password is
    /// refused and nothing changes.
    pub fn save_master_password(&mut self, next_password: Option<&str>, encrypted: Option<String>) -> (r:
        Result<AppSettingsSummary, StorageError>)
        requires
            next_password is Some <==> encrypted is Some,
        ensures
            (next_password matches Some(p) && p@.len() == 0) ==> {
                &&& r matches Err(e) && e is InvalidData
                &&& json_view(final(self).settings) == json_view(old(self).settings)
                &&& opt_text(final(self).master_password) == opt_text(old(self).master_password)
            },
            !(next_password matches Some(p) && p@.len() == 0) ==> {
                &&& json_view(final(self).settings) == spec_set_path(
                    json_view(old(self).settings),
                    master_password_path(),
                    match encrypted {
                        Some(t) => JsonModel::Str(t@, None),
                        None => JsonModel::Null,
                    },
                )
                &&& opt_text(final(self).master_password) == opt_str(next_password)
                &&& r matches Ok(s) && is_summary_of(s, json_view(final(self).settings))
            },
    {
        match next_password {
            Some(p) => {
                if p.is_empty() {
                    return Err(
                        StorageError::InvalidData(
                            "Master password cannot be empty when enabled".to_owned(),
                        ),
                    );
                }
                self.master_password = Some(p.to_owned());
            },
            None => {
                self.master_password = None;
            },
        }
        let stored = match encrypted {
            Some(token) => text_value(token),
            None => JsonValue::Null,
        };
        set_nested_json_value(&mut self.settings, &["security", "master_password"], stored);
        self.load_app_settings_summary()
    }
}

/// After the master password is set, exactly that password verifies; after
/// it is removed, any password does.
pub proof fn lemma_saved_master_password_verifies(
    next: Option<Seq<char>>,
    stored: Option<String>,
    candidate: Seq<char>,
)
    requires
        opt_text(stored) == next,
    ensures
        spec_password_matches(stored, candidate) == match next {
            Some(p) => p == candidate,
            None => true,
        },
{
}

} // verus!

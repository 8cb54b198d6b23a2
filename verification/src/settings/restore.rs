//! The window and tab layouts that the settings keep for the next start:
//! where each is stored, and how a stored one is found and replaced. Their
//! values are encoded and decoded by the caller.

use vstd::prelude::*;

use crate::settings::json::{json_path, json_view, spec_json_path, spec_keys, JsonModel, JsonValue};
use crate::settings::store::ConnectionStore;
use crate::settings::write::{lemma_set_path_then_read, set_nested_json_value, spec_set_path};

verus! {

/// Where the tabs that were open are kept.
pub open spec fn open_tabs_path() -> Seq<Seq<char>> {
    spec_keys(seq!["ui", "open_tabs"])
}

/// Where the terminal windows' split layout is kept.
pub open spec fn terminal_window_layout_path() -> Seq<Seq<char>> {
    spec_keys(seq!["ui", "terminal_window_layout"])
}

/// Where the workspace panes' split layout is kept.
pub open spec fn workspace_pane_layout_path() -> Seq<Seq<char>> {
    spec_keys(seq!["ui", "workspace_pane_layout"])
}

/// The value stored at `path`, unless there is none there or it is null.
pub open spec fn spec_stored_value(doc: JsonModel, path: Seq<Seq<char>>) -> Option<JsonModel> {
    match spec_json_path(doc, path) {
        Some(JsonModel::Null) => None,
        found => found,
    }
}

/// A found value as its model.
pub open spec fn found_view(r: Option<&JsonValue>) -> Option<JsonModel> {
    match r {
        Some(v) => Some(json_view(*v)),
        None => None,
    }
}

/// The value stored at `path` of `doc`, unless absent or null.
fn stored_value<'a>(doc: &'a JsonValue, path: &[&str]) -> (r: Option<&'a JsonValue>)
    ensures
        found_view(r) == spec_stored_value(json_view(*doc), spec_keys(path@)),
{
    match json_path(doc, path) {
        Some(v) => match v {
            JsonValue::Null => None,
            _ => Some(v),
        },
        None => None,
    }
}

/// A layout to store, or null for none.
pub open spec fn layout_view(layout: Option<JsonValue>) -> JsonModel {
    match layout {
        Some(v) => json_view(v),
        None => JsonModel::Null,
    }
}

impl ConnectionStore {
    /// The stored open tabs, encoded, for the caller to decode; `None` when
    /// none are stored.
    pub fn load_open_tabs(&self) -> (r: Option<&JsonValue>)
        ensures
            found_view(r) == spec_stored_value(json_view(self.settings), open_tabs_path()),
    {
        stored_value(&self.settings, &["ui", "open_tabs"])
    }

    /// Stores the open tabs, encoded by the caller.
    pub fn save_open_tabs(&mut self, encoded: JsonValue)
        ensures
            json_view(final(self).settings) == spec_set_path(
                json_view(old(self).settings),
                open_tabs_path(),
                json_view(encoded),
            ),
            final(self).master_password == old(self).master_password,
    {
        set_nested_json_value(&mut self.settings, &["ui", "open_tabs"], encoded);
    }

    /// The stored terminal window layout, encoded; `None` when none is
    /// stored.
    pub fn load_terminal_window_layout(&self) -> (r: Option<&JsonValue>)
        ensures
            found_view(r) == spec_stored_value(
                json_view(self.settings),
                terminal_window_layout_path(),
            ),
    {
        stored_value(&self.settings, &["ui", "terminal_window_layout"])
    }

    /// Stores the terminal window layout, encoded, or null for none.
    pub fn save_terminal_window_layout(&mut self, layout: Option<JsonValue>)
        ensures
            json_view(final(self).settings) == spec_set_path(
                json_view(old(self).settings),
                terminal_window_layout_path(),
                layout_view(layout),
            ),
            final(self).master_password == old(self).master_password,
    {
        let encoded = match layout {
            Some(v) => v,
            None => JsonValue::Null,
        };
        set_nested_json_value(&mut self.settings, &["ui", "terminal_window_layout"], encoded);
    }

    /// The stored workspace pane layout, encoded; `None` when none is
    /// stored.
    pub fn load_workspace_pane_layout(&self) -> (r: Option<&JsonValue>)
        ensures
            found_view(r) == spec_stored_value(
                json_view(self.settings),
                workspace_pane_layout_path(),
            ),
    {
        stored_value(&self.settings, &["ui", "workspace_pane_layout"])
    }

    /// Stores the workspace pane layout, encoded, or null for none.
    pub fn save_workspace_pane_layout(&mut self, layout: Option<JsonValue>)
        ensures
            json_view(final(self).settings) == spec_set_path(
                json_view(old(self).settings),
                workspace_pane_layout_path(),
                layout_view(layout),
            ),
            final(self).master_password == old(self).master_password,
    {
        let encoded = match layout {
            Some(v) => v,
            None => JsonValue::Null,
        };
        set_nested_json_value(&mut self.settings, &["ui", "workspace_pane_layout"], encoded);
    }
}

/// What is stored at a place is what the next load there finds: the value
/// itself, or nothing when null was stored.
pub proof fn lemma_stored_layout_reads_back(doc: JsonModel, path: Seq<Seq<char>>, stored: JsonModel)
    ensures
        spec_stored_value(spec_set_path(doc, path, stored), path) == (if stored is Null {
            None
        } else {
            Some(stored)
        }),
{
    lemma_set_path_then_read(doc, path, stored);
}

} // verus!

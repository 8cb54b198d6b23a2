//! The summary of every application setting, read from the settings
//! document: each value as stored when it is valid, and its default where it
//! is missing or out of range.

use vstd::prelude::*;

use crate::settings::json::{
    counts_view, json_bool, json_optional_string, json_path, json_string, json_string_map,
    json_string_vec, json_string_vec_map, json_string_vec_with_default, json_u16, json_u32,
    json_u32_map, json_u64, json_view, list_pairs_view, pairs_view, spec_json_bool,
    spec_json_optional_string, spec_json_path, spec_json_string, spec_json_string_map,
    spec_json_string_vec, spec_json_string_vec_map, spec_json_string_vec_with_default,
    spec_json_u16, spec_json_u32, spec_json_u32_map, spec_json_u64, spec_keys, strings_view,
    ContrastRatio, JsonModel, JsonNumber, JsonValue,
};
use crate::settings::links::{
    engines_view, load_action_links_matchers, load_search_engines, spec_action_links_matchers,
    spec_search_engines, ActionLinksMatcherSettings, SearchEngineConfig,
};
use crate::settings::normalize::{
    normalize_asset_sort_direction, normalize_header_status_mode, normalize_host_key_policy,
    normalize_interaction_encoding, normalize_keep_alive_mode, normalize_quick_cmd_sort_mode,
    normalize_quick_cmd_view_mode, normalize_saved_connections_sort_mode,
    normalize_start_workspace_mode, normalize_tab_mouse_action, normalize_timestamp_format,
    normalize_transfer_duplicate_strategy, normalize_transfer_editor_type,
    normalize_transfer_file_permissions, opt_view, pick, spec_asset_sort_direction,
    spec_header_status_setting, spec_host_key_policy, spec_interaction_encoding,
    spec_keep_alive_mode, spec_pick, spec_quick_cmd_sort_mode, spec_quick_cmd_view_mode,
    spec_saved_connections_sort_mode, spec_start_workspace_mode, spec_tab_mouse_action,
    spec_timestamp_format, spec_transfer_duplicate_strategy, spec_transfer_editor_type,
    spec_transfer_file_permissions, DEFAULT_TERMINAL_TIMESTAMP_FORMAT,
};
use crate::settings::recording::{
    load_existing_file_behavior, load_recording_mode, load_recording_rotation,
    normalize_recording_path_template, spec_existing_file_behavior, spec_recording_mode,
    spec_recording_path_template, spec_recording_rotation, ExistingFileBehavior, RecordingMode,
    RecordingRotationPolicy, DEFAULT_RECORDING_PATH_TEMPLATE,
};
use crate::text::spec_trim;

verus! {

/// The characters that end a word when a double click selects one.
pub const DEFAULT_WORD_SEPARATORS: &'static str = " \t\r\n\"'`~!@#$%^&*()-=+[{]}\\|;:,<.>/?";

/// How much of a recording is held in memory before it is written: 5 MiB.
pub const DEFAULT_RECORDING_MEMORY_LIMIT_BYTES: u64 = 5242880;

/// `v` brought into `lo..=hi`.
pub open spec fn spec_clamp(v: int, lo: int, hi: int) -> int {
    if v < lo {
        lo
    } else if v > hi {
        hi
    } else {
        v
    }
}

/// `v` brought into `lo..=hi`.
pub fn clamp_u32(v: u32, lo: u32, hi: u32) -> (r: u32)
    requires
        lo <= hi,
    ensures
        r == spec_clamp(v as int, lo as int, hi as int),
{
    if v < lo {
        lo
    } else if v > hi {
        hi
    } else {
        v
    }
}

/// `v` brought into `lo..=hi`.
pub fn clamp_u16(v: u16, lo: u16, hi: u16) -> (r: u16)
    requires
        lo <= hi,
    ensures
        r == spec_clamp(v as int, lo as int, hi as int),
{
    if v < lo {
        lo
    } else if v > hi {
        hi
    } else {
        v
    }
}

/// An opacity in percent: a fraction up to 1 is scaled to a percentage, a
/// larger number is a percentage already; at most 100, and `fallback` when
/// the setting is not a number.
pub open spec fn spec_opacity(doc: JsonModel, path: Seq<Seq<char>>, fallback: u8) -> u8 {
    match spec_json_path(doc, path) {
        Some(JsonModel::Number(JsonNumber::PosInt(n))) => if n == 0 {
            0
        } else if n == 1 {
            100
        } else if n > 100 {
            100
        } else {
            n as u8
        },
        Some(JsonModel::Number(JsonNumber::NegInt(_))) => 0,
        Some(JsonModel::Number(JsonNumber::Float(f))) => if f.percent > 100 {
            100
        } else {
            f.percent
        },
        _ => fallback,
    }
}

/// Reads an opacity setting in percent.
pub fn opacity_setting(doc: &JsonValue, path: &[&str], fallback: u8) -> (r: u8)
    requires
        fallback <= 100,
    ensures
        r == spec_opacity(json_view(*doc), spec_keys(path@), fallback),
        r <= 100,
{
    match json_path(doc, path) {
        Some(JsonValue::Number(JsonNumber::PosInt(n))) => if *n == 0 {
            0
        } else if *n == 1 {
            100
        } else if *n > 100 {
            100
        } else {
            *n as u8
        },
        Some(JsonValue::Number(JsonNumber::NegInt(_))) => 0,
        Some(JsonValue::Number(JsonNumber::Float(f))) => if f.percent > 100 {
            100
        } else {
            f.percent
        },
        _ => fallback,
    }
}

/// The contrast ratio that a stored value is exactly, as a number or as
/// text that reads as one.
pub open spec fn spec_contrast_ratio_of(v: JsonModel) -> Option<ContrastRatio> {
    match v {
        JsonModel::Number(JsonNumber::PosInt(n)) => if n == 1 {
            Some(ContrastRatio::One)
        } else if n == 3 {
            Some(ContrastRatio::Three)
        } else if n == 7 {
            Some(ContrastRatio::Seven)
        } else if n == 21 {
            Some(ContrastRatio::TwentyOne)
        } else {
            None
        },
        JsonModel::Number(JsonNumber::Float(f)) => f.contrast,
        JsonModel::Str(_, Some(f)) => f.contrast,
        _ => None,
    }
}

/// The name of a contrast ratio; `1` when there is none.
pub open spec fn spec_contrast_name(c: Option<ContrastRatio>) -> Seq<char> {
    match c {
        Some(ContrastRatio::One) => "1"@,
        Some(ContrastRatio::Three) => "3"@,
        Some(ContrastRatio::FourAndAHalf) => "4.5"@,
        Some(ContrastRatio::Seven) => "7"@,
        Some(ContrastRatio::TwentyOne) => "21"@,
        None => "1"@,
    }
}

/// The minimum contrast ratio: `1`, `3`, `4.5`, `7` or `21` when the setting
/// is exactly one of them, else `1`.
pub open spec fn spec_contrast_setting(doc: JsonModel) -> Seq<char> {
    match spec_json_path(doc, spec_keys(seq!["appearance", "minimum_contrast_ratio"])) {
        Some(v) => spec_contrast_name(spec_contrast_ratio_of(v)),
        None => "1"@,
    }
}

/// The name of a contrast ratio; `1` when there is none.
pub fn contrast_name(c: Option<ContrastRatio>) -> (r: String)
    ensures
        r@ == spec_contrast_name(c),
{
    match c {
        Some(ContrastRatio::One) => String::from_str("1"),
        Some(ContrastRatio::Three) => String::from_str("3"),
        Some(ContrastRatio::FourAndAHalf) => String::from_str("4.5"),
        Some(ContrastRatio::Seven) => String::from_str("7"),
        Some(ContrastRatio::TwentyOne) => String::from_str("21"),
        None => String::from_str("1"),
    }
}

/// Reads the minimum contrast ratio.
pub fn contrast_setting(doc: &JsonValue) -> (r: String)
    ensures
        r@ == spec_contrast_setting(json_view(*doc)),
{
    let ratio = match json_path(doc, &["appearance", "minimum_contrast_ratio"]) {
        Some(JsonValue::Number(JsonNumber::PosInt(n))) => if *n == 1 {
            Some(ContrastRatio::One)
        } else if *n == 3 {
            Some(ContrastRatio::Three)
        } else if *n == 7 {
            Some(ContrastRatio::Seven)
        } else if *n == 21 {
            Some(ContrastRatio::TwentyOne)
        } else {
            None
        },
        Some(JsonValue::Number(JsonNumber::Float(f))) => f.contrast,
        Some(JsonValue::Str(t)) => match &t.as_float {
            Some(f) => f.contrast,
            None => None,
        },
        _ => None,
    };
    contrast_name(ratio)
}

/// A font weight: one of 300 to 800 in steps of 100, else `fallback`.
pub open spec fn spec_font_weight(w: u16, fallback: u16) -> u16 {
    if w == 300 || w == 400 || w == 500 || w == 600 || w == 700 || w == 800 {
        w
    } else {
        fallback
    }
}

/// Keeps a font weight that the font picker offers.
pub fn font_weight(w: u16, fallback: u16) -> (r: u16)
    ensures
        r == spec_font_weight(w, fallback),
{
    if w == 300 || w == 400 || w == 500 || w == 600 || w == 700 || w == 800 {
        w
    } else {
        fallback
    }
}

/// Log retention in days: 3, 7, 14 or 30, else 7.
pub open spec fn spec_retention_days(d: u16) -> u32 {
    if d == 3 || d == 7 || d == 14 || d == 30 {
        d as u32
    } else {
        7
    }
}

/// Keeps a log retention that the settings offer.
pub fn retention_days(d: u16) -> (r: u32)
    ensures
        r == spec_retention_days(d),
{
    if d == 3 || d == 7 || d == 14 || d == 30 {
        d as u32
    } else {
        7
    }
}

/// Whether a master password is stored: a non-empty string at
/// `security.master_password`.
pub open spec fn spec_has_master_password(doc: JsonModel) -> bool {
    match spec_json_path(doc, spec_keys(seq!["security", "master_password"])) {
        Some(JsonModel::Str(t, _)) => t.len() > 0,
        _ => false,
    }
}

/// Whether a master password is stored.
pub fn has_master_password(doc: &JsonValue) -> (r: bool)
    ensures
        r == spec_has_master_password(json_view(*doc)),
{
    match json_path(doc, &["security", "master_password"]) {
        Some(JsonValue::Str(t)) => !t.text.as_str().is_empty(),
        _ => false,
    }
}

/// The panel mode used when none is stored.
pub open spec fn spec_default_panel_open_mode() -> Seq<char> {
    "docked"@
}

/// The panel mode used when none is stored.
pub fn default_panel_open_mode() -> (r: String)
    ensures
        r@ == spec_default_panel_open_mode(),
{
    String::from_str("docked")
}

/// How side panels open: `docked` or `floating` (trimmed), else the default.
pub open spec fn spec_panel_open_mode(value: Seq<char>) -> Seq<char> {
    spec_pick(spec_trim(value), spec_keys(seq!["docked", "floating"]), spec_default_panel_open_mode())
}

/// Reads a stored panel mode.
pub fn normalize_panel_open_mode(value: &str) -> (r: String)
    ensures
        r@ == spec_panel_open_mode(value@),
{
    pick(crate::text::trim(value), &["docked", "floating"], "docked")
}

/// The stored panel mode, read as `normalize_panel_open_mode` reads it; the
/// default when none is stored.
pub open spec fn spec_panel_open_mode_setting(doc: JsonModel) -> Seq<char> {
    match spec_json_optional_string(doc, spec_keys(seq!["ui", "panel_open_mode"])) {
        Some(t) => spec_panel_open_mode(t),
        None => spec_panel_open_mode(spec_default_panel_open_mode()),
    }
}

/// Reads the panel mode from the settings document.
pub fn panel_open_mode_setting(doc: &JsonValue) -> (r: String)
    ensures
        r@ == spec_panel_open_mode_setting(json_view(*doc)),
{
    let stored = match json_optional_string(doc, &["ui", "panel_open_mode"]) {
        Some(t) => t,
        None => default_panel_open_mode(),
    };
    normalize_panel_open_mode(stored.as_str())
}

/// The character sequences of string literals.
pub open spec fn texts(v: Seq<&str>) -> Seq<Seq<char>> {
    spec_keys(v)
}

/// A list of strings made from literals.
pub fn strings_of(v: &[&str]) -> (r: Vec<String>)
    ensures
        strings_view(r@) == texts(v@),
{
    let mut r: Vec<String> = Vec::new();
    let mut i: usize = 0;
    while i < v.len()
        invariant
            i <= v@.len(),
            strings_view(r@) == texts(v@.take(i as int)),
        decreases v@.len() - i,
    {
        let ghost prev = r@;
        r.push(String::from_str(v[i]));
        assert(strings_view(r@) =~= strings_view(prev).push(v@[i as int]@));
        assert(texts(v@.take(i + 1)) =~= texts(v@.take(i as int)).push(v@[i as int]@));
        i += 1;
    }
    assert(v@.take(v@.len() as int) =~= v@);
    r
}

/// The panels in the upper part of the left activity bar by default.
pub open spec fn spec_default_activity_left_top() -> Seq<Seq<char>> {
    texts(seq!["fileExplorer", "notes", "network", "securityAuth"])
}

/// The panels in the lower part of the left activity bar by default.
pub open spec fn spec_default_activity_left_bottom() -> Seq<Seq<char>> {
    texts(seq!["syncBackupHistory", "settings"])
}

/// The panels in the upper part of the right activity bar by default.
pub open spec fn spec_default_activity_right_top() -> Seq<Seq<char>> {
    texts(
        seq![
            "savedConnections",
            "aiAssistant",
            "activeSessions",
            "commandHistory",
            "resourceMonitor",
            "processManager",
            "dockerManager",
        ],
    )
}

/// The panels in the lower part of the right activity bar by default.
pub open spec fn spec_default_activity_right_bottom() -> Seq<Seq<char>> {
    texts(seq!["quickCmdBar", "serialSend", "recording", "lock"])
}

/// The panels in the upper part of the left activity bar by default.
pub fn default_activity_left_top() -> (r: Vec<String>)
    ensures
        strings_view(r@) == spec_default_activity_left_top(),
{
    strings_of(&["fileExplorer", "notes", "network", "securityAuth"])
}

/// The panels in the lower part of the left activity bar by default.
pub fn default_activity_left_bottom() -> (r: Vec<String>)
    ensures
        strings_view(r@) == spec_default_activity_left_bottom(),
{
    strings_of(&["syncBackupHistory", "settings"])
}

/// The panels in the upper part of the right activity bar by default.
pub fn default_activity_right_top() -> (r: Vec<String>)
    ensures
        strings_view(r@) == spec_default_activity_right_top(),
{
    strings_of(
        &[
            "savedConnections",
            "aiAssistant",
            "activeSessions",
            "commandHistory",
            "resourceMonitor",
            "processManager",
            "dockerManager",
        ],
    )
}

/// The panels in the lower part of the right activity bar by default.
pub fn default_activity_right_bottom() -> (r: Vec<String>)
    ensures
        strings_view(r@) == spec_default_activity_right_bottom(),
{
    strings_of(&["quickCmdBar", "serialSend", "recording", "lock"])
}

/// Every application setting, as the rest of the application reads it.
pub struct AppSettingsSummary {
    pub theme: String,
    pub background_image_path: Option<String>,
    pub background_image_fit: String,
    pub background_image_opacity: u8,
    pub background_content_opacity: u8,
    pub language: String,
    pub terminal_font_family: String,
    pub terminal_font_size: u16,
    pub cursor_style: String,
    pub cursor_blink: bool,
    pub terminal_theme: Option<String>,
    pub minimum_contrast_ratio: String,
    pub ui_font_family: String,
    pub ui_font_size: u16,
    pub terminal_font_weight: u16,
    pub terminal_font_weight_bold: u16,
    pub x11_display: String,
    pub terminal_scrollback_lines: u32,
    pub terminal_keep_alive_mode: String,
    pub terminal_keep_alive_interval: u32,
    pub terminal_timestamp_format: String,
    pub terminal_hardware_acceleration: bool,
    pub terminal_show_workspace_padding: bool,
    pub terminal_show_line_numbers: bool,
    pub terminal_show_timestamps: bool,
    pub terminal_show_multi_line_paste_dialog: bool,
    pub terminal_paste_image_as_path: bool,
    pub terminal_reconnect_restore_cwd: bool,
    pub terminal_low_latency_mode: bool,
    pub terminal_zebra_stripes_enabled: bool,
    pub terminal_action_links_enabled: bool,
    pub terminal_action_links_matchers: ActionLinksMatcherSettings,
    pub search_custom_engines: Vec<SearchEngineConfig>,
    pub ui_show_notes_panel: bool,
    pub ui_show_remote_stats: bool,
    pub ui_remote_stats_interval: u32,
    pub ui_show_gpu_monitor: bool,
    pub ui_gpu_monitor_interval: u32,
    pub ui_show_ascend_npu_monitor: bool,
    pub ui_ascend_npu_monitor_interval: u32,
    pub ui_show_process_manager: bool,
    pub ui_process_manager_interval: u32,
    pub ui_show_docker_manager: bool,
    pub ui_docker_manager_interval: u32,
    pub ui_quick_cmd_view_mode: String,
    pub ui_quick_cmd_sort_mode: String,
    pub ui_saved_connections_sort_mode: String,
    pub ui_saved_connections_expanded_group_ids: Vec<String>,
    pub ui_start_workspace_mode: String,
    pub ui_asset_sort_key: Option<String>,
    pub ui_asset_sort_direction: Option<String>,
    pub ui_header_status_mode: String,
    pub ui_header_status_visible: bool,
    pub ui_file_explorer_show_hidden_files: bool,
    pub ui_file_explorer_auto_sync_cwd_connection_ids: Vec<String>,
    pub ui_file_explorer_favorite_dirs_by_connection_id: Vec<(String, Vec<String>)>,
    pub ui_left_panel_width: u32,
    pub ui_right_panel_width: u32,
    pub ui_transfer_height: u32,
    pub ui_quick_cmd_height: u32,
    pub ui_quick_cmd_visible: bool,
    pub ui_serial_send_height: u32,
    pub ui_serial_send_visible: bool,
    pub ui_active_left_panel: Option<String>,
    pub ui_active_right_panel: Option<String>,
    pub ui_left_panel_collapsed: bool,
    pub ui_right_panel_collapsed: bool,
    pub ui_activity_bar_left_top: Vec<String>,
    pub ui_activity_bar_left_bottom: Vec<String>,
    pub ui_activity_bar_right_top: Vec<String>,
    pub ui_activity_bar_right_bottom: Vec<String>,
    pub ui_activity_bar_show_labels: bool,
    pub ui_activity_bar_hidden_items: Vec<String>,
    pub ui_panel_multi_open: bool,
    pub ui_panel_open_mode: String,
    pub ui_left_open_panels: Vec<String>,
    pub ui_right_open_panels: Vec<String>,
    pub ui_panel_stack_sizes: Vec<(String, u32)>,
    pub interaction_copy_on_select: bool,
    pub interaction_allow_osc52_clipboard_write: bool,
    pub interaction_right_click_paste: bool,
    pub interaction_terminal_zoom_enabled: bool,
    pub interaction_command_suggestions_enabled: bool,
    pub interaction_command_suggestion_min_chars: u32,
    pub interaction_command_suggestion_max_chars: u32,
    pub interaction_word_separators: String,
    pub interaction_duplicate_session_command_delay_ms: u32,
    pub interaction_alt_as_meta: bool,
    pub interaction_mac_ime_compatibility: bool,
    pub interaction_tab_double_click_action: String,
    pub interaction_tab_middle_click_action: String,
    pub interaction_tab_right_click_action: String,
    pub interaction_default_encoding: String,
    pub host_key_policy: String,
    pub transfer_download_path: String,
    pub transfer_ask_save_location: bool,
    pub transfer_duplicate_strategy: String,
    pub transfer_editor_type: String,
    pub transfer_internal_editor_font_size: u16,
    pub transfer_default_editor: String,
    pub transfer_download_threads: u32,
    pub transfer_upload_threads: u32,
    pub transfer_max_retries: u32,
    pub transfer_buffer_size: u32,
    pub transfer_default_file_permissions: String,
    pub transfer_preserve_timestamps: bool,
    pub transfer_resume_broken_transfer: bool,
    pub recording_path: String,
    pub recording_auto_start: bool,
    pub recording_default_mode: RecordingMode,
    pub recording_path_template: String,
    pub recording_include_io_labels: bool,
    pub recording_include_timestamps: bool,
    pub recording_include_session_metadata: bool,
    pub recording_rotation: RecordingRotationPolicy,
    pub recording_existing_file_behavior: ExistingFileBehavior,
    pub recording_include_binary_transfer_payloads: bool,
    pub recording_memory_limit_bytes: u64,
    pub diagnostics_level: String,
    pub diagnostics_retention_days: u32,
    pub startup_restore: bool,
    pub startup_restore_window_layout: bool,
    pub minimize_to_tray: bool,
    pub confirm_on_close: bool,
    pub enable_screen_lock: bool,
    pub idle_lock_minutes: u32,
    pub has_master_password: bool,
    pub keybindings: Vec<(String, String)>,
}

/// Whether `s` holds exactly what the settings document `d` says: each
/// setting read at its path, checked and defaulted as its field's reader does.
pub open spec fn is_summary_of(s: AppSettingsSummary, d: JsonModel) -> bool {
    &&& s.theme@ == spec_json_string(d, spec_keys(seq!["appearance", "theme"]), "github-dark"@)
    &&& opt_view(s.background_image_path) == spec_json_optional_string(d, spec_keys(seq!["appearance", "background_image_path"]))
    &&& s.background_image_fit@ == spec_json_string(d, spec_keys(seq!["appearance", "background_image_fit"]), "cover"@)
    &&& s.background_image_opacity == spec_opacity(d, spec_keys(seq!["appearance", "background_image_opacity"]), 45)
    &&& s.background_content_opacity == spec_opacity(d, spec_keys(seq!["appearance", "background_opacity"]), 82)
    &&& s.language@ == spec_json_string(d, spec_keys(seq!["ui", "language"]), "en"@)
    &&& s.terminal_font_family@ == spec_json_string(d, spec_keys(seq!["appearance", "font_family"]), "JetBrains Mono"@)
    &&& s.terminal_font_size == spec_json_u16(d, spec_keys(seq!["appearance", "font_size"]), 16)
    &&& s.cursor_style@ == spec_pick(spec_json_string(d, spec_keys(seq!["appearance", "cursor_style"]), "block"@), spec_keys(seq!["underline", "bar", "block"]), "block"@)
    &&& s.cursor_blink == spec_json_bool(d, spec_keys(seq!["appearance", "cursor_blink"]), true)
    &&& opt_view(s.terminal_theme) == spec_json_optional_string(d, spec_keys(seq!["appearance", "terminal_theme"]))
    &&& s.minimum_contrast_ratio@ == spec_contrast_setting(d)
    &&& s.ui_font_family@ == spec_json_string(d, spec_keys(seq!["appearance", "ui_font_family"]), "Inter"@)
    &&& s.ui_font_size == spec_clamp(spec_json_u16(d, spec_keys(seq!["appearance", "ui_font_size"]), 16) as int, 12, 24)
    &&& s.terminal_font_weight == spec_font_weight(spec_json_u16(d, spec_keys(seq!["appearance", "font_weight"]), 400), 400)
    &&& s.terminal_font_weight_bold == spec_font_weight(spec_json_u16(d, spec_keys(seq!["appearance", "font_weight_bold"]), 700), 700)
    &&& s.x11_display@ == spec_json_string(d, spec_keys(seq!["terminal", "x11_display"]), ""@)
    &&& s.terminal_scrollback_lines == spec_clamp(spec_json_u32(d, spec_keys(seq!["terminal", "scrollback_lines"]), 5000) as int, 100, 100000)
    &&& s.terminal_keep_alive_mode@ == spec_keep_alive_mode(spec_json_string(d, spec_keys(seq!["terminal", "keep_alive_mode"]), "compatible"@))
    &&& s.terminal_keep_alive_interval == spec_clamp(spec_json_u32(d, spec_keys(seq!["terminal", "keep_alive_interval"]), 30) as int, 0, 600)
    &&& s.terminal_timestamp_format@ == spec_timestamp_format(spec_json_string(d, spec_keys(seq!["terminal", "timestamp_format"]), DEFAULT_TERMINAL_TIMESTAMP_FORMAT@))
    &&& s.terminal_hardware_acceleration == spec_json_bool(d, spec_keys(seq!["terminal", "hardware_acceleration"]), true)
    &&& s.terminal_show_workspace_padding == spec_json_bool(d, spec_keys(seq!["terminal", "show_workspace_padding"]), false)
    &&& s.terminal_show_line_numbers == spec_json_bool(d, spec_keys(seq!["terminal", "show_line_numbers"]), false)
    &&& s.terminal_show_timestamps == spec_json_bool(d, spec_keys(seq!["terminal", "show_timestamps"]), false)
    &&& s.terminal_show_multi_line_paste_dialog == spec_json_bool(d, spec_keys(seq!["terminal", "show_multi_line_paste_dialog"]), true)
    &&& s.terminal_paste_image_as_path == spec_json_bool(d, spec_keys(seq!["terminal", "paste_image_as_path"]), true)
    &&& s.terminal_reconnect_restore_cwd == spec_json_bool(d, spec_keys(seq!["terminal", "reconnect_restore_cwd"]), false)
    &&& s.terminal_low_latency_mode == spec_json_bool(d, spec_keys(seq!["terminal", "low_latency_mode"]), false)
    &&& s.terminal_zebra_stripes_enabled == spec_json_bool(d, spec_keys(seq!["terminal", "zebra_stripes_enabled"]), true)
    &&& s.terminal_action_links_enabled == spec_json_bool(d, spec_keys(seq!["terminal", "action_links_enabled"]), false)
    &&& s.terminal_action_links_matchers == spec_action_links_matchers(d)
    &&& engines_view(s.search_custom_engines@) == spec_search_engines(d)
    &&& s.ui_show_notes_panel == spec_json_bool(d, spec_keys(seq!["ui", "show_notes_panel"]), true)
    &&& s.ui_show_remote_stats == spec_json_bool(d, spec_keys(seq!["ui", "show_remote_stats"]), true)
    &&& s.ui_remote_stats_interval == spec_clamp(spec_json_u32(d, spec_keys(seq!["ui", "remote_stats_interval"]), 3) as int, 1, 60)
    &&& s.ui_show_gpu_monitor == spec_json_bool(d, spec_keys(seq!["ui", "show_gpu_monitor"]), false)
    &&& s.ui_gpu_monitor_interval == spec_clamp(spec_json_u32(d, spec_keys(seq!["ui", "gpu_monitor_interval"]), 3) as int, 3, 120)
    &&& s.ui_show_ascend_npu_monitor == spec_json_bool(d, spec_keys(seq!["ui", "show_ascend_npu_monitor"]), false)
    &&& s.ui_ascend_npu_monitor_interval == spec_clamp(spec_json_u32(d, spec_keys(seq!["ui", "ascend_npu_monitor_interval"]), 3) as int, 3, 120)
    &&& s.ui_show_process_manager == spec_json_bool(d, spec_keys(seq!["ui", "show_process_manager"]), true)
    &&& s.ui_process_manager_interval == spec_clamp(spec_json_u32(d, spec_keys(seq!["ui", "process_manager_interval"]), 5) as int, 3, 120)
    &&& s.ui_show_docker_manager == spec_json_bool(d, spec_keys(seq!["ui", "show_docker_manager"]), true)
    &&& s.ui_docker_manager_interval == spec_clamp(spec_json_u32(d, spec_keys(seq!["ui", "docker_manager_interval"]), 10) as int, 3, 120)
    &&& s.ui_quick_cmd_view_mode@ == spec_quick_cmd_view_mode(spec_json_string(d, spec_keys(seq!["ui", "quick_cmd_view_mode"]), "tile"@))
    &&& s.ui_quick_cmd_sort_mode@ == spec_quick_cmd_sort_mode(spec_json_string(d, spec_keys(seq!["ui", "quick_cmd_sort_mode"]), "created"@))
    &&& s.ui_saved_connections_sort_mode@ == spec_saved_connections_sort_mode(spec_json_string(d, spec_keys(seq!["ui", "saved_connections_sort_mode"]), "default"@))
    &&& strings_view(s.ui_saved_connections_expanded_group_ids@) == spec_json_string_vec(d, spec_keys(seq!["ui", "saved_connections_expanded_group_ids"]), 512)
    &&& s.ui_start_workspace_mode@ == spec_start_workspace_mode(spec_json_string(d, spec_keys(seq!["ui", "start_workspace_mode"]), "workbench"@))
    &&& opt_view(s.ui_asset_sort_key) == spec_json_optional_string(d, spec_keys(seq!["ui", "asset_sort_key"]))
    &&& opt_view(s.ui_asset_sort_direction) == spec_asset_sort_direction(spec_json_optional_string(d, spec_keys(seq!["ui", "asset_sort_direction"])))
    &&& s.ui_header_status_mode@ == spec_header_status_setting(spec_json_string(d, spec_keys(seq!["ui", "header_status_mode"]), "session"@))
    &&& s.ui_header_status_visible == spec_json_bool(d, spec_keys(seq!["ui", "header_status_visible"]), true)
    &&& s.ui_file_explorer_show_hidden_files == spec_json_bool(d, spec_keys(seq!["ui", "file_explorer_show_hidden_files"]), true)
    &&& strings_view(s.ui_file_explorer_auto_sync_cwd_connection_ids@) == spec_json_string_vec(d, spec_keys(seq!["ui", "file_explorer_auto_sync_cwd_connection_ids"]), 256)
    &&& list_pairs_view(s.ui_file_explorer_favorite_dirs_by_connection_id@) == spec_json_string_vec_map(d, spec_keys(seq!["ui", "file_explorer_favorite_dirs_by_connection_id"]), 12)
    &&& s.ui_left_panel_width == spec_clamp(spec_json_u32(d, spec_keys(seq!["ui", "left_width"]), 256) as int, 160, 720)
    &&& s.ui_right_panel_width == spec_clamp(spec_json_u32(d, spec_keys(seq!["ui", "right_width"]), 288) as int, 200, 720)
    &&& s.ui_transfer_height == spec_clamp(spec_json_u32(d, spec_keys(seq!["ui", "transfer_height"]), 180) as int, 60, 600)
    &&& s.ui_quick_cmd_height == spec_clamp(spec_json_u32(d, spec_keys(seq!["ui", "quick_cmd_height"]), 180) as int, 36, 520)
    &&& s.ui_quick_cmd_visible == spec_json_bool(d, spec_keys(seq!["ui", "show_quick_cmd_bar"]), true)
    &&& s.ui_serial_send_height == spec_clamp(spec_json_u32(d, spec_keys(seq!["ui", "serial_send_height"]), 180) as int, 60, 520)
    &&& s.ui_serial_send_visible == spec_json_bool(d, spec_keys(seq!["ui", "show_serial_send_panel"]), false)
    &&& opt_view(s.ui_active_left_panel) == spec_json_optional_string(d, spec_keys(seq!["ui", "active_left_panel"]))
    &&& opt_view(s.ui_active_right_panel) == spec_json_optional_string(d, spec_keys(seq!["ui", "active_right_panel"]))
    &&& s.ui_left_panel_collapsed == spec_json_bool(d, spec_keys(seq!["ui", "left_panel_collapsed"]), false)
    &&& s.ui_right_panel_collapsed == spec_json_bool(d, spec_keys(seq!["ui", "right_panel_collapsed"]), false)
    &&& strings_view(s.ui_activity_bar_left_top@) == spec_json_string_vec_with_default(d, spec_keys(seq!["ui", "activity_bar_layout", "left_top"]), 32, spec_default_activity_left_top())
    &&& strings_view(s.ui_activity_bar_left_bottom@) == spec_json_string_vec_with_default(d, spec_keys(seq!["ui", "activity_bar_layout", "left_bottom"]), 32, spec_default_activity_left_bottom())
    &&& strings_view(s.ui_activity_bar_right_top@) == spec_json_string_vec_with_default(d, spec_keys(seq!["ui", "activity_bar_layout", "right_top"]), 32, spec_default_activity_right_top())
    &&& strings_view(s.ui_activity_bar_right_bottom@) == spec_json_string_vec_with_default(d, spec_keys(seq!["ui", "activity_bar_layout", "right_bottom"]), 32, spec_default_activity_right_bottom())
    &&& s.ui_activity_bar_show_labels == spec_json_bool(d, spec_keys(seq!["ui", "activity_bar_layout", "show_labels"]), false)
    &&& strings_view(s.ui_activity_bar_hidden_items@) == spec_json_string_vec(d, spec_keys(seq!["ui", "activity_bar_layout", "hidden_items"]), 64)
    &&& s.ui_panel_multi_open == (spec_json_bool(d, spec_keys(seq!["appearance", "panel_multi_open"]), false) || spec_json_bool(d, spec_keys(seq!["ui", "panel_multi_open"]), false))
    &&& s.ui_panel_open_mode@ == spec_panel_open_mode_setting(d)
    &&& strings_view(s.ui_left_open_panels@) == spec_json_string_vec(d, spec_keys(seq!["ui", "left_open_panels"]), 32)
    &&& strings_view(s.ui_right_open_panels@) == spec_json_string_vec(d, spec_keys(seq!["ui", "right_open_panels"]), 32)
    &&& counts_view(s.ui_panel_stack_sizes@) == spec_json_u32_map(d, spec_keys(seq!["ui", "panel_stack_sizes"]))
    &&& s.interaction_copy_on_select == spec_json_bool(d, spec_keys(seq!["interaction", "copy_on_select"]), false)
    &&& s.interaction_allow_osc52_clipboard_write == spec_json_bool(d, spec_keys(seq!["interaction", "allow_osc52_clipboard_write"]), false)
    &&& s.interaction_right_click_paste == spec_json_bool(d, spec_keys(seq!["interaction", "right_click_paste"]), false)
    &&& s.interaction_terminal_zoom_enabled == spec_json_bool(d, spec_keys(seq!["interaction", "terminal_zoom_enabled"]), true)
    &&& s.interaction_command_suggestions_enabled == spec_json_bool(d, spec_keys(seq!["interaction", "command_suggestions_enabled"]), true)
    &&& s.interaction_command_suggestion_min_chars == spec_clamp(spec_json_u32(d, spec_keys(seq!["interaction", "command_suggestion_min_chars"]), 2) as int, 1, 500)
    &&& s.interaction_command_suggestion_max_chars == spec_clamp(spec_json_u32(d, spec_keys(seq!["interaction", "command_suggestion_max_chars"]), 64) as int, 1, 500)
    &&& s.interaction_word_separators@ == spec_json_string(d, spec_keys(seq!["interaction", "word_separators"]), DEFAULT_WORD_SEPARATORS@)
    &&& s.interaction_duplicate_session_command_delay_ms == spec_clamp(spec_json_u32(d, spec_keys(seq!["interaction", "duplicate_session_command_delay_ms"]), 1000) as int, 0, 60000)
    &&& s.interaction_alt_as_meta == spec_json_bool(d, spec_keys(seq!["interaction", "alt_as_meta"]), false)
    &&& s.interaction_mac_ime_compatibility == spec_json_bool(d, spec_keys(seq!["interaction", "mac_ime_compatibility"]), true)
    &&& s.interaction_tab_double_click_action@ == spec_tab_mouse_action(spec_json_string(d, spec_keys(seq!["interaction", "tab_double_click_action"]), "disconnect_session"@))
    &&& s.interaction_tab_middle_click_action@ == spec_tab_mouse_action(spec_json_string(d, spec_keys(seq!["interaction", "tab_middle_click_action"]), "rename_tab"@))
    &&& s.interaction_tab_right_click_action@ == spec_tab_mouse_action(spec_json_string(d, spec_keys(seq!["interaction", "tab_right_click_action"]), "none"@))
    &&& s.interaction_default_encoding@ == spec_interaction_encoding(spec_json_string(d, spec_keys(seq!["interaction", "default_encoding"]), "UTF-8"@))
    &&& s.host_key_policy@ == spec_host_key_policy(spec_json_string(d, spec_keys(seq!["security", "host_key_policy"]), "prompt"@))
    &&& s.transfer_download_path@ == spec_json_string(d, spec_keys(seq!["transfer", "download_path"]), ""@)
    &&& s.transfer_ask_save_location == spec_json_bool(d, spec_keys(seq!["transfer", "ask_save_location"]), false)
    &&& s.transfer_duplicate_strategy@ == spec_transfer_duplicate_strategy(spec_json_string(d, spec_keys(seq!["transfer", "duplicate_strategy"]), "ask"@))
    &&& s.transfer_editor_type@ == spec_transfer_editor_type(spec_json_string(d, spec_keys(seq!["transfer", "editor_type"]), "external"@))
    &&& s.transfer_internal_editor_font_size == spec_clamp(spec_json_u16(d, spec_keys(seq!["transfer", "internal_editor_font_size"]), 13) as int, 8, 72)
    &&& s.transfer_default_editor@ == spec_json_string(d, spec_keys(seq!["transfer", "default_editor"]), ""@)
    &&& s.transfer_download_threads == spec_clamp(spec_json_u32(d, spec_keys(seq!["transfer", "download_threads"]), 3) as int, 1, 10)
    &&& s.transfer_upload_threads == spec_clamp(spec_json_u32(d, spec_keys(seq!["transfer", "upload_threads"]), 3) as int, 1, 10)
    &&& s.transfer_max_retries == spec_clamp(spec_json_u32(d, spec_keys(seq!["transfer", "max_transfer_retries"]), 2) as int, 0, 10)
    &&& s.transfer_buffer_size == spec_clamp(spec_json_u32(d, spec_keys(seq!["transfer", "transfer_buffer_size"]), 32) as int, 8, 256)
    &&& s.transfer_default_file_permissions@ == spec_transfer_file_permissions(spec_json_string(d, spec_keys(seq!["transfer", "default_file_permissions"]), "644"@))
    &&& s.transfer_preserve_timestamps == spec_json_bool(d, spec_keys(seq!["transfer", "preserve_timestamps"]), true)
    &&& s.transfer_resume_broken_transfer == spec_json_bool(d, spec_keys(seq!["transfer", "resume_broken_transfer"]), true)
    &&& s.recording_path@ == spec_json_string(d, spec_keys(seq!["recording", "base_path"]), ""@)
    &&& s.recording_auto_start == spec_json_bool(d, spec_keys(seq!["recording", "auto_start"]), false)
    &&& s.recording_default_mode == spec_recording_mode(d)
    &&& s.recording_path_template@ == spec_recording_path_template(spec_json_string(d, spec_keys(seq!["recording", "path_template"]), DEFAULT_RECORDING_PATH_TEMPLATE@))
    &&& s.recording_include_io_labels == spec_json_bool(d, spec_keys(seq!["recording", "include_io_labels"]), true)
    &&& s.recording_include_timestamps == spec_json_bool(d, spec_keys(seq!["recording", "include_timestamps"]), true)
    &&& s.recording_include_session_metadata == spec_json_bool(d, spec_keys(seq!["recording", "include_session_metadata"]), true)
    &&& s.recording_rotation == spec_recording_rotation(d)
    &&& s.recording_existing_file_behavior == spec_existing_file_behavior(d)
    &&& s.recording_include_binary_transfer_payloads == spec_json_bool(d, spec_keys(seq!["recording", "include_binary_transfer_payloads"]), false)
    &&& s.recording_memory_limit_bytes == spec_json_u64(d, spec_keys(seq!["recording", "memory_limit_bytes"]), DEFAULT_RECORDING_MEMORY_LIMIT_BYTES)
    &&& s.diagnostics_level@ == spec_pick(spec_json_string(d, spec_keys(seq!["diagnostics", "level"]), "info"@), spec_keys(seq!["warn", "debug"]), "info"@)
    &&& s.diagnostics_retention_days == spec_retention_days(spec_json_u16(d, spec_keys(seq!["diagnostics", "retention_days"]), 7))
    &&& s.startup_restore == spec_json_bool(d, spec_keys(seq!["general", "startup_restore"]), false)
    &&& s.startup_restore_window_layout == spec_json_bool(d, spec_keys(seq!["general", "startup_restore_window_layout"]), true)
    &&& s.minimize_to_tray == spec_json_bool(d, spec_keys(seq!["general", "minimize_to_tray"]), false)
    &&& s.confirm_on_close == spec_json_bool(d, spec_keys(seq!["general", "confirm_on_close"]), true)
    &&& s.enable_screen_lock == spec_json_bool(d, spec_keys(seq!["security", "enable_screen_lock"]), false)
    &&& s.idle_lock_minutes == spec_json_u16(d, spec_keys(seq!["security", "idle_lock_minutes"]), 0) as u32
    &&& s.has_master_password == spec_has_master_password(d)
    &&& pairs_view(s.keybindings@) == spec_json_string_map(d, spec_keys(seq!["keybindings"]))
}

/// Reads every setting from the settings document.
pub fn summary_from_document(doc: &JsonValue) -> (s: AppSettingsSummary)
    ensures
        is_summary_of(s, json_view(*doc)),
{
    let keybindings_path: [&str; 1] = ["keybindings"];
    assert(keybindings_path@ =~= seq!["keybindings"]);
    AppSettingsSummary {
        theme: json_string(doc, &["appearance", "theme"], "github-dark"),
        background_image_path: json_optional_string(doc, &["appearance", "background_image_path"]),
        background_image_fit: json_string(doc, &["appearance", "background_image_fit"], "cover"),
        background_image_opacity: opacity_setting(doc, &["appearance", "background_image_opacity"], 45),
        background_content_opacity: opacity_setting(doc, &["appearance", "background_opacity"], 82),
        language: json_string(doc, &["ui", "language"], "en"),
        terminal_font_family: json_string(doc, &["appearance", "font_family"], "JetBrains Mono"),
        terminal_font_size: json_u16(doc, &["appearance", "font_size"], 16),
        cursor_style: pick(json_string(doc, &["appearance", "cursor_style"], "block"), &["underline", "bar", "block"], "block"),
        cursor_blink: json_bool(doc, &["appearance", "cursor_blink"], true),
        terminal_theme: json_optional_string(doc, &["appearance", "terminal_theme"]),
        minimum_contrast_ratio: contrast_setting(doc),
        ui_font_family: json_string(doc, &["appearance", "ui_font_family"], "Inter"),
        ui_font_size: clamp_u16(json_u16(doc, &["appearance", "ui_font_size"], 16), 12, 24),
        terminal_font_weight: font_weight(json_u16(doc, &["appearance", "font_weight"], 400), 400),
        terminal_font_weight_bold: font_weight(json_u16(doc, &["appearance", "font_weight_bold"], 700), 700),
        x11_display: json_string(doc, &["terminal", "x11_display"], ""),
        terminal_scrollback_lines: clamp_u32(json_u32(doc, &["terminal", "scrollback_lines"], 5000), 100, 100000),
        terminal_keep_alive_mode: normalize_keep_alive_mode(json_string(doc, &["terminal", "keep_alive_mode"], "compatible").as_str()),
        terminal_keep_alive_interval: clamp_u32(json_u32(doc, &["terminal", "keep_alive_interval"], 30), 0, 600),
        terminal_timestamp_format: normalize_timestamp_format(json_string(doc, &["terminal", "timestamp_format"], DEFAULT_TERMINAL_TIMESTAMP_FORMAT).as_str()),
        terminal_hardware_acceleration: json_bool(doc, &["terminal", "hardware_acceleration"], true),
        terminal_show_workspace_padding: json_bool(doc, &["terminal", "show_workspace_padding"], false),
        terminal_show_line_numbers: json_bool(doc, &["terminal", "show_line_numbers"], false),
        terminal_show_timestamps: json_bool(doc, &["terminal", "show_timestamps"], false),
        terminal_show_multi_line_paste_dialog: json_bool(doc, &["terminal", "show_multi_line_paste_dialog"], true),
        terminal_paste_image_as_path: json_bool(doc, &["terminal", "paste_image_as_path"], true),
        terminal_reconnect_restore_cwd: json_bool(doc, &["terminal", "reconnect_restore_cwd"], false),
        terminal_low_latency_mode: json_bool(doc, &["terminal", "low_latency_mode"], false),
        terminal_zebra_stripes_enabled: json_bool(doc, &["terminal", "zebra_stripes_enabled"], true),
        terminal_action_links_enabled: json_bool(doc, &["terminal", "action_links_enabled"], false),
        terminal_action_links_matchers: load_action_links_matchers(doc),
        search_custom_engines: load_search_engines(doc),
        ui_show_notes_panel: json_bool(doc, &["ui", "show_notes_panel"], true),
        ui_show_remote_stats: json_bool(doc, &["ui", "show_remote_stats"], true),
        ui_remote_stats_interval: clamp_u32(json_u32(doc, &["ui", "remote_stats_interval"], 3), 1, 60),
        ui_show_gpu_monitor: json_bool(doc, &["ui", "show_gpu_monitor"], false),
        ui_gpu_monitor_interval: clamp_u32(json_u32(doc, &["ui", "gpu_monitor_interval"], 3), 3, 120),
        ui_show_ascend_npu_monitor: json_bool(doc, &["ui", "show_ascend_npu_monitor"], false),
        ui_ascend_npu_monitor_interval: clamp_u32(json_u32(doc, &["ui", "ascend_npu_monitor_interval"], 3), 3, 120),
        ui_show_process_manager: json_bool(doc, &["ui", "show_process_manager"], true),
        ui_process_manager_interval: clamp_u32(json_u32(doc, &["ui", "process_manager_interval"], 5), 3, 120),
        ui_show_docker_manager: json_bool(doc, &["ui", "show_docker_manager"], true),
        ui_docker_manager_interval: clamp_u32(json_u32(doc, &["ui", "docker_manager_interval"], 10), 3, 120),
        ui_quick_cmd_view_mode: normalize_quick_cmd_view_mode(json_string(doc, &["ui", "quick_cmd_view_mode"], "tile").as_str()),
        ui_quick_cmd_sort_mode: normalize_quick_cmd_sort_mode(json_string(doc, &["ui", "quick_cmd_sort_mode"], "created").as_str()),
        ui_saved_connections_sort_mode: normalize_saved_connections_sort_mode(json_string(doc, &["ui", "saved_connections_sort_mode"], "default").as_str()),
        ui_saved_connections_expanded_group_ids: json_string_vec(doc, &["ui", "saved_connections_expanded_group_ids"], 512),
        ui_start_workspace_mode: normalize_start_workspace_mode(json_string(doc, &["ui", "start_workspace_mode"], "workbench").as_str()),
        ui_asset_sort_key: json_optional_string(doc, &["ui", "asset_sort_key"]),
        ui_asset_sort_direction: normalize_asset_sort_direction(&json_optional_string(doc, &["ui", "asset_sort_direction"])),
        ui_header_status_mode: normalize_header_status_mode(json_string(doc, &["ui", "header_status_mode"], "session").as_str()),
        ui_header_status_visible: json_bool(doc, &["ui", "header_status_visible"], true),
        ui_file_explorer_show_hidden_files: json_bool(doc, &["ui", "file_explorer_show_hidden_files"], true),
        ui_file_explorer_auto_sync_cwd_connection_ids: json_string_vec(doc, &["ui", "file_explorer_auto_sync_cwd_connection_ids"], 256),
        ui_file_explorer_favorite_dirs_by_connection_id: json_string_vec_map(doc, &["ui", "file_explorer_favorite_dirs_by_connection_id"], 12),
        ui_left_panel_width: clamp_u32(json_u32(doc, &["ui", "left_width"], 256), 160, 720),
        ui_right_panel_width: clamp_u32(json_u32(doc, &["ui", "right_width"], 288), 200, 720),
        ui_transfer_height: clamp_u32(json_u32(doc, &["ui", "transfer_height"], 180), 60, 600),
        ui_quick_cmd_height: clamp_u32(json_u32(doc, &["ui", "quick_cmd_height"], 180), 36, 520),
        ui_quick_cmd_visible: json_bool(doc, &["ui", "show_quick_cmd_bar"], true),
        ui_serial_send_height: clamp_u32(json_u32(doc, &["ui", "serial_send_height"], 180), 60, 520),
        ui_serial_send_visible: json_bool(doc, &["ui", "show_serial_send_panel"], false),
        ui_active_left_panel: json_optional_string(doc, &["ui", "active_left_panel"]),
        ui_active_right_panel: json_optional_string(doc, &["ui", "active_right_panel"]),
        ui_left_panel_collapsed: json_bool(doc, &["ui", "left_panel_collapsed"], false),
        ui_right_panel_collapsed: json_bool(doc, &["ui", "right_panel_collapsed"], false),
        ui_activity_bar_left_top: json_string_vec_with_default(doc, &["ui", "activity_bar_layout", "left_top"], 32, default_activity_left_top()),
        ui_activity_bar_left_bottom: json_string_vec_with_default(doc, &["ui", "activity_bar_layout", "left_bottom"], 32, default_activity_left_bottom()),
        ui_activity_bar_right_top: json_string_vec_with_default(doc, &["ui", "activity_bar_layout", "right_top"], 32, default_activity_right_top()),
        ui_activity_bar_right_bottom: json_string_vec_with_default(doc, &["ui", "activity_bar_layout", "right_bottom"], 32, default_activity_right_bottom()),
        ui_activity_bar_show_labels: json_bool(doc, &["ui", "activity_bar_layout", "show_labels"], false),
        ui_activity_bar_hidden_items: json_string_vec(doc, &["ui", "activity_bar_layout", "hidden_items"], 64),
        ui_panel_multi_open: json_bool(doc, &["appearance", "panel_multi_open"], false) || json_bool(doc, &["ui", "panel_multi_open"], false),
        ui_panel_open_mode: panel_open_mode_setting(doc),
        ui_left_open_panels: json_string_vec(doc, &["ui", "left_open_panels"], 32),
        ui_right_open_panels: json_string_vec(doc, &["ui", "right_open_panels"], 32),
        ui_panel_stack_sizes: json_u32_map(doc, &["ui", "panel_stack_sizes"]),
        interaction_copy_on_select: json_bool(doc, &["interaction", "copy_on_select"], false),
        interaction_allow_osc52_clipboard_write: json_bool(doc, &["interaction", "allow_osc52_clipboard_write"], false),
        interaction_right_click_paste: json_bool(doc, &["interaction", "right_click_paste"], false),
        interaction_terminal_zoom_enabled: json_bool(doc, &["interaction", "terminal_zoom_enabled"], true),
        interaction_command_suggestions_enabled: json_bool(doc, &["interaction", "command_suggestions_enabled"], true),
        interaction_command_suggestion_min_chars: clamp_u32(json_u32(doc, &["interaction", "command_suggestion_min_chars"], 2), 1, 500),
        interaction_command_suggestion_max_chars: clamp_u32(json_u32(doc, &["interaction", "command_suggestion_max_chars"], 64), 1, 500),
        interaction_word_separators: json_string(doc, &["interaction", "word_separators"], DEFAULT_WORD_SEPARATORS),
        interaction_duplicate_session_command_delay_ms: clamp_u32(json_u32(doc, &["interaction", "duplicate_session_command_delay_ms"], 1000), 0, 60000),
        interaction_alt_as_meta: json_bool(doc, &["interaction", "alt_as_meta"], false),
        interaction_mac_ime_compatibility: json_bool(doc, &["interaction", "mac_ime_compatibility"], true),
        interaction_tab_double_click_action: normalize_tab_mouse_action(json_string(doc, &["interaction", "tab_double_click_action"], "disconnect_session").as_str()),
        interaction_tab_middle_click_action: normalize_tab_mouse_action(json_string(doc, &["interaction", "tab_middle_click_action"], "rename_tab").as_str()),
        interaction_tab_right_click_action: normalize_tab_mouse_action(json_string(doc, &["interaction", "tab_right_click_action"], "none").as_str()),
        interaction_default_encoding: normalize_interaction_encoding(json_string(doc, &["interaction", "default_encoding"], "UTF-8").as_str()),
        host_key_policy: normalize_host_key_policy(json_string(doc, &["security", "host_key_policy"], "prompt").as_str()),
        transfer_download_path: json_string(doc, &["transfer", "download_path"], ""),
        transfer_ask_save_location: json_bool(doc, &["transfer", "ask_save_location"], false),
        transfer_duplicate_strategy: normalize_transfer_duplicate_strategy(json_string(doc, &["transfer", "duplicate_strategy"], "ask").as_str()),
        transfer_editor_type: normalize_transfer_editor_type(json_string(doc, &["transfer", "editor_type"], "external").as_str()),
        transfer_internal_editor_font_size: clamp_u16(json_u16(doc, &["transfer", "internal_editor_font_size"], 13), 8, 72),
        transfer_default_editor: json_string(doc, &["transfer", "default_editor"], ""),
        transfer_download_threads: clamp_u32(json_u32(doc, &["transfer", "download_threads"], 3), 1, 10),
        transfer_upload_threads: clamp_u32(json_u32(doc, &["transfer", "upload_threads"], 3), 1, 10),
        transfer_max_retries: clamp_u32(json_u32(doc, &["transfer", "max_transfer_retries"], 2), 0, 10),
        transfer_buffer_size: clamp_u32(json_u32(doc, &["transfer", "transfer_buffer_size"], 32), 8, 256),
        transfer_default_file_permissions: normalize_transfer_file_permissions(json_string(doc, &["transfer", "default_file_permissions"], "644").as_str()),
        transfer_preserve_timestamps: json_bool(doc, &["transfer", "preserve_timestamps"], true),
        transfer_resume_broken_transfer: json_bool(doc, &["transfer", "resume_broken_transfer"], true),
        recording_path: json_string(doc, &["recording", "base_path"], ""),
        recording_auto_start: json_bool(doc, &["recording", "auto_start"], false),
        recording_default_mode: load_recording_mode(doc),
        recording_path_template: normalize_recording_path_template(json_string(doc, &["recording", "path_template"], DEFAULT_RECORDING_PATH_TEMPLATE).as_str()),
        recording_include_io_labels: json_bool(doc, &["recording", "include_io_labels"], true),
        recording_include_timestamps: json_bool(doc, &["recording", "include_timestamps"], true),
        recording_include_session_metadata: json_bool(doc, &["recording", "include_session_metadata"], true),
        recording_rotation: load_recording_rotation(doc),
        recording_existing_file_behavior: load_existing_file_behavior(doc),
        recording_include_binary_transfer_payloads: json_bool(doc, &["recording", "include_binary_transfer_payloads"], false),
        recording_memory_limit_bytes: json_u64(doc, &["recording", "memory_limit_bytes"], DEFAULT_RECORDING_MEMORY_LIMIT_BYTES),
        diagnostics_level: pick(json_string(doc, &["diagnostics", "level"], "info"), &["warn", "debug"], "info"),
        diagnostics_retention_days: retention_days(json_u16(doc, &["diagnostics", "retention_days"], 7)),
        startup_restore: json_bool(doc, &["general", "startup_restore"], false),
        startup_restore_window_layout: json_bool(doc, &["general", "startup_restore_window_layout"], true),
        minimize_to_tray: json_bool(doc, &["general", "minimize_to_tray"], false),
        confirm_on_close: json_bool(doc, &["general", "confirm_on_close"], true),
        enable_screen_lock: json_bool(doc, &["security", "enable_screen_lock"], false),
        idle_lock_minutes: json_u16(doc, &["security", "idle_lock_minutes"], 0) as u32,
        has_master_password: has_master_password(doc),
        keybindings: json_string_map(doc, &keybindings_path),
    }
}

} // verus!

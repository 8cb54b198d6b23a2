//! What the stored settings read back as: each value that a save writes is
//! found at its place in the settings document afterwards.

use vstd::prelude::*;

use crate::settings::encode::{list_map_view, spec_list_map_members, spec_text_array};
use crate::settings::json::{
    spec_clean_list, spec_json_path, spec_keys, strings_view, JsonModel, JsonNumber,
};
use crate::settings::normalize::spec_pick;
use crate::settings::save::{
    spec_language_setting, spec_retention_days_u32, spec_saved_diagnostics,
    spec_saved_file_explorer_favorite_dirs, spec_saved_general, spec_saved_screen_lock,
};
use crate::settings::summary::{is_summary_of, AppSettingsSummary};
use crate::settings::write::{lemma_set_path_frame, lemma_set_path_then_read, spec_set_path};

verus! {

/// After the file explorer's hidden-file switch, the connections whose folder follows the shell, and the favourite folders per connection are stored, each of them reads back from the settings document
/// as it was written.
pub proof fn lemma_saved_file_explorer_favorite_dirs_reads_back(d: JsonModel, s: AppSettingsSummary)
    ensures
        spec_json_path(spec_saved_file_explorer_favorite_dirs(d, s), spec_keys(seq!["ui", "file_explorer_show_hidden_files"])) == Some(JsonModel::Bool(s.ui_file_explorer_show_hidden_files)),
        spec_json_path(spec_saved_file_explorer_favorite_dirs(d, s), spec_keys(seq!["ui", "file_explorer_auto_sync_cwd_connection_ids"])) == Some(spec_text_array(spec_clean_list(strings_view(s.ui_file_explorer_auto_sync_cwd_connection_ids@), 256))),
        spec_json_path(spec_saved_file_explorer_favorite_dirs(d, s), spec_keys(seq!["ui", "file_explorer_favorite_dirs_by_connection_id"])) == Some(JsonModel::Object(spec_list_map_members(list_map_view(s.ui_file_explorer_favorite_dirs_by_connection_id@), 12))),
{
    reveal_strlit("file_explorer_auto_sync_cwd_connection_ids");
    reveal_strlit("file_explorer_favorite_dirs_by_connection_id");
    reveal_strlit("file_explorer_show_hidden_files");
    reveal_strlit("ui");
    let d1 = spec_set_path(d, spec_keys(seq!["ui", "file_explorer_show_hidden_files"]), JsonModel::Bool(s.ui_file_explorer_show_hidden_files));
    let d2 = spec_set_path(d1, spec_keys(seq!["ui", "file_explorer_auto_sync_cwd_connection_ids"]), spec_text_array(spec_clean_list(strings_view(s.ui_file_explorer_auto_sync_cwd_connection_ids@), 256)));
    let d3 = spec_set_path(d2, spec_keys(seq!["ui", "file_explorer_favorite_dirs_by_connection_id"]), JsonModel::Object(spec_list_map_members(list_map_view(s.ui_file_explorer_favorite_dirs_by_connection_id@), 12)));
    assert(spec_saved_file_explorer_favorite_dirs(d, s) == d3);
    lemma_set_path_then_read(d, spec_keys(seq!["ui", "file_explorer_show_hidden_files"]), JsonModel::Bool(s.ui_file_explorer_show_hidden_files));
    assert("file_explorer_auto_sync_cwd_connection_ids"@.len() != "file_explorer_show_hidden_files"@.len());
    assert(spec_keys(seq!["ui", "file_explorer_auto_sync_cwd_connection_ids"])[1] != spec_keys(seq!["ui", "file_explorer_show_hidden_files"])[1]);
    lemma_set_path_frame(d1, spec_keys(seq!["ui", "file_explorer_auto_sync_cwd_connection_ids"]), spec_text_array(spec_clean_list(strings_view(s.ui_file_explorer_auto_sync_cwd_connection_ids@), 256)), spec_keys(seq!["ui", "file_explorer_show_hidden_files"]));
    assert("file_explorer_favorite_dirs_by_connection_id"@.len() != "file_explorer_show_hidden_files"@.len());
    assert(spec_keys(seq!["ui", "file_explorer_favorite_dirs_by_connection_id"])[1] != spec_keys(seq!["ui", "file_explorer_show_hidden_files"])[1]);
    lemma_set_path_frame(d2, spec_keys(seq!["ui", "file_explorer_favorite_dirs_by_connection_id"]), JsonModel::Object(spec_list_map_members(list_map_view(s.ui_file_explorer_favorite_dirs_by_connection_id@), 12)), spec_keys(seq!["ui", "file_explorer_show_hidden_files"]));
    lemma_set_path_then_read(d1, spec_keys(seq!["ui", "file_explorer_auto_sync_cwd_connection_ids"]), spec_text_array(spec_clean_list(strings_view(s.ui_file_explorer_auto_sync_cwd_connection_ids@), 256)));
    assert("file_explorer_favorite_dirs_by_connection_id"@.len() != "file_explorer_auto_sync_cwd_connection_ids"@.len());
    assert(spec_keys(seq!["ui", "file_explorer_favorite_dirs_by_connection_id"])[1] != spec_keys(seq!["ui", "file_explorer_auto_sync_cwd_connection_ids"])[1]);
    lemma_set_path_frame(d2, spec_keys(seq!["ui", "file_explorer_favorite_dirs_by_connection_id"]), JsonModel::Object(spec_list_map_members(list_map_view(s.ui_file_explorer_favorite_dirs_by_connection_id@), 12)), spec_keys(seq!["ui", "file_explorer_auto_sync_cwd_connection_ids"]));
    lemma_set_path_then_read(d2, spec_keys(seq!["ui", "file_explorer_favorite_dirs_by_connection_id"]), JsonModel::Object(spec_list_map_members(list_map_view(s.ui_file_explorer_favorite_dirs_by_connection_id@), 12)));
}

/// After start-up and window behaviour and the interface language are stored, each of them reads back from the settings document
/// as it was written.
pub proof fn lemma_saved_general_reads_back(d: JsonModel, s: AppSettingsSummary)
    ensures
        spec_json_path(spec_saved_general(d, s), spec_keys(seq!["general", "startup_restore"])) == Some(JsonModel::Bool(s.startup_restore)),
        spec_json_path(spec_saved_general(d, s), spec_keys(seq!["general", "startup_restore_window_layout"])) == Some(JsonModel::Bool(s.startup_restore_window_layout)),
        spec_json_path(spec_saved_general(d, s), spec_keys(seq!["general", "minimize_to_tray"])) == Some(JsonModel::Bool(s.minimize_to_tray)),
        spec_json_path(spec_saved_general(d, s), spec_keys(seq!["general", "confirm_on_close"])) == Some(JsonModel::Bool(s.confirm_on_close)),
        spec_json_path(spec_saved_general(d, s), spec_keys(seq!["ui", "language"])) == Some(JsonModel::Str(spec_language_setting(s.language@), None)),
{
    reveal_strlit("confirm_on_close");
    reveal_strlit("general");
    reveal_strlit("language");
    reveal_strlit("minimize_to_tray");
    reveal_strlit("startup_restore");
    reveal_strlit("startup_restore_window_layout");
    reveal_strlit("ui");
    let d1 = spec_set_path(d, spec_keys(seq!["general", "startup_restore"]), JsonModel::Bool(s.startup_restore));
    let d2 = spec_set_path(d1, spec_keys(seq!["general", "startup_restore_window_layout"]), JsonModel::Bool(s.startup_restore_window_layout));
    let d3 = spec_set_path(d2, spec_keys(seq!["general", "minimize_to_tray"]), JsonModel::Bool(s.minimize_to_tray));
    let d4 = spec_set_path(d3, spec_keys(seq!["general", "confirm_on_close"]), JsonModel::Bool(s.confirm_on_close));
    let d5 = spec_set_path(d4, spec_keys(seq!["ui", "language"]), JsonModel::Str(spec_language_setting(s.language@), None));
    assert(spec_saved_general(d, s) == d5);
    lemma_set_path_then_read(d, spec_keys(seq!["general", "startup_restore"]), JsonModel::Bool(s.startup_restore));
    assert("startup_restore_window_layout"@.len() != "startup_restore"@.len());
    assert(spec_keys(seq!["general", "startup_restore_window_layout"])[1] != spec_keys(seq!["general", "startup_restore"])[1]);
    lemma_set_path_frame(d1, spec_keys(seq!["general", "startup_restore_window_layout"]), JsonModel::Bool(s.startup_restore_window_layout), spec_keys(seq!["general", "startup_restore"]));
    assert("minimize_to_tray"@.len() != "startup_restore"@.len());
    assert(spec_keys(seq!["general", "minimize_to_tray"])[1] != spec_keys(seq!["general", "startup_restore"])[1]);
    lemma_set_path_frame(d2, spec_keys(seq!["general", "minimize_to_tray"]), JsonModel::Bool(s.minimize_to_tray), spec_keys(seq!["general", "startup_restore"]));
    assert("confirm_on_close"@.len() != "startup_restore"@.len());
    assert(spec_keys(seq!["general", "confirm_on_close"])[1] != spec_keys(seq!["general", "startup_restore"])[1]);
    lemma_set_path_frame(d3, spec_keys(seq!["general", "confirm_on_close"]), JsonModel::Bool(s.confirm_on_close), spec_keys(seq!["general", "startup_restore"]));
    assert("ui"@.len() != "general"@.len());
    assert(spec_keys(seq!["ui", "language"])[0] != spec_keys(seq!["general", "startup_restore"])[0]);
    lemma_set_path_frame(d4, spec_keys(seq!["ui", "language"]), JsonModel::Str(spec_language_setting(s.language@), None), spec_keys(seq!["general", "startup_restore"]));
    lemma_set_path_then_read(d1, spec_keys(seq!["general", "startup_restore_window_layout"]), JsonModel::Bool(s.startup_restore_window_layout));
    assert("minimize_to_tray"@.len() != "startup_restore_window_layout"@.len());
    assert(spec_keys(seq!["general", "minimize_to_tray"])[1] != spec_keys(seq!["general", "startup_restore_window_layout"])[1]);
    lemma_set_path_frame(d2, spec_keys(seq!["general", "minimize_to_tray"]), JsonModel::Bool(s.minimize_to_tray), spec_keys(seq!["general", "startup_restore_window_layout"]));
    assert("confirm_on_close"@.len() != "startup_restore_window_layout"@.len());
    assert(spec_keys(seq!["general", "confirm_on_close"])[1] != spec_keys(seq!["general", "startup_restore_window_layout"])[1]);
    lemma_set_path_frame(d3, spec_keys(seq!["general", "confirm_on_close"]), JsonModel::Bool(s.confirm_on_close), spec_keys(seq!["general", "startup_restore_window_layout"]));
    assert("ui"@.len() != "general"@.len());
    assert(spec_keys(seq!["ui", "language"])[0] != spec_keys(seq!["general", "startup_restore_window_layout"])[0]);
    lemma_set_path_frame(d4, spec_keys(seq!["ui", "language"]), JsonModel::Str(spec_language_setting(s.language@), None), spec_keys(seq!["general", "startup_restore_window_layout"]));
    lemma_set_path_then_read(d2, spec_keys(seq!["general", "minimize_to_tray"]), JsonModel::Bool(s.minimize_to_tray));
    assert("confirm_on_close"@[0] != "minimize_to_tray"@[0]);
    assert(spec_keys(seq!["general", "confirm_on_close"])[1] != spec_keys(seq!["general", "minimize_to_tray"])[1]);
    lemma_set_path_frame(d3, spec_keys(seq!["general", "confirm_on_close"]), JsonModel::Bool(s.confirm_on_close), spec_keys(seq!["general", "minimize_to_tray"]));
    assert("ui"@.len() != "general"@.len());
    assert(spec_keys(seq!["ui", "language"])[0] != spec_keys(seq!["general", "minimize_to_tray"])[0]);
    lemma_set_path_frame(d4, spec_keys(seq!["ui", "language"]), JsonModel::Str(spec_language_setting(s.language@), None), spec_keys(seq!["general", "minimize_to_tray"]));
    lemma_set_path_then_read(d3, spec_keys(seq!["general", "confirm_on_close"]), JsonModel::Bool(s.confirm_on_close));
    assert("ui"@.len() != "general"@.len());
    assert(spec_keys(seq!["ui", "language"])[0] != spec_keys(seq!["general", "confirm_on_close"])[0]);
    lemma_set_path_frame(d4, spec_keys(seq!["ui", "language"]), JsonModel::Str(spec_language_setting(s.language@), None), spec_keys(seq!["general", "confirm_on_close"]));
    lemma_set_path_then_read(d4, spec_keys(seq!["ui", "language"]), JsonModel::Str(spec_language_setting(s.language@), None));
}

/// After the log level and how long logs are kept are stored, each of them reads back from the settings document
/// as it was written.
pub proof fn lemma_saved_diagnostics_reads_back(d: JsonModel, s: AppSettingsSummary)
    ensures
        spec_json_path(spec_saved_diagnostics(d, s), spec_keys(seq!["diagnostics", "level"])) == Some(JsonModel::Str(spec_pick(s.diagnostics_level@, spec_keys(seq!["warn", "debug"]), "info"@), None)),
        spec_json_path(spec_saved_diagnostics(d, s), spec_keys(seq!["diagnostics", "retention_days"])) == Some(JsonModel::Number(JsonNumber::PosInt(spec_retention_days_u32(s.diagnostics_retention_days) as u64))),
{
    reveal_strlit("diagnostics");
    reveal_strlit("level");
    reveal_strlit("retention_days");
    let d1 = spec_set_path(d, spec_keys(seq!["diagnostics", "level"]), JsonModel::Str(spec_pick(s.diagnostics_level@, spec_keys(seq!["warn", "debug"]), "info"@), None));
    let d2 = spec_set_path(d1, spec_keys(seq!["diagnostics", "retention_days"]), JsonModel::Number(JsonNumber::PosInt(spec_retention_days_u32(s.diagnostics_retention_days) as u64)));
    assert(spec_saved_diagnostics(d, s) == d2);
    lemma_set_path_then_read(d, spec_keys(seq!["diagnostics", "level"]), JsonModel::Str(spec_pick(s.diagnostics_level@, spec_keys(seq!["warn", "debug"]), "info"@), None));
    assert("retention_days"@.len() != "level"@.len());
    assert(spec_keys(seq!["diagnostics", "retention_days"])[1] != spec_keys(seq!["diagnostics", "level"])[1]);
    lemma_set_path_frame(d1, spec_keys(seq!["diagnostics", "retention_days"]), JsonModel::Number(JsonNumber::PosInt(spec_retention_days_u32(s.diagnostics_retention_days) as u64)), spec_keys(seq!["diagnostics", "level"]));
    lemma_set_path_then_read(d1, spec_keys(seq!["diagnostics", "retention_days"]), JsonModel::Number(JsonNumber::PosInt(spec_retention_days_u32(s.diagnostics_retention_days) as u64)));
}

/// After the screen lock are stored, each of them reads back from the settings document
/// as it was written.
pub proof fn lemma_saved_screen_lock_reads_back(d: JsonModel, s: AppSettingsSummary)
    ensures
        spec_json_path(spec_saved_screen_lock(d, s), spec_keys(seq!["security", "enable_screen_lock"])) == Some(JsonModel::Bool(s.enable_screen_lock)),
        spec_json_path(spec_saved_screen_lock(d, s), spec_keys(seq!["security", "idle_lock_minutes"])) == Some(JsonModel::Number(JsonNumber::PosInt(s.idle_lock_minutes as u64))),
{
    reveal_strlit("enable_screen_lock");
    reveal_strlit("idle_lock_minutes");
    reveal_strlit("security");
    let d1 = spec_set_path(d, spec_keys(seq!["security", "enable_screen_lock"]), JsonModel::Bool(s.enable_screen_lock));
    let d2 = spec_set_path(d1, spec_keys(seq!["security", "idle_lock_minutes"]), JsonModel::Number(JsonNumber::PosInt(s.idle_lock_minutes as u64)));
    assert(spec_saved_screen_lock(d, s) == d2);
    lemma_set_path_then_read(d, spec_keys(seq!["security", "enable_screen_lock"]), JsonModel::Bool(s.enable_screen_lock));
    assert("idle_lock_minutes"@.len() != "enable_screen_lock"@.len());
    assert(spec_keys(seq!["security", "idle_lock_minutes"])[1] != spec_keys(seq!["security", "enable_screen_lock"])[1]);
    lemma_set_path_frame(d1, spec_keys(seq!["security", "idle_lock_minutes"]), JsonModel::Number(JsonNumber::PosInt(s.idle_lock_minutes as u64)), spec_keys(seq!["security", "enable_screen_lock"]));
    lemma_set_path_then_read(d1, spec_keys(seq!["security", "idle_lock_minutes"]), JsonModel::Number(JsonNumber::PosInt(s.idle_lock_minutes as u64)));
}
/// After the general settings are stored, the summary read from the
/// document shows them: the switches as given and the language as stored.
pub proof fn lemma_general_summary_reads_back(d: JsonModel, s: AppSettingsSummary, v: AppSettingsSummary)
    requires
        is_summary_of(v, spec_saved_general(d, s)),
    ensures
        v.startup_restore == s.startup_restore,
        v.startup_restore_window_layout == s.startup_restore_window_layout,
        v.minimize_to_tray == s.minimize_to_tray,
        v.confirm_on_close == s.confirm_on_close,
        v.language@ == spec_language_setting(s.language@),
{
    lemma_saved_general_reads_back(d, s);
    reveal_strlit("zh-CN");
    reveal_strlit("zh-TW");
    reveal_strlit("ja");
    reveal_strlit("en");
    assert(spec_language_setting(s.language@).len() > 0);
}

/// After the screen-lock settings are stored, the summary read from the
/// document shows them; an idle time past what a `u16` holds reads as none.
pub proof fn lemma_screen_lock_summary_reads_back(d: JsonModel, s: AppSettingsSummary, v: AppSettingsSummary)
    requires
        is_summary_of(v, spec_saved_screen_lock(d, s)),
    ensures
        v.enable_screen_lock == s.enable_screen_lock,
        v.idle_lock_minutes == (if s.idle_lock_minutes <= u16::MAX {
            s.idle_lock_minutes
        } else {
            0
        }),
{
    lemma_saved_screen_lock_reads_back(d, s);
}

/// A stored log level is kept when read again.
proof fn lemma_level_stable(level: Seq<char>)
    ensures
        ({
            let opts = spec_keys(seq!["warn", "debug"]);
            let stored = spec_pick(level, opts, "info"@);
            stored.len() > 0 && spec_pick(stored, opts, "info"@) == stored
        }),
{
    reveal_strlit("warn");
    reveal_strlit("debug");
    reveal_strlit("info");
    let opts = spec_keys(seq!["warn", "debug"]);
    assert(opts[0] == "warn"@ && opts[1] == "debug"@);
    let stored = spec_pick(level, opts, "info"@);
    if opts.contains(level) {
        assert(opts.contains(stored));
    } else {
        assert("info"@[0] != "warn"@[0]);
        assert("info"@[0] != "debug"@[0]);
        assert(!opts.contains(stored));
    }
}

/// After the diagnostics settings are stored, the summary read from the
/// document shows the level and retention as stored.
pub proof fn lemma_diagnostics_summary_reads_back(d: JsonModel, s: AppSettingsSummary, v: AppSettingsSummary)
    requires
        is_summary_of(v, spec_saved_diagnostics(d, s)),
    ensures
        v.diagnostics_level@ == spec_pick(s.diagnostics_level@, spec_keys(seq!["warn", "debug"]), "info"@),
        v.diagnostics_retention_days == spec_retention_days_u32(s.diagnostics_retention_days),
{
    lemma_saved_diagnostics_reads_back(d, s);
    lemma_level_stable(s.diagnostics_level@);
}

} // verus!

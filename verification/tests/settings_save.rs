use nyaterm::settings::encode::{
    recording_rotation_value, string_vec_json_value, string_vec_map_json_value, u32_map_json_value,
};
use nyaterm::settings::appearance::appearance_contrast;
use nyaterm::settings::json::{json_path, ContrastRatio, FloatReading, JsonNumber, JsonText, JsonValue};
use nyaterm::settings::links::SearchEngineConfig;
use nyaterm::settings::recording::{ExistingFileBehavior, RecordingMode, RecordingRotationPolicy};
use nyaterm::settings::save::language_setting;
use nyaterm::settings::store::ConnectionStore;

fn empty_store() -> ConnectionStore {
    ConnectionStore { settings: JsonValue::Object(Vec::new()), master_password: None }
}

fn texts(v: &JsonValue) -> Vec<String> {
    match v {
        JsonValue::Array(items) => items
            .iter()
            .map(|i| match i {
                JsonValue::Str(JsonText { text, .. }) => text.clone(),
                _ => panic!("only strings are stored"),
            })
            .collect(),
        _ => panic!("an array is stored"),
    }
}

#[test]
fn identifier_lists_are_stored_clean() {
    let values: Vec<String> = vec![" a ", "", "b", "a", "c"].into_iter().map(String::from).collect();
    assert_eq!(texts(&string_vec_json_value(&values, 2)), vec!["a", "b"]);
    assert_eq!(texts(&string_vec_json_value(&values, 10)), vec!["a", "b", "c"]);
}

#[test]
fn keyed_lists_skip_blank_keys_and_empty_lists() {
    let map = vec![
        ("  conn-1 ".to_string(), vec!["/tmp".to_string(), "/tmp".to_string()]),
        (" ".to_string(), vec!["/x".to_string()]),
        ("conn-2".to_string(), vec!["  ".to_string()]),
    ];
    match string_vec_map_json_value(&map, 12) {
        JsonValue::Object(members) => {
            assert_eq!(members.len(), 1);
            assert_eq!(members[0].0, "conn-1");
            assert_eq!(texts(&members[0].1), vec!["/tmp"]);
        }
        _ => panic!("an object is stored"),
    }
}

#[test]
fn counts_keep_positive_values_and_the_last_of_a_key() {
    let map = vec![("a".to_string(), 3), ("b".to_string(), 0), ("a".to_string(), 5)];
    match u32_map_json_value(&map) {
        JsonValue::Object(members) => {
            assert_eq!(members.len(), 1);
            assert!(matches!(members[0].1, JsonValue::Number(JsonNumber::PosInt(5))));
        }
        _ => panic!("an object is stored"),
    }
}

#[test]
fn rotation_is_stored_with_a_positive_size() {
    let doc = recording_rotation_value(&RecordingRotationPolicy::Size { max_bytes: 0 });
    assert!(matches!(json_path(&doc, &["max_bytes"]), Some(JsonValue::Number(JsonNumber::PosInt(1)))));
    let doc = recording_rotation_value(&RecordingRotationPolicy::Daily);
    assert!(matches!(json_path(&doc, &["type"]), Some(JsonValue::Str(t)) if t.text == "daily"));
}

#[test]
fn language_is_stored_as_one_of_the_offered() {
    assert_eq!(language_setting("zh"), "zh-CN");
    assert_eq!(language_setting("zh-TW"), "zh-TW");
    assert_eq!(language_setting("ja"), "ja");
    assert_eq!(language_setting("fr"), "en");
}

#[test]
fn saved_transfer_settings_read_back_checked() {
    let mut store = empty_store();
    let mut settings = store.load_app_settings_summary().ok().unwrap();
    settings.transfer_download_path = "/downloads".to_string();
    settings.transfer_download_threads = 40;
    settings.transfer_max_retries = 3;
    settings.transfer_internal_editor_font_size = 2;
    settings.transfer_default_file_permissions = "0o750".to_string();
    settings.transfer_duplicate_strategy = "skip".to_string();
    let saved = store.save_transfer_settings(&settings).ok().unwrap();
    assert_eq!(saved.transfer_download_path, "/downloads");
    assert_eq!(saved.transfer_download_threads, 10);
    assert_eq!(saved.transfer_max_retries, 3);
    assert_eq!(saved.transfer_internal_editor_font_size, 8);
    assert_eq!(saved.transfer_default_file_permissions, "750");
    assert_eq!(saved.transfer_duplicate_strategy, "skip");
}

#[test]
fn saved_terminal_settings_read_back_checked() {
    let mut store = empty_store();
    let mut settings = store.load_app_settings_summary().ok().unwrap();
    settings.terminal_scrollback_lines = 1_000_000;
    settings.terminal_keep_alive_mode = " strict ".to_string();
    settings.terminal_show_line_numbers = true;
    settings.terminal_action_links_matchers.archive = false;
    settings.search_custom_engines = vec![SearchEngineConfig {
        name: "Docs".to_string(),
        url_template: "https://docs.test/?q=%s".to_string(),
        icon: Some("book".to_string()),
        show_in_menu: false,
    }];
    settings.ui_gpu_monitor_interval = 1;
    let saved = store.save_terminal_settings(&settings).ok().unwrap();
    assert_eq!(saved.terminal_scrollback_lines, 100_000);
    assert_eq!(saved.terminal_keep_alive_mode, "strict");
    assert!(saved.terminal_show_line_numbers);
    assert!(!saved.terminal_action_links_matchers.archive);
    assert!(saved.terminal_action_links_matchers.ipv4);
    assert_eq!(saved.search_custom_engines.len(), 1);
    assert_eq!(saved.search_custom_engines[0].icon.as_deref(), Some("book"));
    assert!(!saved.search_custom_engines[0].show_in_menu);
    assert_eq!(saved.ui_gpu_monitor_interval, 3);
}

#[test]
fn saved_layout_settings_read_back_checked() {
    let mut store = empty_store();
    let mut settings = store.load_app_settings_summary().ok().unwrap();
    settings.ui_left_panel_width = 5000;
    settings.ui_active_left_panel = Some("   ".to_string());
    settings.ui_active_right_panel = Some("savedConnections".to_string());
    settings.ui_activity_bar_hidden_items = vec!["notes".to_string(), "notes".to_string()];
    settings.ui_panel_open_mode = "floating".to_string();
    settings.ui_panel_stack_sizes = vec![("notes".to_string(), 250), ("x".to_string(), 0)];
    settings.ui_asset_sort_key = Some("  name ".to_string());
    settings.ui_asset_sort_direction = Some("sideways".to_string());
    settings.ui_header_status_mode = "gpu".to_string();
    settings.ui_panel_multi_open = true;
    let saved = store.save_ui_layout_settings(&settings).ok().unwrap();
    assert_eq!(saved.ui_left_panel_width, 720);
    assert_eq!(saved.ui_active_left_panel, None);
    assert_eq!(saved.ui_active_right_panel.as_deref(), Some("savedConnections"));
    assert_eq!(saved.ui_activity_bar_hidden_items, vec!["notes"]);
    assert_eq!(saved.ui_panel_open_mode, "floating");
    assert_eq!(saved.ui_panel_stack_sizes, vec![("notes".to_string(), 250)]);
    assert_eq!(saved.ui_asset_sort_key.as_deref(), Some("name"));
    assert_eq!(saved.ui_asset_sort_direction, None);
    assert_eq!(saved.ui_header_status_mode, "gpu");
    assert!(saved.ui_panel_multi_open);
}

#[test]
fn saved_interaction_settings_keep_max_at_least_min() {
    let mut store = empty_store();
    let mut settings = store.load_app_settings_summary().ok().unwrap();
    settings.interaction_command_suggestion_min_chars = 30;
    settings.interaction_command_suggestion_max_chars = 4;
    settings.interaction_default_encoding = "gbk".to_string();
    settings.interaction_tab_right_click_action = "explode".to_string();
    let saved = store.save_interaction_settings(&settings).ok().unwrap();
    assert_eq!(saved.interaction_command_suggestion_min_chars, 30);
    assert_eq!(saved.interaction_command_suggestion_max_chars, 30);
    assert_eq!(saved.interaction_default_encoding, "GBK");
    assert_eq!(saved.interaction_tab_right_click_action, "none");
}

#[test]
fn saved_recording_settings_read_back() {
    let mut store = empty_store();
    let mut settings = store.load_app_settings_summary().ok().unwrap();
    settings.recording_default_mode = RecordingMode::Raw;
    settings.recording_existing_file_behavior = ExistingFileBehavior::Overwrite;
    settings.recording_rotation = RecordingRotationPolicy::Size { max_bytes: 4096 };
    settings.recording_memory_limit_bytes = 1;
    let saved = store.save_recording_settings(&settings).ok().unwrap();
    assert_eq!(saved.recording_default_mode, RecordingMode::Raw);
    assert_eq!(saved.recording_existing_file_behavior, ExistingFileBehavior::Overwrite);
    assert_eq!(saved.recording_rotation, RecordingRotationPolicy::Size { max_bytes: 4096 });
    assert_eq!(saved.recording_memory_limit_bytes, 1);
}

#[test]
fn saved_small_groups_read_back() {
    let mut store = empty_store();
    let mut settings = store.load_app_settings_summary().ok().unwrap();
    settings.language = "zh".to_string();
    settings.minimize_to_tray = true;
    let saved = store.save_general_settings(&settings).ok().unwrap();
    assert_eq!(saved.language, "zh-CN");
    assert!(saved.minimize_to_tray);

    settings.diagnostics_level = "trace".to_string();
    settings.diagnostics_retention_days = 14;
    let saved = store.save_diagnostics_settings(&settings).ok().unwrap();
    assert_eq!(saved.diagnostics_level, "info");
    assert_eq!(saved.diagnostics_retention_days, 14);

    settings.enable_screen_lock = true;
    settings.idle_lock_minutes = 70_000;
    let saved = store.save_screen_lock_settings(&settings).ok().unwrap();
    assert!(saved.enable_screen_lock);
    assert_eq!(saved.idle_lock_minutes, 0);

    settings.ui_file_explorer_favorite_dirs_by_connection_id =
        vec![("c1".to_string(), vec!["/srv".to_string()])];
    let saved = store.save_file_explorer_favorite_dirs(&settings).ok().unwrap();
    assert_eq!(
        saved.ui_file_explorer_favorite_dirs_by_connection_id,
        vec![("c1".to_string(), vec!["/srv".to_string()])]
    );

    let bindings = vec![("copy".to_string(), "ctrl-c".to_string()), ("odd".to_string(), "".to_string())];
    let saved = store.save_keybindings(&bindings).ok().unwrap();
    assert_eq!(saved.keybindings, bindings);
}

fn contrast_number(ratio: ContrastRatio) -> JsonValue {
    let (value, bits): (f64, u64) = match ratio {
        ContrastRatio::One => (1.0, 1.0f64.to_bits()),
        ContrastRatio::Three => (3.0, 3.0f64.to_bits()),
        ContrastRatio::FourAndAHalf => (4.5, 4.5f64.to_bits()),
        ContrastRatio::Seven => (7.0, 7.0f64.to_bits()),
        ContrastRatio::TwentyOne => (21.0, 21.0f64.to_bits()),
    };
    JsonValue::Number(JsonNumber::Float(FloatReading {
        bits,
        as_u16: Some(value.round() as u16),
        as_u32: Some(value.round() as u32),
        as_u64: Some(value.round() as u64),
        rounded_u64: value.round() as u64,
        percent: if value <= 1.0 { (value * 100.0).round() as u8 } else { value.round() as u8 },
        contrast: Some(ratio),
    }))
}

#[test]
fn appearance_is_stored_checked_and_reads_back() {
    let mut store = empty_store();
    let mut settings = store.load_app_settings_summary().ok().unwrap();
    settings.cursor_style = "beam".to_string();
    settings.ui_font_family = "   ".to_string();
    settings.ui_font_size = 40;
    settings.terminal_font_weight = 450;
    settings.terminal_font_weight_bold = 800;
    settings.minimum_contrast_ratio = "4.5".to_string();
    settings.terminal_theme = Some("  dracula ".to_string());
    settings.background_image_path = Some("   ".to_string());
    let ratio = appearance_contrast(&settings.minimum_contrast_ratio);
    assert_eq!(ratio, ContrastRatio::FourAndAHalf);
    let saved = store
        .save_appearance_settings(
            &settings,
            JsonValue::Number(JsonNumber::PosInt(0)),
            JsonValue::Number(JsonNumber::PosInt(1)),
            contrast_number(ratio),
        )
        .ok()
        .unwrap();
    assert_eq!(saved.cursor_style, "block");
    assert_eq!(saved.ui_font_family, "Inter");
    assert_eq!(saved.ui_font_size, 24);
    assert_eq!(saved.terminal_font_weight, 400);
    assert_eq!(saved.terminal_font_weight_bold, 800);
    assert_eq!(saved.minimum_contrast_ratio, "4.5");
    assert_eq!(saved.terminal_theme.as_deref(), Some("dracula"));
    assert_eq!(saved.background_image_path, None);
    assert!(matches!(
        json_path(&store.settings, &["appearance", "background_image_path"]),
        Some(JsonValue::Null)
    ));
    assert_eq!(appearance_contrast("5"), ContrastRatio::One);
    assert_eq!(appearance_contrast("21"), ContrastRatio::TwentyOne);
}

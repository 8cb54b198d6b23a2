use nyaterm::settings::json::{
    json_path, json_string_vec, ContrastRatio, FloatReading, JsonNumber, JsonText, JsonValue,
};
use nyaterm::settings::links::{default_search_engines, load_search_engines};
use nyaterm::settings::normalize::{
    normalize_asset_sort_direction, normalize_header_status_mode, normalize_host_key_policy,
    normalize_interaction_encoding, normalize_keep_alive_mode, normalize_quick_cmd_sort_mode,
    normalize_quick_cmd_view_mode, normalize_saved_connections_sort_mode,
    normalize_start_workspace_mode, normalize_tab_mouse_action, normalize_timestamp_format,
    normalize_transfer_duplicate_strategy, normalize_transfer_editor_type,
    normalize_transfer_file_permissions, DEFAULT_TERMINAL_TIMESTAMP_FORMAT,
};
use nyaterm::settings::recording::{
    existing_file_behavior_value, load_recording_rotation, normalize_recording_path_template,
    recording_mode_value, ExistingFileBehavior, RecordingMode, RecordingRotationPolicy,
    DEFAULT_RECORDING_PATH_TEMPLATE,
};
use nyaterm::settings::store::ConnectionStore;
use nyaterm::settings::summary::{summary_from_document, DEFAULT_WORD_SEPARATORS};
use nyaterm::settings::write::{set_nested_json_bool, set_nested_json_value};

fn s(text: &str) -> JsonValue {
    JsonValue::Str(JsonText { text: text.to_string(), as_float: None })
}

fn n(v: u64) -> JsonValue {
    JsonValue::Number(JsonNumber::PosInt(v))
}

fn reading(percent: u8, contrast: Option<ContrastRatio>) -> FloatReading {
    FloatReading {
        bits: 0,
        as_u16: None,
        as_u32: None,
        as_u64: None,
        rounded_u64: 0,
        percent,
        contrast,
    }
}

fn obj(members: Vec<(&str, JsonValue)>) -> JsonValue {
    JsonValue::Object(members.into_iter().map(|(k, v)| (k.to_string(), v)).collect())
}

fn arr(items: Vec<JsonValue>) -> JsonValue {
    JsonValue::Array(items)
}

fn empty() -> JsonValue {
    obj(Vec::new())
}

fn store(settings: JsonValue) -> ConnectionStore {
    ConnectionStore { settings, master_password: None }
}

#[test]
fn normalizers_keep_known_values_and_default_the_rest() {
    assert_eq!(normalize_keep_alive_mode(" strict "), "strict");
    assert_eq!(normalize_keep_alive_mode("fast"), "compatible");
    assert_eq!(normalize_host_key_policy("accept"), "accept");
    assert_eq!(normalize_host_key_policy(" accept"), "prompt");
    assert_eq!(normalize_interaction_encoding("gBk"), "GBK");
    assert_eq!(normalize_interaction_encoding("gb2312"), "UTF-8");
    assert_eq!(normalize_quick_cmd_sort_mode(" useCount"), "useCount");
    assert_eq!(normalize_quick_cmd_sort_mode("usecount"), "created");
    assert_eq!(normalize_quick_cmd_view_mode("compact\n"), "compact");
    assert_eq!(normalize_quick_cmd_view_mode("grid"), "tile");
    assert_eq!(normalize_saved_connections_sort_mode("name-desc"), "name-desc");
    assert_eq!(normalize_saved_connections_sort_mode("name"), "default");
    assert_eq!(normalize_start_workspace_mode(" assets "), "assets");
    assert_eq!(normalize_start_workspace_mode("home"), "workbench");
    assert_eq!(normalize_tab_mouse_action("close_tab"), "close_tab");
    assert_eq!(normalize_tab_mouse_action("close_tab "), "none");
    assert_eq!(normalize_transfer_duplicate_strategy("skip"), "skip");
    assert_eq!(normalize_transfer_duplicate_strategy("merge"), "ask");
    assert_eq!(normalize_transfer_editor_type("internal"), "internal");
    assert_eq!(normalize_transfer_editor_type("vim"), "external");
    assert_eq!(normalize_header_status_mode(" gpu "), "gpu");
    assert_eq!(normalize_header_status_mode("clock"), "session");
}

#[test]
fn asset_sort_direction_keeps_only_asc_and_desc() {
    assert_eq!(
        normalize_asset_sort_direction(&Some(" asc ".to_string())).as_deref(),
        Some("asc")
    );
    assert_eq!(
        normalize_asset_sort_direction(&Some("desc".to_string())).as_deref(),
        Some("desc")
    );
    assert_eq!(normalize_asset_sort_direction(&Some("up".to_string())), None);
    assert_eq!(normalize_asset_sort_direction(&None), None);
}

#[test]
fn timestamp_format_is_trimmed_cut_and_defaulted() {
    assert_eq!(normalize_timestamp_format("  "), DEFAULT_TERMINAL_TIMESTAMP_FORMAT);
    assert_eq!(normalize_timestamp_format(" %H:%M "), "%H:%M");
    let long = "x".repeat(70);
    assert_eq!(normalize_timestamp_format(&long), "x".repeat(64));
    let wide = "时".repeat(65);
    assert_eq!(normalize_timestamp_format(&wide).chars().count(), 64);
}

#[test]
fn file_permissions_strip_prefixes_and_check_octal_digits() {
    assert_eq!(normalize_transfer_file_permissions("0o755"), "755");
    assert_eq!(normalize_transfer_file_permissions(" 0o0o0644 "), "644");
    assert_eq!(normalize_transfer_file_permissions("0600"), "600");
    assert_eq!(normalize_transfer_file_permissions("4755"), "4755");
    assert_eq!(normalize_transfer_file_permissions("789"), "644");
    assert_eq!(normalize_transfer_file_permissions("0"), "644");
    assert_eq!(normalize_transfer_file_permissions("77"), "644");
    assert_eq!(normalize_transfer_file_permissions("12345"), "644");
}

#[test]
fn recording_names_and_path_template() {
    assert_eq!(recording_mode_value(RecordingMode::Raw), "raw");
    assert_eq!(recording_mode_value(RecordingMode::Transcript), "transcript");
    assert_eq!(existing_file_behavior_value(ExistingFileBehavior::Append), "append");
    assert_eq!(existing_file_behavior_value(ExistingFileBehavior::Unique), "unique");
    assert_eq!(existing_file_behavior_value(ExistingFileBehavior::Overwrite), "overwrite");
    assert_eq!(normalize_recording_path_template("  "), DEFAULT_RECORDING_PATH_TEMPLATE);
    assert_eq!(normalize_recording_path_template(" a/{host}.log "), "a/{host}.log");
}

#[test]
fn recording_rotation_reads_type_and_size() {
    let doc = |rotation: JsonValue| obj(vec![("recording", obj(vec![("rotation", rotation)]))]);
    assert_eq!(load_recording_rotation(&empty()), RecordingRotationPolicy::Session);
    assert_eq!(
        load_recording_rotation(&doc(obj(vec![("type", s("daily"))]))),
        RecordingRotationPolicy::Daily
    );
    assert_eq!(
        load_recording_rotation(&doc(obj(vec![("type", s("size")), ("max_bytes", n(0))]))),
        RecordingRotationPolicy::Size { max_bytes: 1 }
    );
    assert_eq!(
        load_recording_rotation(&doc(obj(vec![("type", s("size"))]))),
        RecordingRotationPolicy::Size { max_bytes: 50 * 1024 * 1024 }
    );
    assert_eq!(
        load_recording_rotation(&doc(obj(vec![("type", n(3))]))),
        RecordingRotationPolicy::Session
    );
}

#[test]
fn an_empty_document_reads_as_every_default() {
    let summary = summary_from_document(&empty());
    assert_eq!(summary.theme, "github-dark");
    assert_eq!(summary.background_image_path, None);
    assert_eq!(summary.background_image_opacity, 45);
    assert_eq!(summary.background_content_opacity, 82);
    assert_eq!(summary.language, "en");
    assert_eq!(summary.terminal_font_size, 16);
    assert_eq!(summary.cursor_style, "block");
    assert!(summary.cursor_blink);
    assert_eq!(summary.minimum_contrast_ratio, "1");
    assert_eq!(summary.ui_font_size, 16);
    assert_eq!(summary.terminal_font_weight, 400);
    assert_eq!(summary.terminal_font_weight_bold, 700);
    assert_eq!(summary.terminal_scrollback_lines, 5000);
    assert_eq!(summary.terminal_keep_alive_mode, "compatible");
    assert_eq!(summary.terminal_keep_alive_interval, 30);
    assert_eq!(summary.terminal_timestamp_format, DEFAULT_TERMINAL_TIMESTAMP_FORMAT);
    assert_eq!(summary.ui_quick_cmd_view_mode, "tile");
    assert_eq!(summary.ui_quick_cmd_sort_mode, "created");
    assert_eq!(summary.ui_activity_bar_left_bottom, vec!["syncBackupHistory", "settings"]);
    assert_eq!(summary.ui_panel_open_mode, "docked");
    assert_eq!(summary.interaction_word_separators, DEFAULT_WORD_SEPARATORS);
    assert_eq!(summary.interaction_tab_double_click_action, "disconnect_session");
    assert_eq!(summary.interaction_tab_middle_click_action, "rename_tab");
    assert_eq!(summary.host_key_policy, "prompt");
    assert_eq!(summary.transfer_default_file_permissions, "644");
    assert_eq!(summary.recording_default_mode, RecordingMode::Transcript);
    assert_eq!(summary.recording_rotation, RecordingRotationPolicy::Session);
    assert_eq!(summary.recording_memory_limit_bytes, 5 * 1024 * 1024);
    assert_eq!(summary.diagnostics_level, "info");
    assert_eq!(summary.diagnostics_retention_days, 7);
    assert!(!summary.has_master_password);
    assert!(summary.keybindings.is_empty());
    assert_eq!(summary.search_custom_engines.len(), default_search_engines().len());
}

#[test]
fn stored_values_are_read_checked_and_clamped() {
    let doc = obj(vec![
        (
            "appearance",
            obj(vec![
                ("theme", s("")),
                ("background_image_path", s("  /img/bg.png ")),
                ("background_image_opacity", JsonValue::Number(JsonNumber::Float(reading(30, None)))),
                ("background_opacity", n(1)),
                ("font_size", n(70000)),
                ("cursor_style", s("bar")),
                ("minimum_contrast_ratio", s("4.5")),
                ("ui_font_size", n(40)),
                ("font_weight", n(450)),
                ("font_weight_bold", n(800)),
            ]),
        ),
        (
            "terminal",
            obj(vec![("scrollback_lines", n(10)), ("keep_alive_interval", n(9000))]),
        ),
        (
            "ui",
            obj(vec![
                ("left_width", n(100)),
                (
                    "left_open_panels",
                    arr(vec![s(" notes "), s(""), s("notes"), n(3), s("network")]),
                ),
                ("panel_stack_sizes", obj(vec![("notes", n(500)), ("network", n(0))])),
                ("panel_open_mode", s(" floating ")),
            ]),
        ),
        ("security", obj(vec![("master_password", s("token"))])),
        ("keybindings", obj(vec![("copy", s("ctrl-c")), ("bad", n(1))])),
    ]);
    let summary = summary_from_document(&doc);
    assert_eq!(summary.theme, "github-dark");
    assert_eq!(summary.background_image_path.as_deref(), Some("/img/bg.png"));
    assert_eq!(summary.background_image_opacity, 30);
    assert_eq!(summary.background_content_opacity, 100);
    assert_eq!(summary.terminal_font_size, 16);
    assert_eq!(summary.cursor_style, "bar");
    assert_eq!(summary.minimum_contrast_ratio, "1");
    assert_eq!(summary.ui_font_size, 24);
    assert_eq!(summary.terminal_font_weight, 400);
    assert_eq!(summary.terminal_font_weight_bold, 800);
    assert_eq!(summary.terminal_scrollback_lines, 100);
    assert_eq!(summary.terminal_keep_alive_interval, 600);
    assert_eq!(summary.ui_left_panel_width, 160);
    assert_eq!(summary.ui_left_open_panels, vec!["notes", "network"]);
    assert_eq!(summary.ui_panel_stack_sizes, vec![("notes".to_string(), 500)]);
    assert_eq!(summary.ui_panel_open_mode, "floating");
    assert!(summary.has_master_password);
    assert_eq!(summary.keybindings, vec![("copy".to_string(), "ctrl-c".to_string())]);
}

#[test]
fn contrast_ratio_reads_numbers_and_text_that_read_as_numbers() {
    let doc = |v: JsonValue| obj(vec![("appearance", obj(vec![("minimum_contrast_ratio", v)]))]);
    assert_eq!(summary_from_document(&doc(n(7))).minimum_contrast_ratio, "7");
    assert_eq!(summary_from_document(&doc(n(5))).minimum_contrast_ratio, "1");
    let four_and_a_half = JsonValue::Number(JsonNumber::Float(reading(100, Some(ContrastRatio::FourAndAHalf))));
    assert_eq!(summary_from_document(&doc(four_and_a_half)).minimum_contrast_ratio, "4.5");
    let text = JsonValue::Str(JsonText {
        text: "21".to_string(),
        as_float: Some(reading(100, Some(ContrastRatio::TwentyOne))),
    });
    assert_eq!(summary_from_document(&doc(text)).minimum_contrast_ratio, "21");
}

#[test]
fn opacity_reads_fractions_percentages_and_negatives() {
    let doc = |v: JsonValue| obj(vec![("appearance", obj(vec![("background_image_opacity", v)]))]);
    assert_eq!(summary_from_document(&doc(n(0))).background_image_opacity, 0);
    assert_eq!(summary_from_document(&doc(n(60))).background_image_opacity, 60);
    assert_eq!(summary_from_document(&doc(n(250))).background_image_opacity, 100);
    assert_eq!(
        summary_from_document(&doc(JsonValue::Number(JsonNumber::NegInt(-3)))).background_image_opacity,
        0
    );
    assert_eq!(summary_from_document(&doc(s("50"))).background_image_opacity, 45);
}

#[test]
fn string_lists_are_trimmed_deduplicated_and_limited() {
    let items: Vec<JsonValue> = (0..40).map(|i| s(&format!(" id{} ", i % 35))).collect();
    let doc = obj(vec![("ui", obj(vec![("hidden", arr(items))]))]);
    let list = json_string_vec(&doc, &["ui", "hidden"], 32);
    assert_eq!(list.len(), 32);
    assert_eq!(list[0], "id0");
    assert_eq!(list[31], "id31");
    assert!(json_string_vec(&doc, &["ui", "missing"], 32).is_empty());
}

#[test]
fn search_engines_skip_non_objects_and_default_without_a_list() {
    let doc = obj(vec![(
        "search",
        obj(vec![(
            "custom_engines",
            arr(vec![
                obj(vec![
                    ("name", s(" Visible ")),
                    ("url_template", s("https://example.test/?q=%s")),
                    ("icon", s("  ")),
                ]),
                s("not an engine"),
                obj(vec![("name", s("Hidden")), ("show_in_menu", JsonValue::Bool(false))]),
            ]),
        )]),
    )]);
    let engines = load_search_engines(&doc);
    assert_eq!(engines.len(), 2);
    assert_eq!(engines[0].name, "Visible");
    assert_eq!(engines[0].icon, None);
    assert!(engines[0].show_in_menu);
    assert_eq!(engines[1].url_template, "");
    assert!(!engines[1].show_in_menu);
    assert_eq!(load_search_engines(&empty()).len(), 3);
}

#[test]
fn nested_writes_create_objects_and_replace_values() {
    let mut doc = obj(vec![("ui", s("not an object"))]);
    set_nested_json_value(&mut doc, &["ui", "layout", "width"], n(300));
    match json_path(&doc, &["ui", "layout", "width"]) {
        Some(JsonValue::Number(JsonNumber::PosInt(v))) => assert_eq!(*v, 300),
        _ => panic!("the written value reads back"),
    }
    set_nested_json_bool(&mut doc, &["ui", "layout", "width"], true);
    assert!(matches!(json_path(&doc, &["ui", "layout", "width"]), Some(JsonValue::Bool(true))));
    set_nested_json_bool(&mut doc, &["ui", "other"], false);
    assert!(matches!(json_path(&doc, &["ui", "layout", "width"]), Some(JsonValue::Bool(true))));
    match &doc {
        JsonValue::Object(members) => assert_eq!(members.len(), 1),
        _ => panic!("the document stays an object"),
    }
}

#[test]
fn saving_the_host_key_policy_reads_back_normalized() {
    let mut st = store(empty());
    let summary = st.save_host_key_policy("strict").ok().unwrap();
    assert_eq!(summary.host_key_policy, "strict");
    let summary = st.save_host_key_policy("trust everything").ok().unwrap();
    assert_eq!(summary.host_key_policy, "prompt");
    let reloaded = st.load_app_settings_summary().ok().unwrap();
    assert_eq!(reloaded.host_key_policy, "prompt");
}

#[test]
fn saving_quick_command_ui_settings_reads_back_normalized() {
    let mut st = store(obj(vec![("security", obj(vec![("host_key_policy", s("accept"))]))]));
    let mut settings = st.load_app_settings_summary().ok().unwrap();
    settings.ui_quick_cmd_view_mode = " compact ".to_string();
    settings.ui_quick_cmd_sort_mode = "shuffled".to_string();
    let saved = st.save_quick_command_ui_settings(&settings).ok().unwrap();
    assert_eq!(saved.ui_quick_cmd_view_mode, "compact");
    assert_eq!(saved.ui_quick_cmd_sort_mode, "created");
    assert_eq!(saved.host_key_policy, "accept");
}

#[test]
fn master_password_is_checked_only_when_set() {
    let mut st = store(empty());
    assert!(st.verify_master_password("anything").ok().unwrap());
    st.master_password = Some("s3cret".to_string());
    assert!(st.verify_master_password("s3cret").ok().unwrap());
    assert!(!st.verify_master_password("s3cret ").ok().unwrap());
}

use nyaterm::quick_command::{QuickCommandEditorField, QuickCommandEditorState};
use nyaterm::quick_command_state::{
    EditorWindowSlot, QuickCommandCategoryCreateState, QuickCommandCategoryDeleteState,
    QuickCommandCategoryRenameState, QuickCommandDropPosition, QuickCommandDropTarget,
    QuickCommandFeatureState, QuickCommandImportPathPromptKind, QuickCommandSortMode,
    QuickCommandTooltipControl, QuickCommandVariableDef, QuickCommandVariablePromptState,
    QuickCommandViewMode, quick_command_sort_mode_label, quick_command_view_mode_label,
};

fn command_state() -> QuickCommandFeatureState {
    QuickCommandFeatureState::new(QuickCommandSortMode::Usage, QuickCommandViewMode::List)
}

fn variable(name: &str) -> QuickCommandVariableDef {
    QuickCommandVariableDef {
        raw: format!("{{{{{name}}}}}"),
        name: name.to_string(),
        options: Vec::new(),
        value: String::new(),
    }
}

#[test]
fn quick_tooltip_control_dismisses_and_resets_on_the_next_hover() {
    let mut control = QuickCommandTooltipControl::new();
    control.register("command-1".to_string());
    let mut dismiss_count = 0;
    if control.dismiss("command-1") {
        dismiss_count += 1;
    }
    assert_eq!(dismiss_count, 1);
    assert!(control.is_suppressed("command-1"));
    control.begin_hover("command-1");
    assert!(!control.is_suppressed("command-1"));
}

#[test]
fn tooltip_of_another_command_goes_on_hover() {
    let mut control = QuickCommandTooltipControl::new();
    control.register("a".to_string());
    control.begin_hover("a");
    assert_eq!(control.active.as_deref(), Some("a"));
    control.begin_hover("b");
    assert_eq!(control.active, None);
    assert!(!control.dismiss("b"));
    assert!(control.is_suppressed("b"));
    assert!(!control.is_suppressed("a"));
}

#[test]
fn quick_ai_popover_toggles_and_closes() {
    let mut state = command_state();
    state.toggle_quick_ai_popover();
    assert!(state.ai.popover_open);
    assert!(state.close_quick_toolbar_popovers());
    assert!(!state.ai.popover_open);
    assert!(!state.close_quick_toolbar_popovers());
}

#[test]
fn quick_editor_picker_state_is_exclusive_and_resets_on_close() {
    let mut state = command_state();
    state.open_quick_editor(QuickCommandEditorState::blank());

    assert!(state.set_quick_editor_category_picker_open(true));
    assert!(state.editor.category_picker_open);
    assert!(!state.editor.icon_picker_open);

    assert!(state.set_quick_editor_icon_picker_open(true));
    assert!(!state.editor.category_picker_open);
    assert!(state.editor.icon_picker_open);

    assert!(state.set_quick_editor_icon(Some("docker".to_string())));
    assert!(!state.editor.icon_picker_open);

    assert!(state.set_quick_editor_icon_picker_open(true));
    assert!(state.set_quick_editor_color(Some("blue".to_string())));
    assert!(!state.editor.icon_picker_open);

    assert!(state.set_quick_editor_category_picker_open(true));
    assert!(state.set_quick_editor_category(Some("category-1".to_string()), String::new()));
    assert!(!state.editor.category_picker_open);

    state.set_quick_editor_icon_picker_open(true);
    state.close_quick_editor();
    assert!(!state.editor.category_picker_open);
    assert!(!state.editor.icon_picker_open);
}

#[test]
fn quick_editor_category_search_and_new_category_drafts_are_separate() {
    let mut state = command_state();
    state.open_quick_editor(QuickCommandEditorState::blank());

    assert!(state.apply_quick_editor_category_search("linux".to_string()));
    assert_eq!(state.editor.category_search_draft, "linux");
    assert_eq!(state.editor.draft.as_ref().unwrap().category_draft, "");

    assert!(state.apply_quick_editor_new_category("Operations".to_string()));
    assert!(state.commit_quick_editor_new_category());
    assert_eq!(state.editor.draft.as_ref().unwrap().category_draft, "Operations");
    assert_eq!(state.editor.category_search_draft, "");
    assert_eq!(state.editor.new_category_draft, "");
}

#[test]
fn category_deletion_clears_filter_and_matching_editor_category() {
    let mut state = command_state();
    state.open_quick_editor(QuickCommandEditorState::blank());
    assert!(state.set_quick_editor_category(Some("category-1".to_string()), String::new()));
    state.list.selected_category = "category-1".to_string();
    state.dialogs.category_delete = Some(QuickCommandCategoryDeleteState {
        id: "category-1".to_string(),
        name: "Common".to_string(),
    });

    state.finish_quick_category_delete("category-1");

    assert_eq!(state.list.selected_category, "all");
    assert_eq!(
        state.editor.draft.as_ref().and_then(|editor| editor.category_id.as_deref()),
        None
    );
    assert!(state.dialogs.category_delete.is_none());
}

#[test]
fn variable_values_are_synchronized_by_name_at_the_owner_boundary() {
    let mut state = command_state();
    state.dialogs.variable_prompt = Some(QuickCommandVariablePromptState {
        command_id: "command-1".to_string(),
        label: "Command".to_string(),
        command: "{{host}} {{host}}".to_string(),
        execute: true,
        send_to_all: false,
        variables: vec![variable("host"), variable("host")],
    });

    assert!(state.set_quick_variable_value(1, "prod".to_string()));
    let prompt = state.dialogs.variable_prompt.as_ref().expect("prompt should remain open");
    assert_eq!(prompt.variables[0].value, "prod");
    assert_eq!(prompt.variables[1].value, "prod");
}

#[test]
fn variable_value_leaves_other_names_and_refuses_bad_indices() {
    let mut state = command_state();
    assert!(!state.set_quick_variable_value(0, "x".to_string()));
    state.dialogs.variable_prompt = Some(QuickCommandVariablePromptState {
        command_id: "command-1".to_string(),
        label: "Command".to_string(),
        command: "ssh {{user}}@{{host}}".to_string(),
        execute: false,
        send_to_all: false,
        variables: vec![variable("user"), variable("host")],
    });
    assert!(!state.set_quick_variable_value(2, "x".to_string()));
    assert!(state.set_quick_variable_value(0, "root".to_string()));
    let prompt = state.dialogs.variable_prompt.as_ref().unwrap();
    assert_eq!(prompt.variables[0].value, "root");
    assert_eq!(prompt.variables[1].value, "");
}

#[test]
fn import_and_detached_editor_lifecycles_clear_pending_state_atomically() {
    let mut state = command_state();
    assert!(state.request_quick_import_path(QuickCommandImportPathPromptKind::NyatermJson));
    assert!(!state.request_quick_import_path(QuickCommandImportPathPromptKind::XshellXts));
    state.finish_quick_import_path();
    assert!(state.request_quick_import_path(QuickCommandImportPathPromptKind::XshellXts));

    state.open_quick_editor(QuickCommandEditorState::blank());
    assert!(state.request_quick_editor_window());
    assert!(state.quick_editor_window_is_pending());
    assert!(!state.request_quick_editor_window());
    state.close_quick_editor();
    assert!(state.editor.draft.is_none());
    assert!(state.quick_editor_window().is_none());
    assert!(!state.quick_editor_window_is_pending());
}

#[test]
fn editor_window_opens_fails_and_cancels() {
    let mut state = command_state();
    assert!(!state.request_quick_editor_window());
    state.open_quick_editor(QuickCommandEditorState::blank());
    assert!(state.quick_editor_is_inline());
    assert!(state.request_quick_editor_window());
    state.finish_quick_editor_window_open(Some(7));
    assert_eq!(state.quick_editor_window(), Some(7));
    assert!(!state.quick_editor_is_inline());
    assert!(!state.request_quick_editor_window());
    state.close_quick_editor();
    assert!(state.request_quick_editor_window() == false);
    state.open_quick_editor(QuickCommandEditorState::blank());
    assert!(state.request_quick_editor_window());
    state.finish_quick_editor_window_open(None);
    assert_eq!(state.editor.window, EditorWindowSlot::Closed);
    assert!(state.request_quick_editor_window());
    state.cancel_quick_editor_window_request();
    assert_eq!(state.editor.window, EditorWindowSlot::Closed);
}

#[test]
fn editor_input_goes_to_its_field_and_clears_the_error() {
    let mut state = command_state();
    assert!(!state.apply_quick_editor_input(QuickCommandEditorField::Label, "x".to_string()));
    state.open_quick_editor(QuickCommandEditorState::blank());
    state.set_quick_editor_error("label missing".to_string(), Some(QuickCommandEditorField::Label));
    assert_eq!(
        state.editor.draft.as_ref().unwrap().error.as_deref(),
        Some("label missing")
    );
    assert!(state.apply_quick_editor_input(QuickCommandEditorField::Command, "ls -la".to_string()));
    let draft = state.editor.draft.as_ref().unwrap();
    assert_eq!(draft.command, "ls -la");
    assert_eq!(draft.focused_field, QuickCommandEditorField::Command);
    assert_eq!(draft.error, None);
    assert!(state.apply_quick_editor_input(QuickCommandEditorField::Category, "ops".to_string()));
    assert!(!state.apply_quick_editor_input(QuickCommandEditorField::Category, "ops".to_string()));
    assert_eq!(state.editor.category_search_draft, "ops");
    assert_eq!(
        state.editor.draft.as_ref().unwrap().focused_field,
        QuickCommandEditorField::Category
    );
}

#[test]
fn editor_mode_pin_and_icon_rules() {
    let mut state = command_state();
    state.open_quick_editor(QuickCommandEditorState::blank());
    assert!(state.set_quick_editor_execution_mode("append"));
    assert_eq!(state.editor.draft.as_ref().unwrap().execution_mode, "append");
    assert!(state.set_quick_editor_execution_mode("anything"));
    assert_eq!(state.editor.draft.as_ref().unwrap().execution_mode, "execute");
    assert!(state.toggle_quick_editor_pinned());
    assert!(state.editor.draft.as_ref().unwrap().pinned);
    assert!(state.set_quick_editor_color(Some("red".to_string())));
    assert!(state.set_quick_editor_icon(None));
    assert_eq!(state.editor.draft.as_ref().unwrap().color_tag.as_deref(), Some("red"));
    assert!(state.set_quick_editor_icon(Some("db".to_string())));
    assert_eq!(state.editor.draft.as_ref().unwrap().color_tag, None);
}

#[test]
fn blank_new_category_is_not_committed() {
    let mut state = command_state();
    state.open_quick_editor(QuickCommandEditorState::blank());
    assert!(state.apply_quick_editor_new_category("   ".to_string()));
    assert!(!state.commit_quick_editor_new_category());
    assert_eq!(state.editor.new_category_draft, "   ");
}

#[test]
fn filters_drop_target_and_modes() {
    let mut state = command_state();
    state.list.search_draft = "ssh".to_string();
    state.list.selected_category = "c".to_string();
    state.clear_quick_filters();
    assert_eq!(state.list.search_draft, "");
    assert_eq!(state.list.selected_category, "all");
    let target = || QuickCommandDropTarget {
        id: "x".to_string(),
        position: QuickCommandDropPosition::Before,
    };
    assert!(state.set_quick_drop_target(target()));
    assert!(!state.set_quick_drop_target(target()));
    state.clear_quick_drop_target();
    assert!(state.list.drop_target.is_none());
    state.toggle_quick_ai_popover();
    state.set_quick_view_mode(QuickCommandViewMode::Tile);
    assert_eq!(state.list.view_mode, QuickCommandViewMode::Tile);
    assert!(!state.ai.popover_open);
    state.set_quick_sort_mode(QuickCommandSortMode::Name);
    assert_eq!(state.list.sort_mode, QuickCommandSortMode::Name);
}

#[test]
fn category_dialogs_take_text_and_errors() {
    let mut state = command_state();
    assert!(!state.apply_quick_category_create("x".to_string()));
    state.dialogs.category_create = Some(QuickCommandCategoryCreateState {
        parent_id: None,
        draft: String::new(),
        error: Some("taken".to_string()),
    });
    assert!(state.apply_quick_category_create("Ops".to_string()));
    let create = state.dialogs.category_create.as_ref().unwrap();
    assert_eq!(create.draft, "Ops");
    assert_eq!(create.error, None);
    state.set_quick_category_create_error("empty".to_string());
    assert_eq!(
        state.dialogs.category_create.as_ref().unwrap().error.as_deref(),
        Some("empty")
    );
    state.dialogs.category_rename = Some(QuickCommandCategoryRenameState {
        id: "c".to_string(),
        original_name: "Old".to_string(),
        draft: "Old".to_string(),
        error: None,
    });
    assert!(state.apply_quick_category_rename("New".to_string()));
    state.set_quick_category_rename_error("taken".to_string());
    let rename = state.dialogs.category_rename.as_ref().unwrap();
    assert_eq!(rename.draft, "New");
    assert_eq!(rename.error.as_deref(), Some("taken"));
}

#[test]
fn ai_prompt_is_taken_trimmed_once() {
    let mut state = command_state();
    state.ai.prompt_draft = "   ".to_string();
    assert_eq!(state.take_quick_ai_prompt(), None);
    state.ai.prompt_draft = "  list big files \n".to_string();
    assert_eq!(state.take_quick_ai_prompt().as_deref(), Some("list big files"));
    assert_eq!(state.ai.prompt_draft, "");
}

#[test]
fn quick_mode_labels_pick_the_label_of_the_mode() {
    let view = |mode| {
        quick_command_view_mode_label(mode, "List".to_string(), "Compact".to_string(), "Tiles".to_string())
    };
    assert_eq!(view(QuickCommandViewMode::List), "List");
    assert_eq!(view(QuickCommandViewMode::Compact), "Compact");
    assert_eq!(view(QuickCommandViewMode::Tile), "Tiles");
    let sort = |mode| {
        quick_command_sort_mode_label(
            mode,
            "Created".to_string(),
            "Name".to_string(),
            "Usage".to_string(),
            "Custom".to_string(),
        )
    };
    assert_eq!(sort(QuickCommandSortMode::Created), "Created");
    assert_eq!(sort(QuickCommandSortMode::Name), "Name");
    assert_eq!(sort(QuickCommandSortMode::Usage), "Usage");
    assert_eq!(sort(QuickCommandSortMode::Custom), "Custom");
}

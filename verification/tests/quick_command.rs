use nyaterm::ai_request::{terminal_ai_prepared_request, AiAction, AiContext};
use nyaterm::command_catalog::{
    apply_persistence_result, queue_quick_command_use_count, CommandCatalogState,
    CommandPersistenceResult,
};
use nyaterm::quick_command::{
    quick_command_text_to_copy, QuickCommand, QuickCommandCategory, QuickCommandEditorField,
    QuickCommandEditorState,
};

fn command(id: &str) -> QuickCommand {
    QuickCommand {
        id: id.to_string(),
        label: id.to_string(),
        command: "pwd".to_string(),
        category_id: Some("category-1".to_string()),
        description: None,
        color_tag: None,
        icon_tag: None,
        pinned: None,
        execution_mode: None,
        source: None,
        risk_level: None,
        updated_at: None,
        created_at: None,
        use_count: None,
        sort_order: None,
    }
}

fn category(id: &str) -> QuickCommandCategory {
    QuickCommandCategory {
        id: id.to_string(),
        name: id.to_string(),
        parent_id: None,
        sort_order: 0,
    }
}

#[test]
fn quick_editor_preserves_terminal_selection_exactly() {
    let selected = "  printf 'a\\nb'  \n".to_string();
    let editor = QuickCommandEditorState::from_terminal_selection(selected.clone());
    assert_eq!(editor.command, selected);
    assert_eq!(editor.focused_field, QuickCommandEditorField::Command);
}

#[test]
fn command_catalog_replaces_and_clears_commands_with_categories() {
    let mut catalog = CommandCatalogState::new(Vec::new(), Vec::new());
    catalog.replace(
        vec![command("command-1")],
        vec![QuickCommandCategory {
            id: "category-1".to_string(),
            name: "Common".to_string(),
            parent_id: None,
            sort_order: 0,
        }],
    );

    assert_eq!(catalog.commands.len(), 1);
    assert_eq!(catalog.categories.len(), 1);

    catalog.commands = Vec::new();
    catalog.categories.clear();
    assert!(catalog.commands.is_empty());
    assert!(catalog.categories.is_empty());
}

#[test]
fn command_catalog_use_count_increment_can_be_rolled_back() {
    let mut catalog = CommandCatalogState::new(vec![command("command-1")], Vec::new());

    catalog.increment_use_count("command-1");
    assert_eq!(catalog.commands[0].use_count, Some(1));

    catalog.rollback_use_count("command-1");
    assert_eq!(catalog.commands[0].use_count, Some(0));
}

#[test]
fn use_count_touches_only_the_first_matching_command_and_saturates() {
    let mut saturated = command("a");
    saturated.use_count = Some(u32::MAX);
    let mut catalog =
        CommandCatalogState::new(vec![command("b"), saturated, command("a")], Vec::new());
    catalog.increment_use_count("a");
    assert_eq!(catalog.commands[1].use_count, Some(u32::MAX));
    assert_eq!(catalog.commands[2].use_count, None);
    assert_eq!(catalog.commands[0].use_count, None);
    catalog.rollback_use_count("b");
    catalog.rollback_use_count("b");
    assert_eq!(catalog.commands[0].use_count, Some(0));
    catalog.increment_use_count("missing");
    assert_eq!(catalog.commands.len(), 3);
}

#[test]
fn ai_request_keeps_full_selection_and_custom_action_metadata() {
    let selected = "x".repeat(8_192);
    let request = terminal_ai_prepared_request(
        AiContext::default(),
        selected.clone(),
        "Explain".to_string(),
    );

    assert_eq!(request.action, AiAction::CustomTerminalAction);
    assert_eq!(request.context.selected_text, selected);
    assert_eq!(request.source_label, "Explain");
}

#[test]
fn blank_editor_and_category_seeding() {
    let blank = QuickCommandEditorState::blank();
    assert_eq!(blank.execution_mode, "execute");
    assert_eq!(blank.focused_field, QuickCommandEditorField::Label);
    let categories = vec![category("ops")];
    let seeded =
        QuickCommandEditorState::blank_in_category(Some("ops".to_string()), &categories);
    assert_eq!(seeded.category_id.as_deref(), Some("ops"));
    let dangling =
        QuickCommandEditorState::blank_in_category(Some("gone".to_string()), &categories);
    assert_eq!(dangling.category_id, None);
}

#[test]
fn editor_from_command_fills_defaults() {
    let mut source = command("c1");
    source.description = Some("list".to_string());
    source.pinned = Some(true);
    let editor = QuickCommandEditorState::from_command(source);
    assert_eq!(editor.label, "c1");
    assert_eq!(editor.command, "pwd");
    assert_eq!(editor.description, "list");
    assert!(editor.pinned);
    assert_eq!(editor.execution_mode, "execute");
    assert_eq!(editor.category_id.as_deref(), Some("category-1"));
    assert_eq!(editor.original.map(|c| c.id), Some("c1".to_string()));
}

#[test]
fn store_answers_replace_history_or_roll_back_counts() {
    let mut catalog = CommandCatalogState::new(vec![command("command-1")], Vec::new());
    let mut history: Vec<String> = vec!["ls".to_string()];

    let r = apply_persistence_result(
        &mut catalog,
        &mut history,
        CommandPersistenceResult::History(Ok(vec!["ls".to_string(), "pwd".to_string()])),
    );
    assert_eq!(r, Ok(()));
    assert_eq!(history, ["ls", "pwd"]);

    let r = apply_persistence_result(
        &mut catalog,
        &mut history,
        CommandPersistenceResult::History(Err("disk full".to_string())),
    );
    assert_eq!(r, Err("command history save failed: disk full".to_string()));
    assert_eq!(history, ["ls", "pwd"]);

    assert!(queue_quick_command_use_count(&mut catalog, "command-1", true));
    assert_eq!(catalog.commands[0].use_count, Some(1));
    assert!(!queue_quick_command_use_count(&mut catalog, "command-1", false));
    assert_eq!(catalog.commands[0].use_count, Some(1));

    let r = apply_persistence_result(
        &mut catalog,
        &mut history,
        CommandPersistenceResult::QuickCommandUseCount {
            command_id: "command-1".to_string(),
            result: Err("locked".to_string()),
        },
    );
    assert_eq!(r, Err("quick command use count update failed: locked".to_string()));
    assert_eq!(catalog.commands[0].use_count, Some(0));

    let r = apply_persistence_result(
        &mut catalog,
        &mut history,
        CommandPersistenceResult::QuickCommandUseCount {
            command_id: "command-1".to_string(),
            result: Ok(()),
        },
    );
    assert_eq!(r, Ok(()));
    assert_eq!(catalog.commands[0].use_count, Some(0));
}

#[test]
fn blank_commands_are_not_copied() {
    assert_eq!(quick_command_text_to_copy("  \t".to_string()), None);
    assert_eq!(
        quick_command_text_to_copy(" ls -la ".to_string()),
        Some(" ls -la ".to_string())
    );
}

use nyaterm::quick_command::{QuickCommand, QuickCommandCategory};
use nyaterm::quick_command_delete::{
    category_command_count, delete_quick_command, delete_quick_command_category,
};

fn command(id: &str, category: Option<&str>) -> QuickCommand {
    QuickCommand {
        id: id.to_string(),
        label: id.to_string(),
        command: "pwd".to_string(),
        category_id: category.map(|c| c.to_string()),
        description: None,
        color_tag: None,
        icon_tag: None,
        pinned: None,
        execution_mode: None,
        source: None,
        risk_level: None,
        updated_at: None,
        created_at: None,
        use_count: None,
        sort_order: None,
    }
}

fn category(id: &str, parent: Option<&str>) -> QuickCommandCategory {
    QuickCommandCategory {
        id: id.to_string(),
        name: id.to_uppercase(),
        parent_id: parent.map(|p| p.to_string()),
        sort_order: 0,
    }
}

fn ids(commands: &[QuickCommand]) -> Vec<&str> {
    commands.iter().map(|c| c.id.as_str()).collect()
}

#[test]
fn deleting_a_command_reports_whether_it_was_there() {
    let mut commands = vec![command("a", None), command("b", Some("ops")), command("c", None)];
    assert!(delete_quick_command(&mut commands, "b"));
    assert_eq!(ids(&commands), ["a", "c"]);
    assert!(!delete_quick_command(&mut commands, "b"));
    assert_eq!(ids(&commands), ["a", "c"]);
}

#[test]
fn deleting_a_category_takes_its_own_commands_only() {
    let mut categories = vec![category("ops", None), category("db", Some("ops")), category("web", None)];
    let mut commands = vec![
        command("restart", Some("ops")),
        command("backup", Some("db")),
        command("deploy", Some("ops")),
        command("loose", None),
    ];
    assert_eq!(category_command_count(&commands, "ops"), 2);
    assert_eq!(category_command_count(&commands, "web"), 0);

    let (deleted, removed) = delete_quick_command_category(&mut categories, &mut commands, "ops");
    assert!(deleted);
    assert_eq!(removed, 2);
    let cat_ids: Vec<&str> = categories.iter().map(|c| c.id.as_str()).collect();
    assert_eq!(cat_ids, ["db", "web"]);
    assert_eq!(ids(&commands), ["backup", "loose"]);

    let (deleted, removed) = delete_quick_command_category(&mut categories, &mut commands, "ops");
    assert!(!deleted);
    assert_eq!(removed, 0);
}

#[test]
fn deleting_a_repeated_id_removes_every_copy() {
    let mut commands = vec![command("a", None), command("b", None), command("a", Some("x"))];
    assert!(delete_quick_command(&mut commands, "a"));
    assert_eq!(ids(&commands), ["b"]);
}

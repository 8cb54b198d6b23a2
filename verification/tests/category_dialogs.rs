use nyaterm::category_dialogs::{
    check_category_name, create_category, live_parent, next_sort_order, rename_category,
    CategoryCreateOutcome, CategoryNameError,
};
use nyaterm::quick_command::QuickCommandCategory;

fn category(id: &str, name: &str, parent: Option<&str>, order: i32) -> QuickCommandCategory {
    QuickCommandCategory {
        id: id.to_string(),
        name: name.to_string(),
        parent_id: parent.map(ToString::to_string),
        sort_order: order,
    }
}

fn catalog() -> Vec<QuickCommandCategory> {
    vec![
        category("a", "Linux ", None, 0),
        category("b", "Docker", None, 3),
        category("c", "Nested", Some("a"), 5),
    ]
}

#[test]
fn category_names_are_trimmed_required_and_unique_case_aside() {
    let cats = catalog();
    assert_eq!(check_category_name("  Ops  ", &cats, None), Ok("Ops".to_string()));
    assert_eq!(check_category_name("   ", &cats, None), Err(CategoryNameError::Required));
    assert_eq!(check_category_name("linux", &cats, None), Err(CategoryNameError::Duplicated));
    assert_eq!(check_category_name(" DOCKER", &cats, None), Err(CategoryNameError::Duplicated));
    assert_eq!(check_category_name("docker", &cats, Some("b")), Ok("docker".to_string()));
    assert_eq!(check_category_name("docker", &cats, Some("a")), Err(CategoryNameError::Duplicated));
}

#[test]
fn new_categories_go_last_under_a_live_parent() {
    let mut cats = catalog();
    assert_eq!(next_sort_order(&cats, &None), 4);
    assert_eq!(next_sort_order(&cats, &Some("a".to_string())), 6);
    assert_eq!(next_sort_order(&cats, &Some("c".to_string())), 0);
    assert_eq!(live_parent(&cats, Some("gone".to_string())), None);
    assert_eq!(live_parent(&cats, Some("a".to_string())), Some("a".to_string()));
    let outcome = create_category(&mut cats, "d".to_string(), "Ops".to_string(), Some("gone".to_string()));
    assert_eq!(outcome, CategoryCreateOutcome::Created);
    assert_eq!(cats.len(), 4);
    assert_eq!(cats[3].parent_id, None);
    assert_eq!(cats[3].sort_order, 4);
    let outcome = create_category(&mut cats, "e".to_string(), "Sub".to_string(), Some("a".to_string()));
    assert_eq!(outcome, CategoryCreateOutcome::Created);
    assert_eq!(cats[4].parent_id.as_deref(), Some("a"));
    assert_eq!(cats[4].sort_order, 6);
    let again = create_category(&mut cats, "f".to_string(), "ops".to_string(), None);
    assert_eq!(again, CategoryCreateOutcome::Duplicated);
    assert_eq!(cats.len(), 5);
    cats.push(category("g", "Max", None, i32::MAX));
    assert_eq!(next_sort_order(&cats, &None), i32::MAX);
}

#[test]
fn renaming_keeps_the_category_and_refuses_clashes() {
    let mut cats = catalog();
    assert_eq!(rename_category(&mut cats, "b", "Containers".to_string()), (true, false));
    assert_eq!(cats[1].name, "Containers");
    assert_eq!(cats[1].sort_order, 3);
    assert_eq!(rename_category(&mut cats, "b", "LINUX".to_string()), (false, true));
    assert_eq!(cats[1].name, "Containers");
    assert_eq!(rename_category(&mut cats, "missing", "Other".to_string()), (false, false));
    assert_eq!(rename_category(&mut cats, "a", "linux".to_string()), (true, false));
    assert_eq!(cats[0].name, "linux");
}

use felix_config::ExecTable;

fn list(items: &[&str]) -> Vec<String> {
    items.iter().map(|item| item.to_string()).collect()
}

#[test]
fn new_table_is_empty() {
    let table = ExecTable::new();
    assert_eq!(table.get("zathura"), None);
}

#[test]
fn inserted_command_is_found_with_its_extensions_in_order() {
    let mut table = ExecTable::new();
    table.insert("feh -.".to_string(), list(&["jpg", "jpeg", "png"]));
    table.insert("zathura".to_string(), list(&["pdf"]));
    assert_eq!(table.get("feh -."), Some(&list(&["jpg", "jpeg", "png"])));
    assert_eq!(table.get("zathura"), Some(&list(&["pdf"])));
    assert_eq!(table.get("feh"), None);
}

#[test]
fn inserting_a_command_again_replaces_its_extensions() {
    let mut table = ExecTable::new();
    table.insert("mpv".to_string(), list(&["mp4"]));
    table.insert("zathura".to_string(), list(&["pdf"]));
    table.insert("mpv".to_string(), list(&["mkv", "mp4"]));
    assert_eq!(table.get("mpv"), Some(&list(&["mkv", "mp4"])));
    assert_eq!(table.get("zathura"), Some(&list(&["pdf"])));
}

#[test]
fn clone_holds_the_same_commands() {
    let mut table = ExecTable::new();
    table.insert("mpv".to_string(), list(&["mp4"]));
    let copy = table.clone();
    assert_eq!(copy, table);
    assert_eq!(copy.get("mpv"), Some(&list(&["mp4"])));
}

#[test]
fn entries_list_each_command_once() {
    let mut table = ExecTable::new();
    table.insert("mpv".to_string(), list(&["mp4"]));
    table.insert("zathura".to_string(), list(&["pdf"]));
    table.insert("mpv".to_string(), list(&["mkv"]));
    let mut entries = table.entries().clone();
    entries.sort();
    assert_eq!(
        entries,
        vec![
            ("mpv".to_string(), list(&["mkv"])),
            ("zathura".to_string(), list(&["pdf"])),
        ]
    );
    assert!(ExecTable::new().entries().is_empty());
}

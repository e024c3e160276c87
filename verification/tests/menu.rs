use torqle::menu::{
    customize, find_file_menu, menu_command, on_menu_event, MenuCommand, MenuEntry, WINDOW_HEIGHT,
    WINDOW_WIDTH,
};

fn item(id: &str, text: &str, accelerator: &str) -> MenuEntry {
    MenuEntry::Item {
        id: id.to_string(),
        text: text.to_string(),
        accelerator: accelerator.to_string(),
    }
}

#[test]
fn file_menu_offers_windows_and_tabs() {
    assert_eq!(
        customize(),
        vec![
            item("new_window", "New Window", "CommandOrControl+N"),
            item("new_tab", "New Tab", "CommandOrControl+T"),
            MenuEntry::Separator,
            item("close_tab", "Close Tab", "CommandOrControl+W"),
            item("close_window", "Close Window", "CommandOrControl+Shift+W"),
        ]
    );
}

#[test]
fn file_menu_is_found_by_its_title() {
    let titles: Vec<String> =
        ["torqle", "File", "Edit", "File"].iter().map(|t| t.to_string()).collect();
    assert_eq!(find_file_menu(&titles), Some(1));
    let without: Vec<String> = ["Edit", "file", "Window"].iter().map(|t| t.to_string()).collect();
    assert_eq!(find_file_menu(&without), None);
    assert_eq!(find_file_menu(&vec![]), None);
}

#[test]
fn menu_items_set_off_their_commands() {
    assert_eq!(
        menu_command("new_window", "w1".to_string()),
        MenuCommand::NewWindow { label: "w1".to_string() }
    );
    assert_eq!(menu_command("close_window", "w1".to_string()), MenuCommand::CloseFocused);
    assert_eq!(menu_command("new_tab", "w1".to_string()), MenuCommand::Ignore);
    assert_eq!(menu_command("close_tab", "w1".to_string()), MenuCommand::Ignore);
    assert_eq!(menu_command("", "w1".to_string()), MenuCommand::Ignore);
}

#[test]
fn new_windows_get_fresh_labels() {
    let label_of = |command: MenuCommand| match command {
        MenuCommand::NewWindow { label } => label,
        other => panic!("no window: {:?}", other),
    };
    let first = label_of(on_menu_event("new_window"));
    let second = label_of(on_menu_event("new_window"));
    assert_ne!(first, second);
    for label in [first, second] {
        assert_eq!(label.len(), 36);
        for (at, c) in label.chars().enumerate() {
            if [8, 13, 18, 23].contains(&at) {
                assert_eq!(c, '-');
            } else {
                assert!(c.is_ascii_hexdigit() && !c.is_ascii_uppercase());
            }
        }
    }
    assert_eq!(on_menu_event("close_window"), MenuCommand::CloseFocused);
    assert_eq!(on_menu_event("quit"), MenuCommand::Ignore);
}

#[test]
fn new_windows_have_their_size() {
    assert_eq!((WINDOW_WIDTH, WINDOW_HEIGHT), (1280, 800));
}

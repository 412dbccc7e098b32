use arto::tabs::{add_tab, close_tab, generate_window_title, get_tab_display_name, switch_to_tab, link_click_action, open_file_action, open_preferences_action, reorder_tab, LinkClickAction, OpenFileAction, Tab, TabContent};

#[test]
fn test_tab_default() {
    let tab = Tab::default();
    assert_eq!(tab.content, TabContent::Empty);
    assert!(tab.is_no_file());
}

#[test]
fn test_tab_new_with_file() {
    let path = "/test/file.md".to_string();
    let tab = Tab::new(Some(path.clone()));

    assert_eq!(tab.content, TabContent::File(path.clone()));
    assert_eq!(tab.file(), Some(&path));
    assert!(!tab.is_no_file());
}

#[test]
fn test_tab_new_without_file() {
    let tab = Tab::new(None);
    assert_eq!(tab.content, TabContent::Empty);
    assert!(tab.is_no_file());
}

#[test]
fn test_tab_with_inline_content() {
    let content = "# Welcome".to_string();
    let tab = Tab::with_inline_content(content.clone());

    assert_eq!(tab.content, TabContent::Inline(content));
    assert!(tab.is_no_file());
    assert_eq!(tab.file(), None);
}

#[test]
fn test_tab_is_no_file() {
    assert!(Tab::new(None).is_no_file());
    assert!(Tab::with_inline_content("test".to_string()).is_no_file());

    let tab = Tab {
        content: TabContent::FileError("/test".to_string(), "error".to_string()),
        ..Default::default()
    };
    assert!(tab.is_no_file());

    let tab = Tab {
        content: TabContent::File("/test".to_string()),
        ..Default::default()
    };
    assert!(!tab.is_no_file());

    let tab = Tab {
        content: TabContent::Preferences,
        ..Default::default()
    };
    assert!(!tab.is_no_file());
}

#[test]
fn test_tab_navigate_to() {
    let mut tab = Tab::default();
    let path = "/test/file.md".to_string();

    tab.navigate_to(path.clone());

    assert_eq!(tab.content, TabContent::File(path.clone()));
    assert_eq!(tab.file(), Some(&path));
}

#[test]
fn test_tab_file() {
    let path = "/test/file.md".to_string();

    let mut tab = Tab::new(Some(path.clone()));
    assert_eq!(tab.file(), Some(&path));

    tab.content = TabContent::FileError(path.clone(), "error".to_string());
    assert_eq!(tab.file(), Some(&path));

    tab.content = TabContent::Empty;
    assert_eq!(tab.file(), None);
}

#[test]
fn test_window_title_variants() {
    assert_eq!(
        generate_window_title(&TabContent::File("/docs/readme.md".to_string())),
        "Arto - readme.md"
    );
    assert_eq!(
        generate_window_title(&TabContent::Inline("# Hi".to_string())),
        "Arto - Welcome"
    );
    assert_eq!(
        generate_window_title(&TabContent::Preferences),
        "Arto - Preferences"
    );
    assert_eq!(
        generate_window_title(&TabContent::FileError("/x/broken.md".to_string(), "e".to_string())),
        "Arto - broken.md (Error)"
    );
    assert_eq!(generate_window_title(&TabContent::Empty), "Arto");
    assert_eq!(
        generate_window_title(&TabContent::File("/".to_string())),
        "Arto - Unknown"
    );
}

#[test]
fn test_get_tab_display_name_variants() {
    assert_eq!(
        get_tab_display_name(&Tab::new(Some("/docs/readme.md".to_string()))),
        "readme.md"
    );
    assert_eq!(
        get_tab_display_name(&Tab::with_inline_content("# Hi".to_string())),
        "Welcome"
    );
    assert_eq!(
        get_tab_display_name(&Tab {
            content: TabContent::Preferences,
            ..Default::default()
        }),
        "Preferences"
    );
    assert_eq!(get_tab_display_name(&Tab::new(None)), "No file");
    assert_eq!(
        get_tab_display_name(&Tab::new(Some("/".to_string()))),
        "Unnamed file"
    );
}

#[test]
fn test_close_tab_adjusts_active() {
    let mut tabs = vec![
        Tab::new(Some("/a.md".to_string())),
        Tab::new(Some("/b.md".to_string())),
        Tab::new(Some("/c.md".to_string())),
    ];
    // Closing before the active tab shifts it left.
    let active = close_tab(&mut tabs, 2, 0);
    assert_eq!(tabs.len(), 2);
    assert_eq!(active, 1);
    // Closing the active tab at the end falls back to the previous one.
    let active = close_tab(&mut tabs, 1, 1);
    assert_eq!(tabs.len(), 1);
    assert_eq!(active, 0);
    // The last tab is cleared, not removed.
    let active = close_tab(&mut tabs, 0, 0);
    assert_eq!(tabs.len(), 1);
    assert_eq!(active, 0);
    assert_eq!(tabs[0].content, TabContent::Empty);
}

#[test]
fn test_reorder_tab_moves_and_adjusts_active() {
    let mut tabs = vec![
        Tab::new(Some("/a.md".to_string())),
        Tab::new(Some("/b.md".to_string())),
        Tab::new(Some("/c.md".to_string())),
    ];
    // Moving the active tab keeps the focus on it.
    let active = reorder_tab(&mut tabs, 0, 0, 2);
    assert_eq!(active, 2);
    assert_eq!(tabs[2].content, TabContent::File("/a.md".to_string()));
    // Out-of-range move changes nothing.
    let active = reorder_tab(&mut tabs, 2, 5, 0);
    assert_eq!(active, 2);
    assert_eq!(tabs.len(), 3);
    // A tab inside the affected range shifts toward the freed slot.
    let active = reorder_tab(&mut tabs, 1, 0, 2);
    assert_eq!(active, 0);
}

#[test]
fn test_open_file_and_preferences_actions() {
    let tabs = vec![
        Tab::new(Some("/a.md".to_string())),
        Tab::new(None),
        Tab::new(Some("/b.md".to_string())),
    ];
    assert_eq!(
        open_file_action(&tabs, 0, "/b.md"),
        OpenFileAction::SwitchTo(2)
    );
    assert_eq!(
        open_file_action(&tabs, 1, "/new.md"),
        OpenFileAction::NavigateCurrent
    );
    assert_eq!(
        open_file_action(&tabs, 0, "/new.md"),
        OpenFileAction::AddNewTab
    );
    assert_eq!(
        open_preferences_action(&tabs, 0),
        OpenFileAction::AddNewTab
    );
    assert_eq!(
        open_preferences_action(&tabs, 1),
        OpenFileAction::NavigateCurrent
    );
    let with_prefs = vec![
        Tab::new(None),
        Tab {
            content: TabContent::Preferences,
            ..Default::default()
        },
    ];
    assert_eq!(
        open_preferences_action(&with_prefs, 0),
        OpenFileAction::SwitchTo(1)
    );
}

#[test]
fn test_link_click_action() {
    assert_eq!(link_click_action(1), LinkClickAction::OpenInNewTab);
    assert_eq!(link_click_action(0), LinkClickAction::NavigateCurrentTab);
    assert_eq!(link_click_action(2), LinkClickAction::Ignore);
}

#[test]
fn test_add_and_switch_tab() {
    let mut tabs = vec![Tab::new(None)];
    let active = add_tab(&mut tabs, 0, Some("/a.md".to_string()), true);
    assert_eq!(active, 1);
    assert_eq!(tabs.len(), 2);
    assert_eq!(tabs[1].content, TabContent::File("/a.md".to_string()));
    let active = add_tab(&mut tabs, 1, None, false);
    assert_eq!(active, 1);
    assert_eq!(tabs.len(), 3);
    assert_eq!(switch_to_tab(3, 1, 2), 2);
    assert_eq!(switch_to_tab(3, 1, 9), 1);
}

use recent_menu::menu::{
    build_menu, build_recent_submenu, text_item, MenuEntry, MenuItem, MenuTree, NativeItem,
    Submenu, RECENT_LABEL_WIDTH,
};
use recent_menu::recent::RecentLists;

fn strings(items: &[&str]) -> Vec<String> {
    items.iter().map(|s| s.to_string()).collect()
}

fn text(id: &str, label: &str) -> MenuEntry {
    MenuEntry::Item(MenuItem {
        id: id.to_string(),
        label: label.to_string(),
        enabled: true,
        accelerator: None,
    })
}

fn placeholder(id: &str) -> MenuEntry {
    MenuEntry::Item(MenuItem {
        id: id.to_string(),
        label: "None".to_string(),
        enabled: false,
        accelerator: None,
    })
}

fn expected_menu(projects: Vec<MenuEntry>, evaluations: Vec<MenuEntry>) -> MenuTree {
    MenuTree {
        menus: vec![
            Submenu {
                title: "MANTRA".to_string(),
                entries: vec![
                    text("app_about", "About MANTRA"),
                    MenuEntry::Separator,
                    text("app_quit", "Quit"),
                ],
            },
            Submenu {
                title: "File".to_string(),
                entries: vec![
                    text("file_open_dataset", "Open Project\u{2026}"),
                    text("file_open_github", "Open Project from GitHub\u{2026}"),
                    MenuEntry::Submenu(Submenu {
                        title: "Open Recent Project".to_string(),
                        entries: projects,
                    }),
                    MenuEntry::Separator,
                    MenuEntry::Item(MenuItem {
                        id: "file_open_annotations".to_string(),
                        label: "Open Evaluations\u{2026}".to_string(),
                        enabled: true,
                        accelerator: Some("CmdOrCtrl+O".to_string()),
                    }),
                    MenuEntry::Submenu(Submenu {
                        title: "Open Recent Evaluations".to_string(),
                        entries: evaluations,
                    }),
                    text("file_save_annotations_as", "Save Evaluations As\u{2026}"),
                ],
            },
            Submenu {
                title: "Edit".to_string(),
                entries: vec![
                    MenuEntry::Native(NativeItem::Cut),
                    MenuEntry::Native(NativeItem::Copy),
                    MenuEntry::Native(NativeItem::Paste),
                    MenuEntry::Separator,
                    MenuEntry::Native(NativeItem::SelectAll),
                ],
            },
            Submenu {
                title: "Help".to_string(),
                entries: vec![
                    text("help_docs", "Documentation"),
                    text("help_about", "About MANTRA"),
                ],
            },
        ],
    }
}

#[test]
fn label_width_is_sixty() {
    assert_eq!(RECENT_LABEL_WIDTH, 60);
}

#[test]
fn text_item_is_enabled_and_has_no_accelerator() {
    assert_eq!(text_item("help_docs", "Documentation"), text("help_docs", "Documentation"));
}

#[test]
fn empty_list_gives_one_disabled_placeholder() {
    let menu = build_recent_submenu("Open Recent Project", "recent_project_", &Vec::new());
    assert_eq!(
        menu,
        Submenu {
            title: "Open Recent Project".to_string(),
            entries: vec![placeholder("recent_project_empty")],
        }
    );
}

#[test]
fn entries_follow_the_list_in_order() {
    let items = strings(&["/p/one.proj", "/p/two.proj", "/p/one.proj", "   "]);
    let menu = build_recent_submenu("Open Recent Evaluations", "recent_evaluation_", &items);
    assert_eq!(
        menu,
        Submenu {
            title: "Open Recent Evaluations".to_string(),
            entries: vec![
                text("recent_evaluation_0", "/p/one.proj"),
                text("recent_evaluation_1", "/p/two.proj"),
                text("recent_evaluation_2", "/p/one.proj"),
                text("recent_evaluation_3", "Unknown"),
            ],
        }
    );
}

#[test]
fn identifiers_count_past_nine() {
    let items: Vec<String> = (0..12).map(|i| format!("/p/{}", i)).collect();
    let menu = build_recent_submenu("t", "recent_project_", &items);
    assert_eq!(menu.entries.len(), 12);
    assert_eq!(menu.entries[9], text("recent_project_9", "/p/9"));
    assert_eq!(menu.entries[10], text("recent_project_10", "/p/10"));
    assert_eq!(menu.entries[11], text("recent_project_11", "/p/11"));
}

#[test]
fn long_paths_are_labelled_by_their_tail() {
    let path = format!("/very/long/{}/file.proj", "x".repeat(80));
    let tail: String = path.chars().skip(path.chars().count() - 56).collect();
    let menu = build_recent_submenu("t", "recent_project_", &vec![path.clone()]);
    assert_eq!(menu.entries, vec![text("recent_project_0", &format!("\u{2026}{}", tail))]);
}

#[test]
fn menu_for_empty_lists() {
    let tree = build_menu(&RecentLists::new());
    assert_eq!(
        tree,
        expected_menu(
            vec![placeholder("recent_project_empty")],
            vec![placeholder("recent_evaluation_empty")]
        )
    );
}

#[test]
fn menu_for_filled_lists() {
    let lists = RecentLists::from_parts(strings(&["/a.proj", "/b.proj"]), strings(&["/e.json"]));
    let tree = build_menu(&lists);
    assert_eq!(
        tree,
        expected_menu(
            vec![text("recent_project_0", "/a.proj"), text("recent_project_1", "/b.proj")],
            vec![text("recent_evaluation_0", "/e.json")]
        )
    );
}

#[test]
fn menus_stand_in_order() {
    let tree = build_menu(&RecentLists::new());
    let titles: Vec<&str> = tree.menus.iter().map(|m| m.title.as_str()).collect();
    assert_eq!(titles, vec!["MANTRA", "File", "Edit", "Help"]);
}

#[test]
fn same_lists_give_the_same_menu() {
    let a = RecentLists::from_parts(strings(&["/a", "/b"]), strings(&[]));
    let b = RecentLists::from_parts(strings(&["/a", "/b"]), strings(&[]));
    assert_eq!(build_menu(&a), build_menu(&b));
    assert_eq!(build_menu(&a), build_menu(&a));
}

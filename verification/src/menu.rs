//! The application menu as a tree of plain values.
//!
//! The menu is rebuilt as a whole whenever the recent lists change. What is
//! built here is a description: titles, identifiers, labels, in the order in
//! which they are shown. The host turns the description into its own menu
//! objects and installs them.
//!
//! The fixed part never changes. The two recent submenus follow the lists:
//! one entry per path, in list order, each under the identifier
//! `<prefix><index>` and labelled by [`recent_label`] in a width of
//! [`RECENT_LABEL_WIDTH`] characters; an empty list shows one disabled entry
//! labelled `None` under `<prefix>empty`.

use crate::identifier::{
    classify, index_identifier, indexed_id, placeholder_id, placeholder_identifier, MenuId,
    RecentKind,
};
use crate::label::{display_label, recent_label};
use crate::recent::{RecentLists, RecentListsView};
use vstd::prelude::*;
use vstd::string::*;

verus! {

/// The width, in characters, of the label of a recent entry.
pub const RECENT_LABEL_WIDTH: usize = 60;

/// An entry that the host provides with its own label and behaviour.
#[derive(Clone, Copy, Debug, PartialEq, Eq, Structural)]
pub enum NativeItem {
    Cut,
    Copy,
    Paste,
    SelectAll,
}

/// An entry that reports its identifier when it is chosen.
#[derive(Debug, PartialEq, Eq)]
pub struct MenuItem {
    pub id: String,
    pub label: String,
    pub enabled: bool,
    pub accelerator: Option<String>,
}

/// One line of a menu.
#[derive(Debug, PartialEq, Eq)]
pub enum MenuEntry {
    Item(MenuItem),
    Separator,
    Native(NativeItem),
    Submenu(Submenu),
}

/// A titled list of entries.
#[derive(Debug, PartialEq, Eq)]
pub struct Submenu {
    pub title: String,
    pub entries: Vec<MenuEntry>,
}

/// The whole menu: its top-level submenus, from left to right.
#[derive(Debug, PartialEq, Eq)]
pub struct MenuTree {
    pub menus: Vec<Submenu>,
}

/// What a [`MenuItem`] stands for.
pub struct MenuItemView {
    pub id: Seq<char>,
    pub label: Seq<char>,
    pub enabled: bool,
    pub accelerator: Option<Seq<char>>,
}

/// What a [`MenuEntry`] stands for.
pub enum MenuEntryView {
    Item(MenuItemView),
    Separator,
    Native(NativeItem),
    Submenu(SubmenuView),
}

/// What a [`Submenu`] stands for.
pub struct SubmenuView {
    pub title: Seq<char>,
    pub entries: Seq<MenuEntryView>,
}

/// What a [`MenuTree`] stands for.
pub struct MenuTreeView {
    pub menus: Seq<SubmenuView>,
}

impl View for MenuItem {
    type V = MenuItemView;

    open spec fn view(&self) -> MenuItemView {
        MenuItemView {
            id: self.id@,
            label: self.label@,
            enabled: self.enabled,
            accelerator: match self.accelerator {
                Some(keys) => Some(keys@),
                None => None,
            },
        }
    }
}

impl View for MenuEntry {
    type V = MenuEntryView;

    open spec fn view(&self) -> MenuEntryView
        decreases self,
    {
        match self {
            MenuEntry::Item(item) => MenuEntryView::Item(item@),
            MenuEntry::Separator => MenuEntryView::Separator,
            MenuEntry::Native(native) => MenuEntryView::Native(*native),
            MenuEntry::Submenu(submenu) => MenuEntryView::Submenu(submenu@),
        }
    }
}

impl View for Submenu {
    type V = SubmenuView;

    open spec fn view(&self) -> SubmenuView
        decreases self,
    {
        SubmenuView {
            title: self.title@,
            entries: Seq::new(
                self.entries.len() as nat,
                // Only indices within the list are ever read; the test is
                // what shows that the entry viewed is part of `self`.
                |i: int|
                    if 0 <= i < self.entries.len() {
                        self.entries[i]@
                    } else {
                        MenuEntryView::Separator
                    },
            ),
        }
    }
}

impl View for MenuTree {
    type V = MenuTreeView;

    open spec fn view(&self) -> MenuTreeView {
        MenuTreeView { menus: Seq::new(self.menus.len() as nat, |i: int| self.menus[i]@) }
    }
}

/// An enabled entry without accelerator.
pub open spec fn text_entry(id: Seq<char>, label: Seq<char>) -> MenuEntryView {
    MenuEntryView::Item(MenuItemView { id, label, enabled: true, accelerator: None })
}

/// The entry of the path at position `i` of `paths`.
pub open spec fn recent_entry(prefix: Seq<char>, paths: Seq<Seq<char>>, i: int) -> MenuEntryView {
    text_entry(indexed_id(prefix, i as nat), display_label(paths[i], RECENT_LABEL_WIDTH as nat))
}

/// The entry that an empty list shows: disabled, labelled `None`.
pub open spec fn placeholder_entry(prefix: Seq<char>) -> MenuEntryView {
    MenuEntryView::Item(
        MenuItemView {
            id: placeholder_id(prefix),
            label: "None"@,
            enabled: false,
            accelerator: None,
        },
    )
}

/// The entries of a recent submenu: the placeholder alone for an empty list,
/// otherwise one entry per path, in list order.
pub open spec fn recent_entries(prefix: Seq<char>, paths: Seq<Seq<char>>) -> Seq<MenuEntryView> {
    if paths.len() == 0 {
        seq![placeholder_entry(prefix)]
    } else {
        Seq::new(paths.len(), |i: int| recent_entry(prefix, paths, i))
    }
}

/// The recent submenu titled `title` for `paths`.
pub open spec fn recent_submenu(
    title: Seq<char>,
    prefix: Seq<char>,
    paths: Seq<Seq<char>>,
) -> SubmenuView {
    SubmenuView { title, entries: recent_entries(prefix, paths) }
}

/// The title of the recent submenu of a kind.
pub open spec fn recent_title(kind: RecentKind) -> Seq<char> {
    match kind {
        RecentKind::Project => "Open Recent Project"@,
        RecentKind::Evaluation => "Open Recent Evaluations"@,
    }
}

/// The recent submenu of `kind` for `lists`.
pub open spec fn recent_menu(kind: RecentKind, lists: RecentListsView) -> SubmenuView {
    recent_submenu(recent_title(kind), kind.spec_prefix(), lists.of(kind))
}

/// The application menu: about, separator, quit.
pub open spec fn app_menu() -> SubmenuView {
    SubmenuView {
        title: "MANTRA"@,
        entries: seq![
            text_entry("app_about"@, "About MANTRA"@),
            MenuEntryView::Separator,
            text_entry("app_quit"@, "Quit"@),
        ],
    }
}

/// The entry that opens evaluations, with its keyboard accelerator.
pub open spec fn open_evaluations_entry() -> MenuEntryView {
    MenuEntryView::Item(
        MenuItemView {
            id: "file_open_annotations"@,
            label: "Open Evaluations\u{2026}"@,
            enabled: true,
            accelerator: Some("CmdOrCtrl+O"@),
        },
    )
}

/// The file menu, with the two recent submenus of `lists` in it.
pub open spec fn file_menu(lists: RecentListsView) -> SubmenuView {
    SubmenuView {
        title: "File"@,
        entries: seq![
            text_entry("file_open_dataset"@, "Open Project\u{2026}"@),
            text_entry("file_open_github"@, "Open Project from GitHub\u{2026}"@),
            MenuEntryView::Submenu(recent_menu(RecentKind::Project, lists)),
            MenuEntryView::Separator,
            open_evaluations_entry(),
            MenuEntryView::Submenu(recent_menu(RecentKind::Evaluation, lists)),
            text_entry("file_save_annotations_as"@, "Save Evaluations As\u{2026}"@),
        ],
    }
}

/// The edit menu: cut, copy, paste, separator, select all.
pub open spec fn edit_menu() -> SubmenuView {
    SubmenuView {
        title: "Edit"@,
        entries: seq![
            MenuEntryView::Native(NativeItem::Cut),
            MenuEntryView::Native(NativeItem::Copy),
            MenuEntryView::Native(NativeItem::Paste),
            MenuEntryView::Separator,
            MenuEntryView::Native(NativeItem::SelectAll),
        ],
    }
}

/// The help menu: documentation, about.
pub open spec fn help_menu() -> SubmenuView {
    SubmenuView {
        title: "Help"@,
        entries: seq![
            text_entry("help_docs"@, "Documentation"@),
            text_entry("help_about"@, "About MANTRA"@),
        ],
    }
}

/// The menu that goes with `lists`: application, file, edit, help.
pub open spec fn menu_model(lists: RecentListsView) -> MenuTreeView {
    MenuTreeView { menus: seq![app_menu(), file_menu(lists), edit_menu(), help_menu()] }
}

/// The identifiers of the fixed entries, in menu order.
pub open spec fn fixed_ids() -> Seq<Seq<char>> {
    seq![
        "app_about"@,
        "app_quit"@,
        "file_open_dataset"@,
        "file_open_github"@,
        "file_open_annotations"@,
        "file_save_annotations_as"@,
        "help_docs"@,
        "help_about"@,
    ]
}

/// No fixed identifier can be taken for the identifier of a recent entry:
/// `app_quit` reads as quit, and every other fixed identifier as generic.
pub proof fn lemma_fixed_ids_are_not_recent(k: int)
    requires
        0 <= k < fixed_ids().len(),
    ensures
        k == 1 ==> classify(fixed_ids()[k]) == MenuId::Quit,
        k != 1 ==> classify(fixed_ids()[k]) == MenuId::Generic,
{
    reveal_strlit("app_about");
    reveal_strlit("app_quit");
    reveal_strlit("file_open_dataset");
    reveal_strlit("file_open_github");
    reveal_strlit("file_open_annotations");
    reveal_strlit("file_save_annotations_as");
    reveal_strlit("help_docs");
    reveal_strlit("help_about");
    reveal_strlit("recent_project_");
    reveal_strlit("recent_evaluation_");
    let id = fixed_ids()[k];
    let project = RecentKind::Project.spec_prefix();
    let evaluation = RecentKind::Evaluation.spec_prefix();
    assert(project[0] == 'r' && evaluation[0] == 'r');
    assert(id[0] != 'r');
    if k != 1 {
        assert(id.len() != 8 || id[4] != 'q');
    }
}

/// An enabled entry without accelerator.
pub fn text_item(id: &str, label: &str) -> (entry: MenuEntry)
    ensures
        entry@ == text_entry(id@, label@),
{
    MenuEntry::Item(
        MenuItem {
            id: String::from_str(id),
            label: String::from_str(label),
            enabled: true,
            accelerator: None,
        },
    )
}

/// Builds the submenu of one recent list.
///
/// An empty list gives a single disabled entry labelled `None` under the
/// identifier `<prefix>empty`. Otherwise the path at position `i` gives the
/// `i`-th entry: enabled, under the identifier `<prefix><i>`, labelled by
/// [`recent_label`] in a width of [`RECENT_LABEL_WIDTH`].
pub fn build_recent_submenu(title: &str, prefix: &str, items: &Vec<String>) -> (menu: Submenu)
    ensures
        menu@ == recent_submenu(title@, prefix@, items.deep_view()),
{
    let ghost paths = items.deep_view();
    let mut entries: Vec<MenuEntry> = Vec::new();
    if items.len() == 0 {
        let placeholder = MenuItem {
            id: placeholder_identifier(prefix),
            label: String::from_str("None"),
            enabled: false,
            accelerator: None,
        };
        entries.push(MenuEntry::Item(placeholder));
        let menu = Submenu { title: String::from_str(title), entries };
        assert(menu@.entries =~= recent_entries(prefix@, paths));
        return menu;
    }
    let mut idx: usize = 0;
    while idx < items.len()
        invariant
            paths == items.deep_view(),
            idx <= items.len(),
            entries.len() == idx,
            forall|j: int| 0 <= j < idx ==> (#[trigger] entries@[j])@ == recent_entry(prefix@, paths, j),
        decreases items.len() - idx,
    {
        let label = recent_label(items[idx].as_str(), RECENT_LABEL_WIDTH);
        let id = index_identifier(prefix, idx);
        let entry = MenuEntry::Item(MenuItem { id, label, enabled: true, accelerator: None });
        assert(paths[idx as int] == items@[idx as int]@);
        assert(entry@ == recent_entry(prefix@, paths, idx as int));
        entries.push(entry);
        idx += 1;
    }
    let menu = Submenu { title: String::from_str(title), entries };
    assert(menu@.entries =~= recent_entries(prefix@, paths));
    menu
}

/// The title of the recent submenu of a kind.
pub fn recent_menu_title(kind: RecentKind) -> (title: &'static str)
    ensures
        title@ == recent_title(kind),
{
    match kind {
        RecentKind::Project => "Open Recent Project",
        RecentKind::Evaluation => "Open Recent Evaluations",
    }
}

/// The application menu.
fn build_app_menu() -> (menu: Submenu)
    ensures
        menu@ == app_menu(),
{
    let mut entries: Vec<MenuEntry> = Vec::new();
    entries.push(text_item("app_about", "About MANTRA"));
    entries.push(MenuEntry::Separator);
    entries.push(text_item("app_quit", "Quit"));
    let menu = Submenu { title: String::from_str("MANTRA"), entries };
    assert(menu@.entries =~= app_menu().entries);
    menu
}

/// The file menu for `recents`.
fn build_file_menu(recents: &RecentLists) -> (menu: Submenu)
    ensures
        menu@ == file_menu(recents@),
{
    let recent_projects = build_recent_submenu(
        recent_menu_title(RecentKind::Project),
        RecentKind::Project.prefix(),
        &recents.projects,
    );
    let recent_evaluations = build_recent_submenu(
        recent_menu_title(RecentKind::Evaluation),
        RecentKind::Evaluation.prefix(),
        &recents.evaluations,
    );
    let open_evaluations = MenuItem {
        id: String::from_str("file_open_annotations"),
        label: String::from_str("Open Evaluations\u{2026}"),
        enabled: true,
        accelerator: Some(String::from_str("CmdOrCtrl+O")),
    };
    let mut entries: Vec<MenuEntry> = Vec::new();
    entries.push(text_item("file_open_dataset", "Open Project\u{2026}"));
    entries.push(text_item("file_open_github", "Open Project from GitHub\u{2026}"));
    entries.push(MenuEntry::Submenu(recent_projects));
    entries.push(MenuEntry::Separator);
    entries.push(MenuEntry::Item(open_evaluations));
    entries.push(MenuEntry::Submenu(recent_evaluations));
    entries.push(text_item("file_save_annotations_as", "Save Evaluations As\u{2026}"));
    let menu = Submenu { title: String::from_str("File"), entries };
    assert(menu@.entries =~= file_menu(recents@).entries);
    menu
}

/// The edit menu.
fn build_edit_menu() -> (menu: Submenu)
    ensures
        menu@ == edit_menu(),
{
    let mut entries: Vec<MenuEntry> = Vec::new();
    entries.push(MenuEntry::Native(NativeItem::Cut));
    entries.push(MenuEntry::Native(NativeItem::Copy));
    entries.push(MenuEntry::Native(NativeItem::Paste));
    entries.push(MenuEntry::Separator);
    entries.push(MenuEntry::Native(NativeItem::SelectAll));
    let menu = Submenu { title: String::from_str("Edit"), entries };
    assert(menu@.entries =~= edit_menu().entries);
    menu
}

/// The help menu.
fn build_help_menu() -> (menu: Submenu)
    ensures
        menu@ == help_menu(),
{
    let mut entries: Vec<MenuEntry> = Vec::new();
    entries.push(text_item("help_docs", "Documentation"));
    entries.push(text_item("help_about", "About MANTRA"));
    let menu = Submenu { title: String::from_str("Help"), entries };
    assert(menu@.entries =~= help_menu().entries);
    menu
}

/// Builds the whole menu for `recents`: the application menu, the file menu
/// with both recent submenus, the edit menu and the help menu, in that order.
pub fn build_menu(recents: &RecentLists) -> (tree: MenuTree)
    ensures
        tree@ == menu_model(recents@),
{
    let mut menus: Vec<Submenu> = Vec::new();
    menus.push(build_app_menu());
    menus.push(build_file_menu(recents));
    menus.push(build_edit_menu());
    menus.push(build_help_menu());
    let tree = MenuTree { menus };
    assert(tree@.menus =~= menu_model(recents@).menus);
    tree
}

} // verus!

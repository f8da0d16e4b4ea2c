//! From a chosen menu identifier to what the application should do.
//!
//! A click arrives as the identifier of the entry that was chosen. The
//! identifier is read once, by [`parse_identifier`], and resolved against the
//! recent lists as they are at that moment:
//!
//! * `app_quit` asks to quit;
//! * the identifier of a recent entry asks to open the path that stands at
//!   its position now, and asks for nothing when the list has become too
//!   short for it, when it names the placeholder, or when no index follows
//!   the prefix;
//! * every other identifier is handed on unchanged.
//!
//! Nothing here fails: an identifier that points nowhere gives no action.

use crate::identifier::{
    classify, indexed_id, lemma_indexed_id_round_trip, lemma_placeholder_id_round_trip,
    parse_identifier, placeholder_id, MenuId, RecentKind,
};
use crate::menu::{
    build_menu, menu_model, placeholder_entry, recent_entry, recent_menu, MenuEntryView, MenuTree,
};
use crate::recent::{MenuError, RecentLists, RecentListsView, RecentRegistry};
use vstd::prelude::*;
use vstd::string::*;

verus! {

/// What is sent along with the request to open a recent entry.
#[derive(Debug, PartialEq, Eq)]
pub struct RecentPayload {
    pub kind: RecentKind,
    pub path: String,
}

/// What the application is asked to do.
#[derive(Debug, PartialEq, Eq)]
pub enum Action {
    /// Leave the application.
    Quit,
    /// Open the recent entry of the payload.
    OpenRecent(RecentPayload),
    /// Handle `identifier` elsewhere; it is the identifier as it arrived.
    Generic { identifier: String },
}

/// What an [`Action`] stands for.
pub enum ActionView {
    Quit,
    OpenRecent { kind: RecentKind, path: Seq<char> },
    Generic { identifier: Seq<char> },
}

impl View for Action {
    type V = ActionView;

    open spec fn view(&self) -> ActionView {
        match self {
            Action::Quit => ActionView::Quit,
            Action::OpenRecent(payload) => ActionView::OpenRecent {
                kind: payload.kind,
                path: payload.path@,
            },
            Action::Generic { identifier } => ActionView::Generic { identifier: identifier@ },
        }
    }
}

/// What an optional action stands for.
pub open spec fn outcome_view(action: Option<Action>) -> Option<ActionView> {
    match action {
        Some(action) => Some(action@),
        None => None,
    }
}

/// The action for an identifier that was read as `target`, against `lists`.
pub open spec fn action_for(target: MenuId, id: Seq<char>, lists: RecentListsView) -> Option<
    ActionView,
> {
    match target {
        MenuId::Quit => Some(ActionView::Quit),
        MenuId::RecentItem { kind, index } => if index < lists.of(kind).len() {
            Some(ActionView::OpenRecent { kind, path: lists.of(kind)[index as int] })
        } else {
            None
        },
        MenuId::Placeholder { .. } => None,
        MenuId::Malformed { .. } => None,
        MenuId::Generic => Some(ActionView::Generic { identifier: id }),
    }
}

/// The action for the identifier `id` against `lists`.
pub open spec fn resolution(id: Seq<char>, lists: RecentListsView) -> Option<ActionView> {
    action_for(classify(id), id, lists)
}

/// Where the recent submenu of a kind stands in the file menu.
pub open spec fn recent_slot(kind: RecentKind) -> int {
    match kind {
        RecentKind::Project => 2,
        RecentKind::Evaluation => 5,
    }
}

impl Action {
    /// The name of the event that carries this action.
    pub open spec fn spec_event_name(self) -> Option<Seq<char>> {
        match self {
            Action::Quit => None,
            Action::OpenRecent(_) => Some("menu-open-recent"@),
            Action::Generic { .. } => Some("menu-action"@),
        }
    }

    /// The name of the event that carries this action to the rest of the
    /// application: `menu-open-recent` with the payload, `menu-action` with
    /// the identifier. Quitting is carried by no event.
    pub fn event_name(&self) -> (name: Option<&'static str>)
        ensures
            name.is_some() == self.spec_event_name().is_some(),
            name.is_some() ==> name.unwrap()@ == self.spec_event_name().unwrap(),
    {
        match self {
            Action::Quit => None,
            Action::OpenRecent(_) => Some("menu-open-recent"),
            Action::Generic { .. } => Some("menu-action"),
        }
    }
}

/// The action for an identifier that was read as `target`, against `lists`.
pub fn resolve_parsed(target: MenuId, identifier: &str, lists: &RecentLists) -> (action: Option<
    Action,
>)
    ensures
        outcome_view(action) == action_for(target, identifier@, lists@),
{
    match target {
        MenuId::Quit => Some(Action::Quit),
        MenuId::RecentItem { kind, index } => match lists.path_at(kind, index) {
            Some(path) => Some(Action::OpenRecent(RecentPayload { kind, path: path.clone() })),
            None => None,
        },
        MenuId::Placeholder { .. } => None,
        MenuId::Malformed { .. } => None,
        MenuId::Generic => Some(Action::Generic { identifier: String::from_str(identifier) }),
    }
}

/// Resolves `identifier` against `lists`.
///
/// `app_quit` gives [`Action::Quit`]. The identifier of a recent entry gives
/// [`Action::OpenRecent`] with the path at its position in the list of its
/// kind, and no action when the list has no such position. The identifier of
/// a placeholder, and a recent prefix followed by anything but an index, give
/// no action. Every other identifier gives [`Action::Generic`] with the
/// identifier itself.
pub fn resolve(identifier: &str, lists: &RecentLists) -> (action: Option<Action>)
    ensures
        outcome_view(action) == resolution(identifier@, lists@),
{
    resolve_parsed(parse_identifier(identifier), identifier, lists)
}

/// Resolves `identifier` against what `registry` holds at the time of the
/// call.
///
/// The registry is read only for the identifier of a recent entry. What it
/// holds then is not known here, so the answer for such an identifier is
/// either no action or the request to open an entry of the identifier's
/// kind; [`resolve`] says which, for each content of the lists. A registry
/// whose lock is poisoned gives no action. Every other identifier is
/// answered as [`resolve`] answers it, whatever the lists.
pub fn route(identifier: &str, registry: &RecentRegistry) -> (action: Option<Action>)
    ensures
        !(classify(identifier@) is RecentItem) ==> forall|lists: RecentListsView|
            outcome_view(action) == #[trigger] resolution(identifier@, lists),
        classify(identifier@) matches MenuId::RecentItem { kind, index } ==> action.is_none() || (
        exists|lists: RecentListsView|
            outcome_view(action) == #[trigger] resolution(identifier@, lists)),
{
    let target = parse_identifier(identifier);
    match target {
        MenuId::RecentItem { .. } => match registry.snapshot() {
            Ok(lists) => {
                let action = resolve_parsed(target, identifier, &lists);
                assert(outcome_view(action) == resolution(identifier@, lists@));
                action
            },
            Err(_) => None,
        },
        _ => {
            let lists = RecentLists::new();
            resolve_parsed(target, identifier, &lists)
        },
    }
}

/// Replaces the lists of `registry` by `projects` and `evaluations` and
/// rebuilds the menu for them.
///
/// On success the menu is exactly the one that goes with the new lists; it is
/// built from the lists that were handed in, not from a later reading of the
/// registry. The update fails with [`MenuError::LockUnavailable`], and with
/// nothing else, when the lock of the registry is poisoned; no menu is handed
/// out then.
pub fn set_recent_menus(
    registry: &RecentRegistry,
    projects: Vec<String>,
    evaluations: Vec<String>,
) -> (outcome: Result<MenuTree, MenuError>)
    ensures
        outcome matches Ok(tree) ==> tree@ == menu_model(
            RecentListsView {
                projects: projects.deep_view(),
                evaluations: evaluations.deep_view(),
            },
        ),
        outcome matches Err(e) ==> e is LockUnavailable,
{
    let lists = RecentLists::from_parts(projects, evaluations);
    let tree = build_menu(&lists);
    match registry.store(lists) {
        Ok(()) => Ok(tree),
        Err(e) => Err(e),
    }
}

/// The recent submenu of each kind stands in the file menu, which is the
/// second menu of the tree.
pub proof fn lemma_recent_menus_are_in_the_tree(lists: RecentListsView, kind: RecentKind)
    ensures
        menu_model(lists).menus[1].entries[recent_slot(kind)] == MenuEntryView::Submenu(
            recent_menu(kind, lists),
        ),
{
}

/// Round trip: the entry that the menu shows for the path at `index` carries
/// an identifier that resolves, against the same lists, to the request to
/// open exactly that path.
pub proof fn lemma_recent_entry_round_trip(lists: RecentListsView, kind: RecentKind, index: usize)
    requires
        index < lists.of(kind).len(),
    ensures
        recent_menu(kind, lists).entries.len() == lists.of(kind).len(),
        recent_menu(kind, lists).entries[index as int] == recent_entry(
            kind.spec_prefix(),
            lists.of(kind),
            index as int,
        ),
        recent_menu(kind, lists).entries[index as int] matches MenuEntryView::Item(item)
            && item.id == indexed_id(kind.spec_prefix(), index as nat) && item.enabled,
        resolution(indexed_id(kind.spec_prefix(), index as nat), lists) == Some(
            ActionView::OpenRecent { kind, path: lists.of(kind)[index as int] },
        ),
{
    lemma_indexed_id_round_trip(kind, index);
}

/// An empty list shows exactly one entry, the disabled placeholder, and the
/// identifier of the placeholder resolves to no action whatever the lists.
pub proof fn lemma_empty_list_shows_an_inert_placeholder(
    lists: RecentListsView,
    kind: RecentKind,
    later: RecentListsView,
)
    requires
        lists.of(kind).len() == 0,
    ensures
        recent_menu(kind, lists).entries == seq![placeholder_entry(kind.spec_prefix())],
        placeholder_entry(kind.spec_prefix()) matches MenuEntryView::Item(item) && item.id
            == placeholder_id(kind.spec_prefix()) && !item.enabled,
        resolution(placeholder_id(kind.spec_prefix()), later) is None,
{
    lemma_placeholder_id_round_trip(kind);
}

/// An identifier whose index lies beyond the end of the list resolves to no
/// action.
pub proof fn lemma_stale_index_is_inert(lists: RecentListsView, kind: RecentKind, index: usize)
    requires
        index >= lists.of(kind).len(),
    ensures
        resolution(indexed_id(kind.spec_prefix(), index as nat), lists) is None,
{
    lemma_indexed_id_round_trip(kind, index);
}

} // verus!

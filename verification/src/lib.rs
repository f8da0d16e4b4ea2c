//! The native-menu core of a desktop application shell.
//!
//! The application keeps two ordered lists of recently opened paths, shows
//! them in its menu and reacts when an entry is chosen. This crate holds the
//! part of that which can be decided without a window:
//!
//! * [`label`]: the display label of a path, shortened to a fixed width;
//! * [`identifier`]: the grammar of menu identifiers, written and read;
//! * [`recent`]: the recent lists and the registry that shares them;
//! * [`menu`]: the menu tree that goes with the lists;
//! * [`router`]: from a chosen identifier to an action, and the update that
//!   replaces the lists and rebuilds the menu;
//! * [`text`]: the character-level helpers the grammar is read with.
//!
//! Building host menu objects, installing them and emitting events is left to
//! the application around this crate.

pub mod identifier;
pub mod label;
pub mod menu;
pub mod recent;
pub mod router;
pub mod text;

pub use identifier::{parse_identifier, MenuId, RecentKind};
pub use label::{recent_label, truncate_label};
pub use menu::{
    build_menu, build_recent_submenu, MenuEntry, MenuItem, MenuTree, NativeItem, Submenu,
    RECENT_LABEL_WIDTH,
};
pub use recent::{MenuError, RecentLists, RecentRegistry};
pub use router::{resolve, route, set_recent_menus, Action, RecentPayload};

//! The recent lists and the registry that shares them.
//!
//! [`RecentLists`] is a plain value: two ordered lists of paths, one per kind
//! of recent entry. The position of a path is its place in the menu and the
//! number in its identifier. Nothing is deduplicated or capped here.
//!
//! [`RecentRegistry`] keeps one such value behind a lock for the lifetime of
//! the application. It is only ever replaced as a whole and read as a whole,
//! so that no reader sees the projects of one update beside the evaluations
//! of another.

use crate::identifier::RecentKind;
use std::sync::Mutex;
use vstd::prelude::*;
use vstd::string::*;

verus! {

/// `std::sync::Mutex`, carried through as an opaque value.
#[verifier::external_type_specification]
#[verifier::external_body]
#[verifier::reject_recursive_types(T)]
pub struct ExMutex<T: ?Sized>(Mutex<T>);

/// The two ordered lists of recent paths.
#[derive(Debug, PartialEq, Eq)]
pub struct RecentLists {
    pub projects: Vec<String>,
    pub evaluations: Vec<String>,
}

/// What a [`RecentLists`] stands for: each list as a sequence of texts.
pub struct RecentListsView {
    pub projects: Seq<Seq<char>>,
    pub evaluations: Seq<Seq<char>>,
}

impl RecentListsView {
    /// The list of one kind.
    pub open spec fn of(self, kind: RecentKind) -> Seq<Seq<char>> {
        match kind {
            RecentKind::Project => self.projects,
            RecentKind::Evaluation => self.evaluations,
        }
    }

    /// Two empty lists.
    pub open spec fn empty() -> RecentListsView {
        RecentListsView { projects: Seq::empty(), evaluations: Seq::empty() }
    }
}

impl View for RecentLists {
    type V = RecentListsView;

    open spec fn view(&self) -> RecentListsView {
        RecentListsView {
            projects: self.projects.deep_view(),
            evaluations: self.evaluations.deep_view(),
        }
    }
}

impl Clone for RecentLists {
    fn clone(&self) -> (copy: Self)
        ensures
            copy@ == self@,
    {
        let projects = self.projects.clone();
        let evaluations = self.evaluations.clone();
        assert(projects.deep_view() =~= self.projects.deep_view());
        assert(evaluations.deep_view() =~= self.evaluations.deep_view());
        RecentLists { projects, evaluations }
    }
}

impl Default for RecentLists {
    fn default() -> (lists: Self)
        ensures
            lists@ == RecentListsView::empty(),
    {
        RecentLists::new()
    }
}

impl RecentLists {
    /// Two empty lists.
    pub fn new() -> (lists: Self)
        ensures
            lists@ == RecentListsView::empty(),
    {
        let lists = RecentLists { projects: Vec::new(), evaluations: Vec::new() };
        assert(lists.projects.deep_view() =~= Seq::<Seq<char>>::empty());
        assert(lists.evaluations.deep_view() =~= Seq::<Seq<char>>::empty());
        lists
    }

    /// The lists made of `projects` and `evaluations`, each in its order.
    pub fn from_parts(projects: Vec<String>, evaluations: Vec<String>) -> (lists: Self)
        ensures
            lists@.projects == projects.deep_view(),
            lists@.evaluations == evaluations.deep_view(),
    {
        RecentLists { projects, evaluations }
    }

    /// Overwrites both lists at once; nothing of the old lists remains.
    pub fn replace(&mut self, projects: Vec<String>, evaluations: Vec<String>)
        ensures
            final(self)@.projects == projects.deep_view(),
            final(self)@.evaluations == evaluations.deep_view(),
    {
        self.projects = projects;
        self.evaluations = evaluations;
    }

    /// The list of one kind.
    pub fn entries(&self, kind: RecentKind) -> (list: &Vec<String>)
        ensures
            list.deep_view() == self@.of(kind),
    {
        match kind {
            RecentKind::Project => &self.projects,
            RecentKind::Evaluation => &self.evaluations,
        }
    }

    /// The path at `index` in the list of `kind`, if the list is that long.
    pub fn path_at(&self, kind: RecentKind, index: usize) -> (path: Option<&String>)
        ensures
            index < self@.of(kind).len() ==> path.is_some() && path.unwrap()@ == self@.of(
                kind,
            )[index as int],
            index >= self@.of(kind).len() ==> path.is_none(),
    {
        let list = self.entries(kind);
        if index < list.len() {
            assert(list.deep_view()[index as int] == list@[index as int]@);
            Some(&list[index])
        } else {
            None
        }
    }
}

/// Why an update of the menu failed.
#[derive(Debug, PartialEq, Eq)]
pub enum MenuError {
    /// The lock of the registry is poisoned: a holder ended abnormally.
    LockUnavailable,
    /// The host could not build or install the menu; `detail` is its report.
    MenuConstruction { detail: String },
}

impl MenuError {
    /// The text of [`MenuError::message`].
    pub open spec fn spec_message(self) -> Seq<char> {
        match self {
            MenuError::LockUnavailable => "Recent menu lock poisoned"@,
            MenuError::MenuConstruction { detail } => detail@,
        }
    }

    /// The error as a message for the user.
    pub fn message(&self) -> (text: String)
        ensures
            text@ == self.spec_message(),
    {
        match self {
            MenuError::LockUnavailable => String::from_str("Recent menu lock poisoned"),
            MenuError::MenuConstruction { detail } => detail.clone(),
        }
    }
}

/// The shared home of the recent lists.
pub struct RecentRegistry {
    slot: Mutex<RecentLists>,
}

/// The lists that a lock was made to hold when it was created. It says
/// nothing of what the lock holds later.
pub uninterp spec fn made_with(slot: Mutex<RecentLists>) -> RecentListsView;

/// `Mutex::new`: a lock made to hold `lists`, which [`made_with`] records.
#[verifier::external_body]
fn mutex_new(lists: RecentLists) -> (slot: Mutex<RecentLists>)
    ensures
        made_with(slot) == lists@,
{
    Mutex::new(lists)
}

/// `Mutex::lock`, then an assignment through the guard: puts `lists` in the
/// place of what the lock held. Answers `false`, and stores nothing, when the
/// lock is poisoned. Nothing is claimed of what the lock holds afterwards:
/// another holder may replace it at once.
#[verifier::external_body]
fn mutex_store(slot: &Mutex<RecentLists>, lists: RecentLists) -> (stored: bool) {
    match slot.lock() {
        Ok(mut guard) => {
            *guard = lists;
            true
        },
        Err(_) => false,
    }
}

/// `Mutex::lock`, then a copy of what the guard shows. Answers `None` when
/// the lock is poisoned. Nothing is claimed of the copy: what the lock holds
/// is whatever its last holder left there.
#[verifier::external_body]
fn mutex_load(slot: &Mutex<RecentLists>) -> (lists: Option<RecentLists>) {
    match slot.lock() {
        Ok(guard) => Some(
            RecentLists {
                projects: guard.projects.clone(),
                evaluations: guard.evaluations.clone(),
            },
        ),
        Err(_) => None,
    }
}

impl RecentRegistry {
    /// The lists that the registry was created with. What it holds at a
    /// later time is what its last holder stored, which no contract can name.
    pub closed spec fn initial(&self) -> RecentListsView {
        made_with(self.slot)
    }

    /// A registry created with two empty lists.
    pub fn new() -> (registry: Self)
        ensures
            registry.initial() == RecentListsView::empty(),
    {
        RecentRegistry { slot: mutex_new(RecentLists::new()) }
    }

    /// Puts `lists` in the place of the current lists, in one step under the
    /// lock. Whether that succeeds is for the lock to say, and
    /// [`store_outcome`] states the answer for either case: the only failure
    /// is [`MenuError::LockUnavailable`], for a poisoned lock.
    pub fn store(&self, lists: RecentLists) -> (outcome: Result<(), MenuError>)
        ensures
            outcome matches Err(e) ==> e is LockUnavailable,
    {
        store_outcome(mutex_store(&self.slot, lists))
    }

    /// Overwrites both lists at once: the two are stored as one value, in one
    /// step under the lock. The only failure is
    /// [`MenuError::LockUnavailable`], for a poisoned lock.
    pub fn replace(&self, projects: Vec<String>, evaluations: Vec<String>) -> (outcome: Result<
        (),
        MenuError,
    >)
        ensures
            outcome matches Err(e) ==> e is LockUnavailable,
    {
        self.store(RecentLists::from_parts(projects, evaluations))
    }

    /// A copy of both lists as one holder of the lock left them. What the
    /// lock shows is for the lock to say, and [`snapshot_outcome`] states the
    /// answer for either case: the only failure is
    /// [`MenuError::LockUnavailable`], for a poisoned lock.
    pub fn snapshot(&self) -> (outcome: Result<RecentLists, MenuError>)
        ensures
            outcome matches Err(e) ==> e is LockUnavailable,
    {
        snapshot_outcome(mutex_load(&self.slot))
    }
}

/// What storing answers: success when the lock took the lists, and
/// [`MenuError::LockUnavailable`] when it did not.
pub open spec fn spec_store_outcome(stored: bool) -> Result<(), MenuError> {
    if stored {
        Ok(())
    } else {
        Err(MenuError::LockUnavailable)
    }
}

/// What a snapshot answers: the lists that the lock showed, as they are, and
/// [`MenuError::LockUnavailable`] when it showed none.
pub open spec fn spec_snapshot_outcome(loaded: Option<RecentLists>) -> Result<
    RecentLists,
    MenuError,
> {
    match loaded {
        Some(lists) => Ok(lists),
        None => Err(MenuError::LockUnavailable),
    }
}

/// The outcome of [`RecentRegistry::store`] for the answer of the lock:
/// `stored` says whether the lock took the lists.
pub fn store_outcome(stored: bool) -> (outcome: Result<(), MenuError>)
    ensures
        outcome == spec_store_outcome(stored),
{
    if stored {
        Ok(())
    } else {
        Err(MenuError::LockUnavailable)
    }
}

/// The outcome of [`RecentRegistry::snapshot`] for the answer of the lock:
/// `loaded` holds the lists that the lock showed, or nothing for a poisoned
/// lock.
pub fn snapshot_outcome(loaded: Option<RecentLists>) -> (outcome: Result<RecentLists, MenuError>)
    ensures
        outcome == spec_snapshot_outcome(loaded),
{
    match loaded {
        Some(lists) => Ok(lists),
        None => Err(MenuError::LockUnavailable),
    }
}

} // verus!

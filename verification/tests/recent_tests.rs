use recent_menu::identifier::RecentKind;
use recent_menu::recent::{
    snapshot_outcome, store_outcome, MenuError, RecentLists, RecentRegistry,
};

fn strings(items: &[&str]) -> Vec<String> {
    items.iter().map(|s| s.to_string()).collect()
}

#[test]
fn new_lists_are_empty() {
    let lists = RecentLists::new();
    assert!(lists.projects.is_empty());
    assert!(lists.evaluations.is_empty());
    assert_eq!(RecentLists::default(), RecentLists::new());
}

#[test]
fn lists_keep_order_and_duplicates() {
    let lists = RecentLists::from_parts(strings(&["b", "a", "b", ""]), strings(&["x"]));
    assert_eq!(lists.projects, strings(&["b", "a", "b", ""]));
    assert_eq!(lists.evaluations, strings(&["x"]));
    assert_eq!(lists.entries(RecentKind::Project), &strings(&["b", "a", "b", ""]));
    assert_eq!(lists.entries(RecentKind::Evaluation), &strings(&["x"]));
}

#[test]
fn replace_overwrites_both_lists() {
    let mut lists = RecentLists::from_parts(strings(&["a", "b", "c"]), strings(&["x", "y"]));
    lists.replace(strings(&["d"]), strings(&[]));
    assert_eq!(lists, RecentLists::from_parts(strings(&["d"]), strings(&[])));
}

#[test]
fn path_at_looks_a_position_up() {
    let lists = RecentLists::from_parts(strings(&["a", "b"]), strings(&["x"]));
    assert_eq!(lists.path_at(RecentKind::Project, 0), Some(&"a".to_string()));
    assert_eq!(lists.path_at(RecentKind::Project, 1), Some(&"b".to_string()));
    assert_eq!(lists.path_at(RecentKind::Project, 2), None);
    assert_eq!(lists.path_at(RecentKind::Evaluation, 0), Some(&"x".to_string()));
    assert_eq!(lists.path_at(RecentKind::Evaluation, 1), None);
    assert_eq!(lists.path_at(RecentKind::Evaluation, usize::MAX), None);
}

#[test]
fn clone_copies_both_lists() {
    let lists = RecentLists::from_parts(strings(&["a", "b"]), strings(&["x"]));
    assert_eq!(lists.clone(), lists);
}

#[test]
fn new_registry_holds_empty_lists() {
    let registry = RecentRegistry::new();
    assert_eq!(registry.snapshot(), Ok(RecentLists::new()));
}

#[test]
fn snapshot_shows_the_last_replace() {
    let registry = RecentRegistry::new();
    assert_eq!(registry.replace(strings(&["a", "b", "c"]), strings(&["x"])), Ok(()));
    assert_eq!(
        registry.snapshot(),
        Ok(RecentLists::from_parts(strings(&["a", "b", "c"]), strings(&["x"])))
    );
    assert_eq!(registry.replace(strings(&["d"]), strings(&[])), Ok(()));
    assert_eq!(registry.snapshot(), Ok(RecentLists::from_parts(strings(&["d"]), strings(&[]))));
    assert_eq!(registry.store(RecentLists::new()), Ok(()));
    assert_eq!(registry.snapshot(), Ok(RecentLists::new()));
}

#[test]
fn snapshot_never_mixes_two_updates() {
    let registry = RecentRegistry::new();
    let mut round: usize = 0;
    while round < 200 {
        let name = format!("a{}", round % 7);
        let other = format!("b{}", round % 5);
        registry.replace(vec![name.clone()], vec![other.clone()]).unwrap();
        let lists = registry.snapshot().unwrap();
        assert_eq!(lists.projects, vec![name]);
        assert_eq!(lists.evaluations, vec![other]);
        round += 1;
    }
}

#[test]
fn errors_have_their_message() {
    assert_eq!(MenuError::LockUnavailable.message(), "Recent menu lock poisoned");
    assert_eq!(
        MenuError::MenuConstruction { detail: "no window".to_string() }.message(),
        "no window"
    );
}

#[test]
fn store_answers_as_the_lock_did() {
    assert_eq!(store_outcome(true), Ok(()));
    assert_eq!(store_outcome(false), Err(MenuError::LockUnavailable));
}

#[test]
fn snapshot_hands_on_what_the_lock_showed() {
    let lists = RecentLists::from_parts(strings(&["a", "b"]), strings(&["x"]));
    assert_eq!(
        snapshot_outcome(Some(lists)),
        Ok(RecentLists::from_parts(strings(&["a", "b"]), strings(&["x"])))
    );
    assert_eq!(snapshot_outcome(Some(RecentLists::new())), Ok(RecentLists::new()));
    assert_eq!(snapshot_outcome(None), Err(MenuError::LockUnavailable));
}

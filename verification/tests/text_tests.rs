use recent_menu::text::{chars_of, same_from, starts_with};

fn v(s: &str) -> Vec<char> {
    s.chars().collect()
}

#[test]
fn characters_come_in_order() {
    assert_eq!(chars_of(""), Vec::<char>::new());
    assert_eq!(chars_of("abc"), vec!['a', 'b', 'c']);
    assert_eq!(chars_of("a\u{e9}\u{1f600}"), vec!['a', '\u{e9}', '\u{1f600}']);
}

#[test]
fn same_from_reads_the_rest() {
    assert!(same_from(&v("recent_project_empty"), 15, &v("empty")));
    assert!(!same_from(&v("recent_project_empty"), 14, &v("empty")));
    assert!(!same_from(&v("recent_project_empty"), 15, &v("empt")));
    assert!(!same_from(&v("recent_project_empty"), 15, &v("emptx")));
    assert!(same_from(&v("abc"), 3, &v("")));
    assert!(!same_from(&v("abc"), 4, &v("")));
    assert!(same_from(&v("abc"), 0, &v("abc")));
}

#[test]
fn starts_with_compares_the_head() {
    assert!(starts_with(&v("recent_project_1"), &v("recent_project_")));
    assert!(starts_with(&v("abc"), &v("")));
    assert!(starts_with(&v("abc"), &v("abc")));
    assert!(!starts_with(&v("ab"), &v("abc")));
    assert!(!starts_with(&v("abd"), &v("abc")));
    assert!(!starts_with(&v("recent_evaluation_1"), &v("recent_project_")));
}

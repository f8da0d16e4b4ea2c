use recent_menu::label::{char_is_white_space, is_blank_text, recent_label, truncate_label};

fn chars(n: usize, c: char) -> String {
    std::iter::repeat(c).take(n).collect()
}

#[test]
fn fitting_value_is_unchanged() {
    assert_eq!(truncate_label("abc", 3), "abc");
    assert_eq!(truncate_label("abc", 60), "abc");
    assert_eq!(truncate_label("", 0), "");
    assert_eq!(recent_label("/home/me/a.proj", 60), "/home/me/a.proj");
}

#[test]
fn value_of_exactly_the_width_is_unchanged() {
    let s = chars(60, 'x');
    assert_eq!(recent_label(&s, 60), s);
}

#[test]
fn longer_value_keeps_its_tail_behind_an_ellipsis() {
    assert_eq!(truncate_label("abcdefghij", 8), "\u{2026}ghij");
    assert_eq!(truncate_label("abcdefghij", 9), "\u{2026}fghij");
    assert_eq!(recent_label("abcdefghij", 5), "\u{2026}j");
}

#[test]
fn sixty_one_characters_become_fifty_seven() {
    let mut s = String::from("0123456789");
    s.push_str(&chars(51, 'y'));
    assert_eq!(s.chars().count(), 61);
    let label = recent_label(&s, 60);
    assert_eq!(label.chars().count(), 57);
    assert!(label.starts_with('\u{2026}'));
    let tail: String = s.chars().skip(61 - 56).collect();
    assert_eq!(label, format!("\u{2026}{}", tail));
}

#[test]
fn width_below_four_leaves_the_ellipsis_alone() {
    assert_eq!(truncate_label("abcdefghij", 4), "\u{2026}");
    assert_eq!(truncate_label("abcdefghij", 3), "\u{2026}");
    assert_eq!(truncate_label("abcdefghij", 1), "\u{2026}");
    assert_eq!(truncate_label("abcdefghij", 0), "\u{2026}");
}

#[test]
fn length_is_counted_in_characters() {
    // Ten characters, twenty bytes: fits a width of ten.
    let s = chars(10, '\u{e9}');
    assert_eq!(s.len(), 20);
    assert_eq!(truncate_label(&s, 10), s);
    assert_eq!(recent_label(&s, 10), s);
}

#[test]
fn truncation_never_splits_a_character() {
    let s = "\u{4e00}\u{4e8c}\u{4e09}\u{56db}\u{4e94}\u{516d}\u{4e03}";
    assert_eq!(truncate_label(s, 6), "\u{2026}\u{516d}\u{4e03}");
    let t = "a\u{1f600}b\u{1f600}c\u{1f600}";
    assert_eq!(truncate_label(t, 5), "\u{2026}\u{1f600}");
}

#[test]
fn blank_paths_are_unknown() {
    assert_eq!(recent_label("", 60), "Unknown");
    assert_eq!(recent_label("   ", 60), "Unknown");
    assert_eq!(recent_label("", 0), "Unknown");
    assert_eq!(recent_label("   ", 2), "Unknown");
    assert_eq!(recent_label("\t\n\r ", 60), "Unknown");
    assert_eq!(recent_label("\u{a0}\u{2003}\u{3000}", 60), "Unknown");
}

#[test]
fn white_space_around_a_path_is_kept() {
    assert_eq!(recent_label("  a  ", 60), "  a  ");
    assert_eq!(recent_label(" abcdefghij", 8), "\u{2026}ghij");
}

#[test]
fn long_label_fits_and_ends_with_the_tail() {
    let path = "/a/b/verylongpath/thatexceedssixtychars/and/goes/on/and/on/file.proj";
    let total = path.chars().count();
    let mut width: usize = 1;
    while width < total {
        let label = recent_label(path, width);
        let keep = width.saturating_sub(4);
        assert!(label.chars().count() <= width);
        assert_eq!(label.chars().count(), 1 + keep);
        let tail: String = path.chars().skip(total - keep).collect();
        assert!(label.ends_with(&tail));
        assert!(label.starts_with('\u{2026}'));
        width += 1;
    }
    assert_eq!(recent_label(path, total), path);
}

#[test]
fn white_space_is_what_the_standard_library_calls_white_space() {
    let mut code: u32 = 0;
    while code <= 0x10_FFFF {
        if let Some(c) = char::from_u32(code) {
            assert_eq!(char_is_white_space(c), c.is_whitespace(), "U+{:04X}", code);
        }
        code += 1;
    }
}

#[test]
fn blank_is_what_trims_to_nothing() {
    for s in ["", " ", "\t", " a", "a ", " a ", "\u{2028}", "\u{200b}", "x", "\u{85}\u{1680}"] {
        assert_eq!(is_blank_text(s), s.trim().is_empty(), "{:?}", s);
    }
}

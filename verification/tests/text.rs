use wezterm_commands::modifiers::Modifiers;
use wezterm_commands::render::modifiers_name;
use wezterm_commands::text::{english_ordinal, isize_text, join, us_layout_shift, usize_text};

#[test]
fn ordinal_first_few() {
    assert_eq!(english_ordinal(0), "0th");
    assert_eq!(english_ordinal(1), "1st");
    assert_eq!(english_ordinal(2), "2nd");
    assert_eq!(english_ordinal(3), "3rd");
    assert_eq!(english_ordinal(4), "4th");
    assert_eq!(english_ordinal(9), "9th");
    assert_eq!(english_ordinal(10), "10th");
}

#[test]
fn ordinal_teens_take_th() {
    assert_eq!(english_ordinal(11), "11th");
    assert_eq!(english_ordinal(12), "12th");
    assert_eq!(english_ordinal(13), "13th");
    assert_eq!(english_ordinal(111), "111th");
    assert_eq!(english_ordinal(112), "112th");
    assert_eq!(english_ordinal(1013), "1013th");
}

#[test]
fn ordinal_follows_last_two_digits() {
    assert_eq!(english_ordinal(21), "21st");
    assert_eq!(english_ordinal(22), "22nd");
    assert_eq!(english_ordinal(23), "23rd");
    assert_eq!(english_ordinal(101), "101st");
    assert_eq!(english_ordinal(102), "102nd");
    assert_eq!(english_ordinal(1003), "1003rd");
    // the law: for every number, the suffix depends on the last two digits only
    for n in 0..2000isize {
        let m = n % 100;
        let want = if m % 10 == 1 && m != 11 {
            "st"
        } else if m % 10 == 2 && m != 12 {
            "nd"
        } else if m % 10 == 3 && m != 13 {
            "rd"
        } else {
            "th"
        };
        assert_eq!(english_ordinal(n), format!("{n}{want}"));
        assert_eq!(english_ordinal(-n), format!("{}{want}", -n));
    }
}

#[test]
fn ordinal_negative_and_extremes() {
    assert_eq!(english_ordinal(-1), "-1st");
    assert_eq!(english_ordinal(-11), "-11th");
    assert_eq!(english_ordinal(-2), "-2nd");
    assert_eq!(english_ordinal(isize::MAX), format!("{}th", isize::MAX));
    assert_eq!(english_ordinal(isize::MIN), format!("{}th", isize::MIN));
}

#[test]
fn decimal_texts_match_to_string() {
    for n in [0usize, 1, 9, 10, 42, 100, 65535, usize::MAX] {
        assert_eq!(usize_text(n), n.to_string());
    }
    for n in [0isize, 1, -1, 9, -10, 12345, isize::MAX, isize::MIN, isize::MIN + 1] {
        assert_eq!(isize_text(n), n.to_string());
    }
}

#[test]
fn shift_digits_and_punctuation() {
    let pairs = [
        ("1", "!"),
        ("2", "@"),
        ("3", "#"),
        ("4", "$"),
        ("5", "%"),
        ("6", "^"),
        ("7", "&"),
        ("8", "*"),
        ("9", "("),
        ("0", ")"),
        ("[", "{"),
        ("]", "}"),
        ("=", "+"),
        ("-", "_"),
        ("'", "\""),
    ];
    for (plain, shifted) in pairs {
        assert_eq!(us_layout_shift(plain), shifted);
    }
}

#[test]
fn shift_letters_upper_case() {
    assert_eq!(us_layout_shift("a"), "A");
    assert_eq!(us_layout_shift("z"), "Z");
    assert_eq!(us_layout_shift("l"), "L");
    assert_eq!(us_layout_shift("Q"), "Q");
    assert_eq!(us_layout_shift(";"), ";");
}

#[test]
fn shift_leaves_longer_labels() {
    assert_eq!(us_layout_shift("Insert"), "Insert");
    assert_eq!(us_layout_shift("PageUp"), "PageUp");
    assert_eq!(us_layout_shift(""), "");
    // one character, but two bytes: not a single-byte label
    assert_eq!(us_layout_shift("é"), "é");
    assert_eq!(us_layout_shift("ab"), "ab");
}

#[test]
fn join_with_separator() {
    let parts = vec!["a".to_string(), "bc".to_string(), "".to_string(), "d".to_string()];
    assert_eq!(join(&parts, " "), "a bc  d");
    assert_eq!(join(&vec![], ", "), "");
    assert_eq!(join(&vec!["x".to_string()], ", "), "x");
}

#[test]
fn modifier_names() {
    assert_eq!(modifiers_name(Modifiers::none()), "NONE");
    assert_eq!(modifiers_name(Modifiers::super_key()), "SUPER");
    assert_eq!(modifiers_name(Modifiers::ctrl().union(Modifiers::shift())), "SHIFT | CTRL");
    assert_eq!(
        modifiers_name(Modifiers::ctrl().union(Modifiers::alt()).union(Modifiers::shift())),
        "SHIFT | ALT | CTRL"
    );
}

#[test]
fn modifier_set_operations() {
    let cs = Modifiers::ctrl().union(Modifiers::shift());
    assert!(cs.contains(Modifiers::shift()));
    assert!(cs.contains(Modifiers::ctrl()));
    assert!(!cs.contains(Modifiers::alt()));
    assert_eq!(cs.difference(Modifiers::shift()), Modifiers::ctrl());
    assert_eq!(Modifiers::super_key().difference(Modifiers::shift()), Modifiers::super_key());
    assert!(Modifiers::none().contains(Modifiers::none()));
}

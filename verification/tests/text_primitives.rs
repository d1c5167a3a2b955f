use card_literals::text::{
    chars_of, i32_to_decimal, join_strings, led_lines_of, replace_all, str_eq, usize_to_decimal,
};

fn owned(items: &[&str]) -> Vec<String> {
    items.iter().map(|s| s.to_string()).collect()
}

#[test]
fn str_eq_compares_characters() {
    assert!(str_eq("", ""));
    assert!(str_eq("Core", "Core"));
    assert!(!str_eq("Core", "core"));
    assert!(!str_eq("Core", "Cor"));
    assert!(!str_eq("Cor", "Core"));
    assert!(str_eq("R\u{00e9}gion \u{2014} \u{2022}", "R\u{00e9}gion \u{2014} \u{2022}"));
    assert!(!str_eq("R\u{00e9}gion", "Region"));
}

#[test]
fn join_puts_the_separator_between_neighbours() {
    assert_eq!(join_strings(&owned(&[]), ", "), "");
    assert_eq!(join_strings(&owned(&["a"]), ", "), "a");
    assert_eq!(join_strings(&owned(&["a", "b"]), ", "), "a, b");
    assert_eq!(join_strings(&owned(&["a", "", "c"]), "-"), "a--c");
    assert_eq!(join_strings(&owned(&["a", "b", "c"]), ""), "abc");
}

#[test]
fn led_lines_mark_the_first_item_with_a_bracket() {
    assert_eq!(led_lines_of("  ", &owned(&[])), "");
    assert_eq!(led_lines_of("  ", &owned(&["x"])), "  [ x\n");
    assert_eq!(led_lines_of("    ", &owned(&["x", "y", "z"])), "    [ x\n    , y\n    , z\n");
}

#[test]
fn decimal_numerals() {
    assert_eq!(i32_to_decimal(0), "0");
    assert_eq!(i32_to_decimal(7), "7");
    assert_eq!(i32_to_decimal(10), "10");
    assert_eq!(i32_to_decimal(42), "42");
    assert_eq!(i32_to_decimal(1009), "1009");
    assert_eq!(i32_to_decimal(-1), "-1");
    assert_eq!(i32_to_decimal(-120), "-120");
    assert_eq!(i32_to_decimal(i32::MAX), "2147483647");
    assert_eq!(i32_to_decimal(i32::MIN), "-2147483648");
}

#[test]
fn decimal_numerals_agree_with_display() {
    let mut n: i32 = -100_000;
    while n <= 100_000 {
        assert_eq!(i32_to_decimal(n), format!("{}", n));
        n += 37;
    }
}

#[test]
fn decimal_numerals_of_counts() {
    assert_eq!(usize_to_decimal(0), "0");
    assert_eq!(usize_to_decimal(9), "9");
    assert_eq!(usize_to_decimal(10), "10");
    assert_eq!(usize_to_decimal(4_294_967_295), "4294967295");
    assert_eq!(usize_to_decimal(usize::MAX), format!("{}", usize::MAX));
}

#[test]
fn chars_of_gives_each_character_once() {
    assert_eq!(chars_of(""), Vec::<char>::new());
    assert_eq!(chars_of("a\u{2014}b"), vec!['a', '\u{2014}', 'b']);
}

#[test]
fn replace_all_replaces_every_match() {
    assert_eq!(replace_all("a-b-c", "-", "+"), "a+b+c");
    assert_eq!(replace_all("[[id]] and [[id]]", "[[id]]", "7"), "7 and 7");
    assert_eq!(replace_all("one\ntwo\n", "\n", " \u{2022} "), "one \u{2022} two \u{2022} ");
    assert_eq!(replace_all("abc", "abc", ""), "");
    assert_eq!(replace_all("abc", "abcd", "x"), "abc");
    assert_eq!(replace_all("", "a", "x"), "");
    assert_eq!(replace_all("r\u{00e9}sum\u{00e9}", "\u{00e9}", "e"), "resume");
}

#[test]
fn replace_all_takes_matches_from_the_left_without_overlap() {
    assert_eq!(replace_all("aaa", "aa", "b"), "ba");
    assert_eq!(replace_all("aaaa", "aa", "b"), "bb");
    assert_eq!(replace_all("ababa", "aba", "x"), "xba");
    // What was put in is not searched again.
    assert_eq!(replace_all("ab", "a", "aa"), "aab");
}

#[test]
fn replace_all_without_a_match_gives_the_text_back() {
    assert_eq!(replace_all("<p>static</p>", "[[id]]", "7"), "<p>static</p>");
    assert_eq!(replace_all("[[id]", "[[id]]", "7"), "[[id]");
}

#[test]
fn replace_all_of_nothing_puts_the_text_between_all_characters() {
    assert_eq!(replace_all("", "", "x"), "x");
    assert_eq!(replace_all("ab", "", "-"), "-a-b-");
    assert_eq!(replace_all("\u{00e9}\u{2014}", "", "."), ".\u{00e9}.\u{2014}.");
}

#[test]
fn replace_all_agrees_with_the_standard_library() {
    let texts = ["", "a", "aa", "aaa", "abab", "ababab", "xxaxx", "[[a]][[a]]", "\u{00e9}a\u{00e9}"];
    let patterns = ["", "a", "aa", "ab", "ba", "x", "[[a]]", "\u{00e9}", "abab"];
    let fills = ["", "a", "b", "aa", "[[a]]"];
    for text in texts {
        for pattern in patterns {
            for fill in fills {
                assert_eq!(
                    replace_all(text, pattern, fill),
                    text.replace(pattern, fill),
                    "{:?} {:?} {:?}",
                    text,
                    pattern,
                    fill
                );
            }
        }
    }
}

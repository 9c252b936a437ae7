use terminal_radio::text::{
    before, begins, contains, less, owned, pad, prefix, push_decimal, same, to_lower, trim,
    two_words,
};

fn decimal(n: usize) -> String {
    let mut s = String::new();
    push_decimal(&mut s, n);
    s
}

#[test]
fn numbers_are_written_in_decimal() {
    assert_eq!(decimal(0), "0");
    assert_eq!(decimal(9), "9");
    assert_eq!(decimal(10), "10");
    assert_eq!(decimal(407), "407");
    assert_eq!(decimal(usize::MAX), format!("{}", usize::MAX));
    let mut s = String::from("n = ");
    push_decimal(&mut s, 300);
    assert_eq!(s, "n = 300");
}

#[test]
fn trimming_takes_unicode_white_space() {
    assert_eq!(trim("  Radio One\t\n"), "Radio One");
    assert_eq!(trim("\u{3000}\u{a0}x y\u{2028}"), "x y");
    assert_eq!(trim("\u{200b}x"), "\u{200b}x");
    assert_eq!(trim(" \u{85} "), "");
    assert_eq!(trim(""), "");
}

#[test]
fn white_space_is_what_std_takes_for_it() {
    for c in '\0'..=char::MAX {
        let s = format!("{c}x");
        assert_eq!(trim(&s).len() < s.len(), c.is_whitespace());
        let listed = matches!(
            c,
            '\u{9}'..='\u{d}'
                | ' '
                | '\u{85}'
                | '\u{a0}'
                | '\u{1680}'
                | '\u{2000}'..='\u{200a}'
                | '\u{2028}'
                | '\u{2029}'
                | '\u{202f}'
                | '\u{205f}'
                | '\u{3000}'
        );
        assert_eq!(c.is_whitespace(), listed);
    }
}

#[test]
fn the_first_two_words_are_found() {
    let (a, b) = two_words("  200   audio/mpeg; charset=x ");
    assert_eq!((a.as_str(), b.as_str()), ("200", "audio/mpeg;"));
    let (a, b) = two_words("404");
    assert_eq!((a.as_str(), b.as_str()), ("404", ""));
    let (a, b) = two_words(" \n ");
    assert_eq!((a.as_str(), b.as_str()), ("", ""));
}

#[test]
fn a_prefix_counts_characters() {
    assert_eq!(prefix("ÄÖÜß", 2), "ÄÖ");
    assert_eq!(prefix("abc", 5), "abc");
    assert_eq!(prefix("abc", 0), "");
}

#[test]
fn the_part_before_a_character_is_cut() {
    assert_eq!(before("jazz,blues,soul", ','), "jazz");
    assert_eq!(before("news", ','), "news");
    assert_eq!(before(",pop", ','), "");
    assert_eq!(before("", ','), "");
}

#[test]
fn texts_are_searched() {
    assert!(begins("--snapshot=zoom", "--snapshot"));
    assert!(!begins("--snap", "--snapshot"));
    assert!(contains("application/xhtml+xml", "html"));
    assert!(contains("abc", ""));
    assert!(contains("", ""));
    assert!(!contains("htm", "html"));
    assert!(contains("aaab", "aab"));
    assert!(same("é", "é"));
    assert!(!same("é", "e"));
}

#[test]
fn lower_case_is_that_of_ascii() {
    assert_eq!(to_lower("Audio/MPEG Ä"), "audio/mpeg Ä");
    assert_eq!(to_lower("@[`{Z"), "@[`{z");
}

#[test]
fn padding_counts_characters() {
    assert_eq!(pad("←/→", 4), "←/→ ");
    assert_eq!(pad("abcd", 4), "abcd");
    assert_eq!(pad("abcde", 4), "abcde");
    assert_eq!(pad("", 2), "  ");
}

#[test]
fn the_order_is_that_of_code_points() {
    let words = ["", "A", "AB", "B", "Z", "a", "ab", "Österreich", "日本", "😀"];
    for (i, a) in words.iter().enumerate() {
        for (j, b) in words.iter().enumerate() {
            assert_eq!(less(a, b), i < j);
            assert_eq!(less(a, b), a < b);
        }
    }
}

#[test]
fn texts_are_copied_in_order() {
    assert_eq!(owned(&["a", "", "é"]), vec!["a", "", "é"]);
}

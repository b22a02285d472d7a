use pkgbridge::text::{
    begins_with, decimal, finishes_with, from_chars, includes, is_whitespace,
    join_strings, last_index_of, lowered, parse_u64, rank, same_ignoring_case, split_lines,
    split_on, split_words, to_chars, trimmed, without_first, without_prefix, Rank,
};

fn cs(s: &str) -> Vec<char> {
    s.chars().collect()
}

fn strs(v: &Vec<Vec<char>>) -> Vec<String> {
    v.iter().map(|l| l.iter().collect::<String>()).collect()
}

#[test]
fn chars_round_trip() {
    assert_eq!(to_chars("héllo\n"), cs("héllo\n"));
    assert_eq!(from_chars(&cs("héllo\n")), "héllo\n");
    assert_eq!(to_chars(""), Vec::<char>::new());
}

#[test]
fn white_space_is_unicode_white_space() {
    for c in [' ', '\t', '\n', '\r', '\u{0B}', '\u{0C}', '\u{85}', '\u{A0}', '\u{1680}', '\u{2000}', '\u{200A}', '\u{2028}', '\u{2029}', '\u{202F}', '\u{205F}', '\u{3000}'] {
        assert!(is_whitespace(c), "{:?}", c);
    }
    for c in ['a', '0', '_', '\u{200B}', '\u{FEFF}', '\u{1F}', '\u{2010}'] {
        assert!(!is_whitespace(c), "{:?}", c);
    }
    for n in 0u32..0x3100 {
        if let Some(c) = char::from_u32(n) {
            assert_eq!(is_whitespace(c), c.is_whitespace(), "{:x}", n);
        }
    }
}

#[test]
fn trimming() {
    assert_eq!(trimmed(&cs("  a b \t\n")), cs("a b"));
    assert_eq!(trimmed(&cs("\u{A0}x\u{3000}")), cs("x"));
    assert_eq!(trimmed(&cs("   ")), cs(""));
    assert_eq!(trimmed(&cs("")), cs(""));
    assert_eq!(trimmed(&cs("x")), cs("x"));
}

#[test]
fn lines_as_std_splits_them() {
    for s in ["", "a", "a\n", "a\nb", "a\r\nb\r\n", "\n", "\n\n", "a\r", "a\r\n", "\r\n", "a\n\nb", "a\rb\n", "x\r\r\n"] {
        let want: Vec<String> = s.lines().map(|l| l.to_string()).collect();
        assert_eq!(strs(&split_lines(&cs(s))), want, "{:?}", s);
    }
}

#[test]
fn words_as_std_splits_them() {
    for s in ["", "  ", "a", " a  b\tc\n", "one two", "\u{A0}x\u{2003}y"] {
        let want: Vec<String> = s.split_whitespace().map(|l| l.to_string()).collect();
        assert_eq!(strs(&split_words(&cs(s))), want, "{:?}", s);
    }
}

#[test]
fn pieces_as_std_splits_them() {
    for s in ["", "|", "a|b", "a||b|", "abc", "|a"] {
        let want: Vec<String> = s.split('|').map(|l| l.to_string()).collect();
        assert_eq!(strs(&split_on(&cs(s), '|')), want, "{:?}", s);
    }
}

#[test]
fn prefixes_suffixes_and_parts() {
    assert!(begins_with(&cs("Exec=foo"), &cs("Exec=")));
    assert!(!begins_with(&cs("Exe"), &cs("Exec=")));
    assert!(begins_with(&cs("x"), &cs("")));
    assert!(finishes_with(&cs("a.desktop"), &cs(".desktop")));
    assert!(!finishes_with(&cs("desktop"), &cs(".desktop")));
    assert!(includes(&cs("say --container now"), &cs("--container")));
    assert!(!includes(&cs("say --contain"), &cs("--container")));
    assert!(includes(&cs(""), &cs("")));
    assert_eq!(without_prefix(&cs("usr/bin/x"), &cs("usr/bin/")), Some(cs("x")));
    assert_eq!(without_prefix(&cs("usr/bin"), &cs("usr/bin/")), None);
    assert_eq!(without_first(&cs("./a"), '.'), cs("/a"));
    assert_eq!(without_first(&cs("a"), '.'), cs("a"));
    assert_eq!(last_index_of(&cs("a b c"), ' '), Some(3));
    assert_eq!(last_index_of(&cs("abc"), ' '), None);
}

#[test]
fn case_is_ascii_case() {
    assert_eq!(lowered(&cs("AbC-É_Z@[")), cs("abc-É_z@["));
    assert!(same_ignoring_case(&cs("NAME"), &cs("name")));
    assert!(same_ignoring_case(&cs("Created"), &cs("CREATED")));
    assert!(!same_ignoring_case(&cs("NAME"), &cs("names")));
}

#[test]
fn numbers_are_written_and_read() {
    assert_eq!(decimal(0), cs("0"));
    assert_eq!(decimal(7), cs("7"));
    assert_eq!(decimal(10), cs("10"));
    assert_eq!(decimal(1234567890), cs("1234567890"));
    assert_eq!(decimal(u64::MAX), cs("18446744073709551615"));
    assert_eq!(parse_u64(&cs("0")), Some(0));
    assert_eq!(parse_u64(&cs("+42")), Some(42));
    assert_eq!(parse_u64(&cs("007")), Some(7));
    assert_eq!(parse_u64(&cs("18446744073709551615")), Some(u64::MAX));
    assert_eq!(parse_u64(&cs("18446744073709551616")), None);
    assert_eq!(parse_u64(&cs("99999999999999999999999")), None);
    assert_eq!(parse_u64(&cs("")), None);
    assert_eq!(parse_u64(&cs("+")), None);
    assert_eq!(parse_u64(&cs("-1")), None);
    assert_eq!(parse_u64(&cs("12a")), None);
    assert_eq!(parse_u64(&cs(" 12")), None);
    for s in ["0", "+0", "123", "+", "", "1 ", "٣", "18446744073709551615", "18446744073709551616", "++1"] {
        assert_eq!(parse_u64(&cs(s)), s.parse::<u64>().ok(), "{:?}", s);
    }
}

#[test]
fn strings_are_ranked_as_std_orders_them() {
    let samples = ["", "a", "ab", "b", "B", "a-b", "a_b", "é", "z", "aa", "a\u{10000}", "a\u{FFFF}"];
    for x in samples {
        for y in samples {
            let want = match x.cmp(y) {
                std::cmp::Ordering::Less => Rank::Before,
                std::cmp::Ordering::Equal => Rank::Same,
                std::cmp::Ordering::Greater => Rank::After,
            };
            assert_eq!(rank(&cs(x), &cs(y)), want, "{:?} {:?}", x, y);
        }
    }
}

#[test]
fn joining_puts_line_feeds_between() {
    assert_eq!(join_strings(&vec![]), "");
    assert_eq!(join_strings(&vec!["a".to_string()]), "a");
    assert_eq!(join_strings(&vec!["a".to_string(), "".to_string(), "b".to_string()]), "a\n\nb");
}

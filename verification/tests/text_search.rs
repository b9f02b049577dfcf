use launcher_core::text::{chars_of, contains_text, find, parse_u32, position_of, slice};

fn chars(s: &str) -> Vec<char> {
    s.chars().collect()
}

#[test]
fn chars_of_keeps_every_character() {
    assert_eq!(chars_of("a\u{e9}\u{2603}b"), vec!['a', '\u{e9}', '\u{2603}', 'b']);
    assert_eq!(chars_of(""), Vec::<char>::new());
}

#[test]
fn slice_takes_the_half_open_range() {
    let text = chars("hello");
    assert_eq!(slice(&text, 1, 3), chars("el"));
    assert_eq!(slice(&text, 0, 5), chars("hello"));
    assert_eq!(slice(&text, 5, 5), chars(""));
}

#[test]
fn find_gives_the_first_occurrence() {
    assert_eq!(find(&chars("abcabc"), &chars("bc")), Some(1));
    assert_eq!(find(&chars("abcabc"), &chars("abc")), Some(0));
    assert_eq!(find(&chars("abcabc"), &chars("cab")), Some(2));
    assert_eq!(find(&chars("abcabc"), &chars("abcabc")), Some(0));
    assert_eq!(find(&chars("aab"), &chars("ab")), Some(1));
    assert_eq!(find(&chars("abcabc"), &chars("abcd")), None);
    assert_eq!(find(&chars("abc"), &chars("abcd")), None);
    assert_eq!(find(&chars("abc"), &chars("")), Some(0));
    assert_eq!(find(&chars(""), &chars("")), Some(0));
    assert_eq!(find(&chars(""), &chars("a")), None);
    assert_eq!(find(&chars("xxc"), &chars("c")), Some(2));
}

#[test]
fn contains_text_matches_whole_patterns_only() {
    assert!(contains_text(&chars("OpenJDK Runtime"), "OpenJDK"));
    assert!(contains_text(&chars("OpenJDK Runtime"), "Runtime"));
    assert!(!contains_text(&chars("OpenJD"), "OpenJDK"));
    assert!(!contains_text(&chars("openjdk"), "OpenJDK"));
}

#[test]
fn position_of_gives_the_first_or_the_length() {
    let text = chars("a.b.c");
    assert_eq!(position_of(&text, '.', 0), 1);
    assert_eq!(position_of(&text, '.', 1), 1);
    assert_eq!(position_of(&text, '.', 2), 3);
    assert_eq!(position_of(&text, '.', 4), 5);
    assert_eq!(position_of(&text, '.', 5), 5);
    assert_eq!(position_of(&text, 'x', 0), 5);
}

#[test]
fn parse_u32_reads_what_the_standard_parser_reads() {
    let cases = [
        "", "+", "-", "0", "00", "7", "+7", "-7", "++7", "7+", " 7", "7 ", "12a", "a12",
        "4294967295", "4294967296", "+4294967295", "42949672950", "99999999999999999999999",
        "0000000000000000000001", "1_0", "\u{663}",
    ];
    for case in cases {
        assert_eq!(parse_u32(&chars(case)), case.parse::<u32>().ok(), "{:?}", case);
    }
    assert_eq!(parse_u32(&chars("4294967295")), Some(4294967295));
    assert_eq!(parse_u32(&chars("+12")), Some(12));
    assert_eq!(parse_u32(&chars("4294967296")), None);
}

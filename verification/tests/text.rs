use sentinel_watch::text::{chars_of, is_whitespace, same_text, split_ascii_whitespace};

fn lines() -> Vec<&'static str> {
    vec![
        "",
        " ",
        "a",
        " a",
        "a ",
        "  a  b  ",
        "mymaster 10.0.0.1 6379 10.0.0.9 6380",
        "mymaster\t10.0.0.1\n6379\r10.0.0.9\u{c}6380",
        "a\u{b}b",
        "a\u{a0}b",
        "a\u{2003}b c",
        "é ü  ß",
        "\t\n\r\u{c} ",
        "one two three four five six seven",
    ]
}

#[test]
fn words_are_split_at_white_space() {
    assert_eq!(
        split_ascii_whitespace("mymaster 10.0.0.1 6379 10.0.0.9 6380"),
        vec!["mymaster", "10.0.0.1", "6379", "10.0.0.9", "6380"]
    );
}

#[test]
fn white_space_around_and_between_gives_no_empty_word() {
    assert_eq!(split_ascii_whitespace("  a \t\n b\r\u{c}"), vec!["a", "b"]);
    assert_eq!(split_ascii_whitespace(""), Vec::<String>::new());
    assert_eq!(split_ascii_whitespace(" \t "), Vec::<String>::new());
}

#[test]
fn only_ascii_white_space_separates() {
    assert_eq!(split_ascii_whitespace("a\u{b}b"), vec!["a\u{b}b"]);
    assert_eq!(split_ascii_whitespace("a\u{a0}b"), vec!["a\u{a0}b"]);
}

#[test]
fn words_agree_with_the_standard_splitter() {
    for line in lines() {
        let expected: Vec<String> = line.split_ascii_whitespace().map(String::from).collect();
        assert_eq!(split_ascii_whitespace(line), expected, "for {:?}", line);
    }
}

#[test]
fn white_space_is_the_ascii_kind() {
    for code in 0u32..=0x3000 {
        if let Some(c) = char::from_u32(code) {
            assert_eq!(is_whitespace(c), c.is_ascii_whitespace(), "for {:?}", c);
        }
    }
}

#[test]
fn characters_come_one_by_one() {
    assert_eq!(chars_of("aé\u{2003}z"), vec!['a', 'é', '\u{2003}', 'z']);
    assert_eq!(chars_of(""), Vec::<char>::new());
}

#[test]
fn same_text_compares_character_by_character() {
    assert!(same_text("mymaster", "mymaster"));
    assert!(same_text("", ""));
    assert!(!same_text("mymaster", "mymaster2"));
    assert!(!same_text("mymaster", "mymastes"));
    assert!(!same_text("mymaster", "Mymaster"));
    assert!(!same_text("", "a"));
}

use agent_workflow::text::{
    chars_of, clone_opt, clone_texts, contains, contains_chars, entries, matches_at, remove_all,
    trim, trim_bounds, white_space,
};

#[test]
fn chars_of_gives_every_character() {
    assert_eq!(chars_of("héllo"), vec!['h', 'é', 'l', 'l', 'o']);
    assert_eq!(chars_of(""), Vec::<char>::new());
}

#[test]
fn contains_agrees_with_std_on_samples() {
    let hays = ["", "a", "hello world", "aaa", "abcabcabd", "ünïcödé text", "hello\nworld"];
    let needles = ["", "a", "aa", "aaaa", "hello", "world", "o w", "abd", "abcabd", "cöd", "\n", "xyz"];
    for hay in hays {
        for needle in needles {
            assert_eq!(contains(hay, needle), hay.contains(needle), "{:?} in {:?}", needle, hay);
        }
    }
}

#[test]
fn matches_at_checks_one_position() {
    let hay = chars_of("abcabc");
    let needle = chars_of("bc");
    assert!(!matches_at(&hay, &needle, 0));
    assert!(matches_at(&hay, &needle, 1));
    assert!(matches_at(&hay, &needle, 4));
    assert!(contains_chars(&hay, &needle));
    assert!(!contains_chars(&needle, &hay));
}

#[test]
fn white_space_agrees_with_std_on_every_character() {
    for code in 0..=0x10FFFFu32 {
        if let Some(c) = char::from_u32(code) {
            assert_eq!(white_space(c), c.is_whitespace(), "U+{:04X}", code);
        }
    }
}

#[test]
fn trim_agrees_with_std_on_samples() {
    let samples = [
        "",
        " ",
        "a",
        "  a  ",
        "\t\n a b \r\n",
        "\u{00A0}x\u{3000}",
        "  inner  space  ",
        "x ",
        " x",
        "\u{2028}\u{2029}",
    ];
    for sample in samples {
        assert_eq!(trim(sample), sample.trim(), "{:?}", sample);
    }
}

#[test]
fn trim_bounds_of_a_slice() {
    let chars = chars_of("ab  cd  ef");
    assert_eq!(trim_bounds(&chars, 2, 8), (4, 6));
    assert_eq!(trim_bounds(&chars, 2, 4), (4, 4));
    assert_eq!(trim_bounds(&chars, 0, 10), (0, 10));
}

#[test]
fn entries_splits_trims_and_drops_empty() {
    assert_eq!(entries("a,b,c", ','), vec!["a", "b", "c"]);
    assert_eq!(entries(" a , b ,, c ,", ','), vec!["a", "b", "c"]);
    assert_eq!(entries("", ','), Vec::<String>::new());
    assert_eq!(entries(" , ,", ','), Vec::<String>::new());
    assert_eq!(entries("single", ','), vec!["single"]);
    assert_eq!(entries("tök en,  zwei", ','), vec!["tök en", "zwei"]);
}

#[test]
fn entries_agrees_with_split_trim_filter() {
    let samples = ["a,b", ",a", "a,", ",,", " x ,y, ", "no separators", ",\t,z"];
    for sample in samples {
        let expected: Vec<String> =
            sample.split(',').map(|s| s.trim().to_string()).filter(|s| !s.is_empty()).collect();
        assert_eq!(entries(sample, ','), expected, "{:?}", sample);
    }
}

#[test]
fn remove_all_agrees_with_std_replace() {
    let samples = [
        ("http://localhost:8080", "http://"),
        ("localhost:8080", "http://"),
        ("http://http://x", "http://"),
        ("ahttp://b http://c", "http://"),
        ("aaaa", "aa"),
        ("aaa", "aa"),
        ("abc", ""),
        ("", "x"),
        ("xyz", "xyzw"),
        ("ünï http:// cödé", "http://"),
    ];
    for (text, pat) in samples {
        assert_eq!(remove_all(text, pat), text.replace(pat, ""), "{:?} without {:?}", text, pat);
    }
}

#[test]
fn clones_keep_their_text() {
    assert_eq!(clone_opt(&Some("x".to_string())), Some("x".to_string()));
    assert_eq!(clone_opt(&None), None);
    let list = vec!["a".to_string(), "b".to_string()];
    assert_eq!(clone_texts(&list), list);
}

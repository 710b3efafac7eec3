use docker_owl::text::{str_concat, is_white_space_char, parse_u32, path_join, split_whitespace, str_eq};


#[test]
fn whitespace_agrees_with_std_on_every_char() {
    for v in 0u32..=0x10FFFF {
        if let Some(c) = char::from_u32(v) {
            assert_eq!(is_white_space_char(c), c.is_whitespace(), "char {:#x}", v);
        }
    }
}

#[test]
fn split_whitespace_examples() {
    assert_eq!(split_whitespace("virtual-host"), vec!["virtual-host".to_string()]);
    assert_eq!(split_whitespace(""), Vec::<String>::new());
    assert_eq!(split_whitespace("   \t\n"), Vec::<String>::new());
    assert_eq!(
        split_whitespace("  a b\t\tc\n"),
        vec!["a".to_string(), "b".to_string(), "c".to_string()]
    );
    assert_eq!(
        split_whitespace("é\u{3000}ü\u{85}x"),
        vec!["é".to_string(), "ü".to_string(), "x".to_string()]
    );
}

#[test]
fn split_whitespace_agrees_with_std() {
    let samples = [
        "a b c",
        " lead",
        "trail ",
        "x\u{a0}y\u{2028}z",
        "one\r\ntwo\x0bthree\x0cfour",
        "no-space-at-all",
        "日本 語",
    ];
    for s in samples.iter() {
        let ours = split_whitespace(s);
        let theirs: Vec<String> = s.split_whitespace().map(|w| w.to_string()).collect();
        assert_eq!(ours, theirs, "input {:?}", s);
    }
}

#[test]
fn split_of_joined_lists_is_concatenation() {
    let left = split_whitespace("a b");
    let right = split_whitespace("c");
    let mut both = left.clone();
    both.extend(right);
    assert_eq!(split_whitespace("a b\tc"), both);
}

#[test]
fn parse_u32_examples() {
    assert_eq!(parse_u32("4096"), Some(4096));
    assert_eq!(parse_u32("+2048"), Some(2048));
    assert_eq!(parse_u32("0004096"), Some(4096));
    assert_eq!(parse_u32("4294967295"), Some(u32::MAX));
    assert_eq!(parse_u32("4294967296"), None);
    assert_eq!(parse_u32("99999999999999999999"), None);
    assert_eq!(parse_u32(""), None);
    assert_eq!(parse_u32("+"), None);
    assert_eq!(parse_u32("-1"), None);
    assert_eq!(parse_u32(" 1"), None);
    assert_eq!(parse_u32("1 "), None);
    assert_eq!(parse_u32("12a"), None);
}

#[test]
fn parse_u32_agrees_with_std() {
    let samples = [
        "0", "1", "+0", "-0", "+", "-", "", "42", "0042", "4294967295", "4294967296",
        "18446744073709551616", "1_000", "1.5", "٣", "+-1", "++1", "2048x", "x2048",
    ];
    for s in samples.iter() {
        assert_eq!(parse_u32(s), s.parse::<u32>().ok(), "input {:?}", s);
    }
}

#[test]
fn path_join_agrees_with_std() {
    let samples = [
        ("./certs", "a.pem"),
        ("dir/", "file"),
        ("", "file"),
        ("dir", "/abs/file"),
        ("dir", ""),
        ("/", "x"),
        ("a/b", "c/d"),
    ];
    for (base, rel) in samples.iter() {
        let ours = path_join(base, rel);
        let theirs = std::path::Path::new(base).join(rel);
        assert_eq!(ours, theirs.to_str().unwrap(), "join {:?} {:?}", base, rel);
    }
}

#[test]
fn concat_and_str_eq() {
    assert_eq!(str_concat("ab", "cd"), "abcd");
    assert!(str_eq("abc", "abc"));
    assert!(!str_eq("abc", "abd"));
    assert!(!str_eq("abc", "ab"));
}

use shuu::flow::{confirm, err, info, prompt, success};
use shuu::git::{current_branch, file_name_of, repo_name};
use shuu::text::{
    chars_of, is_whitespace, push_decimal, replace_char, replace_first, same, slice_string, split,
    split_whitespace, starts_with, trim, trim_end_matches, trim_matches, CharClass,
};

#[test]
fn white_space_is_what_std_says_it_is() {
    for n in 0..=0x10ffffu32 {
        if let Some(c) = char::from_u32(n) {
            assert_eq!(is_whitespace(c), c.is_whitespace(), "U+{:04X}", n);
        }
    }
}

#[test]
fn trimming_agrees_with_std() {
    let samples = [
        "", " ", "a", " a", "a ", "  a b  ", "\t\r\n x \u{3000}", "\u{a0}\u{2003}", "--a--", "-",
        "[[x]", "]x[", "a-b", "  -  ",
    ];
    for s in samples {
        assert_eq!(trim(s), s.trim(), "{:?}", s);
        assert_eq!(trim_matches(s, CharClass::Space), s.trim());
        assert_eq!(trim_matches(s, CharClass::Only('-')), s.trim_matches('-'));
        assert_eq!(trim_end_matches(s, CharClass::Only('-')), s.trim_end_matches('-'));
        assert_eq!(trim_end_matches(s, CharClass::Space), s.trim_end());
        assert_eq!(
            trim_matches(s, CharClass::Bracket),
            s.trim_matches(|c| c == '[' || c == ']')
        );
    }
}

#[test]
fn splitting_agrees_with_std() {
    let samples = ["", " ", "a", "a b", "  a  b  ", "a\tb\nc", "\n", "a\n", "\na", "a\n\nb", "x\u{3000}y"];
    for s in samples {
        let words: Vec<&str> = s.split_whitespace().collect();
        assert_eq!(split_whitespace(s), words, "{:?}", s);
        let lines: Vec<&str> = s.split('\n').collect();
        assert_eq!(split(s, CharClass::Only('\n')), lines, "{:?}", s);
        let pieces: Vec<&str> = s.split(char::is_whitespace).collect();
        assert_eq!(split(s, CharClass::Space), pieces, "{:?}", s);
    }
}

#[test]
fn replacing_agrees_with_std() {
    for (s, pattern, with) in [
        ("Delete '%s'?", "%s", "feat/x"),
        ("%s%s", "%s", "a"),
        ("no mark", "%s", "a"),
        ("", "%s", "a"),
        ("%", "%s", "a"),
        ("abc", "", "-"),
        ("", "", "-"),
        ("aaa", "aa", "b"),
        ("x%s", "%s", "%s"),
    ] {
        assert_eq!(replace_first(s, pattern, with), s.replacen(pattern, with, 1), "{:?}", s);
    }
    for s in ["", "a/b", "//", "feat/x/y", "no slash"] {
        assert_eq!(replace_char(s, '/', '-'), s.replace('/', "-"));
    }
    for (s, p) in [("", ""), ("a", ""), ("", "a"), ("/r/x", "/r"), ("/r", "/r/x"), ("ab", "ab"), ("ab", "b")] {
        assert_eq!(starts_with(s, p), s.starts_with(p), "{:?} {:?}", s, p);
        assert_eq!(same(s, p), s == p);
    }
}

#[test]
fn strings_and_characters_go_back_and_forth() {
    let s = "a\u{25b6}é日本";
    let v = chars_of(s);
    assert_eq!(v, s.chars().collect::<Vec<char>>());
    assert_eq!(slice_string(&v, 0, v.len()), s);
    assert_eq!(slice_string(&v, 1, 3), "\u{25b6}é");
    assert_eq!(slice_string(&v, 2, 2), "");
    for (n, text) in [(0usize, "0"), (7, "7"), (10, "10"), (99, "99"), (100, "100"), (65535, "65535")] {
        let mut out = String::from("n=");
        push_decimal(&mut out, n);
        assert_eq!(out, format!("n={}", text));
    }
    let mut out = String::new();
    push_decimal(&mut out, usize::MAX);
    assert_eq!(out, usize::MAX.to_string());
}

#[test]
fn lines_to_say_carry_their_colours() {
    assert_eq!(err("bad"), "\x1b[0;31merror:\x1b[0m bad");
    assert_eq!(info("so"), "\x1b[0;36m\u{25b8}\x1b[0m so");
    assert_eq!(success("ok"), "\x1b[0;32m\u{2713}\x1b[0m ok");
    assert_eq!(prompt("Name:"), "\x1b[1mName:\x1b[0m ");
    assert_eq!(err(""), "\x1b[0;31merror:\x1b[0m ");
}

#[test]
fn only_y_is_a_yes() {
    for yes in ["y", "Y", " y", "y\n", "\tY \r\n"] {
        assert!(confirm(yes), "{:?}", yes);
    }
    for no in ["", "n", "N", "yes", "Yes", "yy", "y y", "ｙ", "1", "true", "\n"] {
        assert!(!confirm(no), "{:?}", no);
    }
}

#[test]
fn names_are_read_from_what_the_tool_prints() {
    assert_eq!(repo_name(Some("/home/u/my-repo\n")).as_deref(), Some("my-repo"));
    assert_eq!(repo_name(Some("  /home/u/my repo/  \n")).as_deref(), Some("my repo"));
    assert_eq!(repo_name(Some("/\n")), None);
    assert_eq!(repo_name(Some("")), None);
    assert_eq!(repo_name(None), None);
    assert_eq!(current_branch(Some("feat/x\n")).as_deref(), Some("feat/x"));
    assert_eq!(current_branch(Some("\n")), None);
    assert_eq!(current_branch(Some("")), None);
    assert_eq!(current_branch(None), None);
    for path in ["", "/", ".", "..", "a", "a/", "/a/b", "a/..", "a/.", "./a", "/a//b//", ".a", "a/.b"] {
        let by_std = std::path::Path::new(path).file_name().and_then(|n| n.to_str());
        assert_eq!(file_name_of(path).as_deref(), by_std, "{:?}", path);
    }
}

use git_testament::text::{
    chars, decode, has, same, split_lines, starts_with, string, trim_end_of, trim_of, whitespace,
};

fn v(s: &str) -> Vec<char> {
    s.chars().collect()
}

#[test]
fn chars_and_string_are_inverse() {
    for s in ["", "a", "refs/heads/main", "zażółć gęślą jaźń", "日本語\n", "a\u{0}b"] {
        assert_eq!(chars(s), v(s));
        assert_eq!(string(&v(s)), s);
        assert_eq!(string(&chars(s)), s);
    }
}

#[test]
fn string_appends_each_character() {
    assert_eq!(string(&['a', 'b', 'c']), "abc");
    assert_eq!(string(&['é']), "é");
    assert_eq!(string(&[]), "");
}

#[test]
fn decode_accepts_utf8_only() {
    assert_eq!(decode(b"plain".to_vec()).as_deref(), Some("plain"));
    assert_eq!(decode(Vec::new()).as_deref(), Some(""));
    assert_eq!(
        decode("grüße €".as_bytes().to_vec()).as_deref(),
        Some("grüße €")
    );
    assert_eq!(decode(vec![0xff, 0xfe]), None);
    assert_eq!(decode(vec![b'a', 0x80]), None);
    // an overlong encoding of '/'
    assert_eq!(decode(vec![0xc0, 0xaf]), None);
    // a surrogate
    assert_eq!(decode(vec![0xed, 0xa0, 0x80]), None);
    // cut short
    assert_eq!(decode(vec![0xe2, 0x82]), None);
}

#[test]
fn whitespace_is_that_of_unicode() {
    for code in 0..=0x10ffff_u32 {
        if let Some(c) = char::from_u32(code) {
            assert_eq!(whitespace(c), c.is_whitespace(), "U+{:04X}", code);
        }
    }
}

const SAMPLES: [&str; 14] = [
    "",
    " ",
    "abc",
    "  abc  ",
    "abc\n",
    "abc\r\n",
    "\t abc \t def \u{a0}\u{3000}",
    "\n\n",
    "a b",
    "\u{2028}x\u{2029}",
    "x\u{200b}",
    " \u{85} ",
    "refs/heads/main\n",
    "line one\nline two\n\nline four",
];

#[test]
fn trim_end_is_that_of_std() {
    for s in SAMPLES {
        assert_eq!(string(&trim_end_of(&v(s))), s.trim_end(), "{:?}", s);
    }
}

#[test]
fn trim_is_that_of_std() {
    for s in SAMPLES {
        assert_eq!(string(&trim_of(&v(s))), s.trim(), "{:?}", s);
    }
}

#[test]
fn lines_are_those_of_std() {
    let texts = [
        "",
        "\n",
        "\n\n",
        "a",
        "a\n",
        "a\nb",
        "a\nb\n",
        "a\r\nb\r\n",
        "a\r",
        "a\r\n\r\nb",
        "\r\n",
        "\r",
        "a\rb\nc",
        "\ra\n",
        "a\n\nb\n\n",
        " M src/lib.rs\n?? notes.txt\n",
    ];
    for text in texts {
        let lines: Vec<String> = split_lines(&v(text)).iter().map(|l| string(l)).collect();
        let expected: Vec<&str> = text.lines().collect();
        assert_eq!(lines, expected, "{:?}", text);
    }
}

#[test]
fn same_compares_all_characters() {
    assert!(same(&v(""), &v("")));
    assert!(same(&v("release"), &v("release")));
    assert!(!same(&v("release"), &v("releasf")));
    assert!(!same(&v("release"), &v("releas")));
    assert!(!same(&v("release"), &v("release ")));
    assert!(!same(&v("Release"), &v("release")));
}

#[test]
fn starts_with_is_that_of_std() {
    let pairs = [
        ("committer A", "committer "),
        ("committer", "committer "),
        ("committerA", "committer "),
        (" committer A", "committer "),
        ("", ""),
        ("abc", ""),
        ("", "a"),
        ("refs/heads/x", "refs/heads/"),
    ];
    for (s, prefix) in pairs {
        assert_eq!(starts_with(&v(s), &v(prefix)), s.starts_with(prefix));
    }
}

#[test]
fn has_is_contains_of_std() {
    let hays = ["", "1.0.0", "v1.0.0", "release-1.0.0-rc1", "aaa", "abab", "0.1.0"];
    let needles = ["", "1.0.0", "1.0", "0.0", "aa", "aaaa", "bab", "abc", "v", "1"];
    for hay in hays {
        for needle in needles {
            assert_eq!(
                has(&v(hay), &v(needle)),
                hay.contains(needle),
                "{:?} in {:?}",
                needle,
                hay
            );
        }
    }
}

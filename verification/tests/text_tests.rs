use gjallarhorn::text::{
    chars_of, contains, decimal, equal_text, first_word_chars, join_chars, parse_number,
    split_chars, split_lines, starts_with, string_of, trim,
};

fn strings(parts: Vec<Vec<char>>) -> Vec<String> {
    parts.iter().map(|p| p.iter().collect()).collect()
}

#[test]
fn chars_and_back() {
    let s = "héllo wörld ✓";
    assert_eq!(string_of(&chars_of(s)), s);
    assert_eq!(chars_of(s).len(), s.chars().count());
}

#[test]
fn trim_agrees_with_std() {
    for s in [
        "",
        " ",
        "abc",
        "  abc",
        "abc  ",
        " \t\r\n abc def \n",
        "\u{a0}x\u{2003}",
        "\u{3000}\u{85}y z\u{1680}",
        "\u{200b}x",
        "a\u{202f}",
        "\n\n",
    ] {
        assert_eq!(trim(s), s.trim(), "input {:?}", s);
    }
}

#[test]
fn contains_agrees_with_std() {
    let cases = [
        ("flags : fpu vmx sse", "vmx"),
        ("flags : fpu sse", "vmx"),
        ("", ""),
        ("abc", ""),
        ("", "a"),
        ("aaab", "aab"),
        ("Permission denied", "Permission denied"),
        ("xPermission denie", "Permission denied"),
        ("ab", "abc"),
    ];
    for (s, p) in cases {
        assert_eq!(contains(s, p), s.contains(p), "{:?} in {:?}", p, s);
    }
}

#[test]
fn starts_with_agrees_with_std() {
    let cases = [("nvme0n1", "nvme"), ("sda", "nvme"), ("nv", "nvme"), ("", ""), ("x", ""), ("loop0", "loop")];
    for (s, p) in cases {
        assert_eq!(starts_with(s, p), s.starts_with(p));
    }
}

#[test]
fn equal_text_compares_content() {
    assert!(equal_text("Unknown", "Unknown"));
    assert!(!equal_text("Unknown", "unknown"));
    assert!(!equal_text("Unknown", "Unknown "));
}

#[test]
fn parse_number_agrees_with_std_u64() {
    for s in [
        "0",
        "7",
        "0007",
        "+5",
        "+",
        "-5",
        "",
        " 5",
        "5 ",
        "12a",
        "18446744073709551615",
        "18446744073709551616",
        "99999999999999999999999",
        "++1",
        "１２",
    ] {
        assert_eq!(parse_number(s, u64::MAX), s.parse::<u64>().ok(), "input {:?}", s);
    }
}

#[test]
fn parse_number_agrees_with_std_u8() {
    for s in ["0", "1", "255", "256", "+255", "0256", "abc", ""] {
        assert_eq!(
            parse_number(s, 255),
            s.parse::<u8>().ok().map(|v| v as u64),
            "input {:?}",
            s
        );
    }
}

#[test]
fn decimal_agrees_with_std() {
    for n in [0u64, 1, 9, 10, 11, 99, 100, 12345, u64::MAX] {
        assert_eq!(decimal(n), n.to_string());
    }
}

#[test]
fn split_agrees_with_std() {
    let cases = [
        ("a:b:c", ":"),
        ("model name\t: Intel(R) Core", ":"),
        ("", ":"),
        (":", ":"),
        ("a:", ":"),
        ("no colon", ":"),
        ("xMemory DeviceyMemory Devicez", "Memory Device"),
        ("aaa", "aa"),
    ];
    for (s, p) in cases {
        let expected: Vec<String> = s.split(p).map(|x| x.to_string()).collect();
        assert_eq!(strings(split_chars(&chars_of(s), &chars_of(p))), expected, "{:?} by {:?}", s, p);
    }
}

#[test]
fn lines_agree_with_std() {
    for s in [
        "",
        "\n",
        "a",
        "a\n",
        "a\nb",
        "a\r\nb\r\n",
        "a\r",
        "a\n\nb",
        "\r\n",
        "a\r\r\nb",
        "one\ntwo\nthree\n",
    ] {
        let expected: Vec<String> = s.lines().map(|x| x.to_string()).collect();
        assert_eq!(strings(split_lines(&chars_of(s))), expected, "input {:?}", s);
    }
}

#[test]
fn first_word_agrees_with_std() {
    for s in ["", "   ", "8192 KB", "  8192\tKB", "x", "\u{a0}y z"] {
        let expected = s.split_whitespace().next().map(|x| x.to_string());
        let got = first_word_chars(&chars_of(s)).map(|w| w.iter().collect::<String>());
        assert_eq!(got, expected, "input {:?}", s);
    }
}

#[test]
fn join_agrees_with_std() {
    let cases: Vec<Vec<&str>> = vec![vec![], vec!["a"], vec!["a", "b"], vec!["", "x", ""]];
    for parts in cases {
        let chars: Vec<Vec<char>> = parts.iter().map(|p| chars_of(p)).collect();
        let got: String = join_chars(&chars, &chars_of(", ")).iter().collect();
        assert_eq!(got, parts.join(", "));
    }
}

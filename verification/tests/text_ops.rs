use lib::text::{
    byte_len_exec, chars_of, decimal_exec, eq_ignore_ascii_case_exec, first_word_exec,
    is_whitespace, parse_usize_exec, replace_all_exec, split_lines, split_n_exec, strip_exec,
    trim_exec, CharClass,
};

fn cs(s: &str) -> Vec<char> {
    s.chars().collect()
}

fn st(v: &[char]) -> String {
    v.iter().collect()
}

const SAMPLES: &[&str] = &[
    "",
    " ",
    "abc",
    "  abc  ",
    "\t\n a b \r\n",
    "\u{a0}x\u{3000}",
    "\u{85}\u{2028}mid dle\u{2029}\u{202f}",
    "\u{1680}\u{2000}\u{200a}\u{205f}z",
    "a\nb\n",
    "a\r\nb\r\n\r\n",
    "a\rb\r",
    "\n\n",
    "line without end\r",
    "über straße",
];

#[test]
fn whitespace_matches_std() {
    for u in 0u32..0x3100 {
        if let Some(c) = char::from_u32(u) {
            assert_eq!(is_whitespace(c), c.is_whitespace(), "{:x}", u);
        }
    }
    for c in ['\u{feff}', '\u{180e}', '\u{10ffff}'] {
        assert_eq!(is_whitespace(c), c.is_whitespace());
    }
}

#[test]
fn trim_matches_std() {
    for s in SAMPLES {
        assert_eq!(st(&trim_exec(&cs(s))), s.trim(), "{:?}", s);
    }
}

#[test]
fn trim_matches_of_a_character_matches_std() {
    for s in ["{{key}}", "{x", "}}", "", "{a}b}"] {
        let once = strip_exec(&cs(s), CharClass::Is('{'));
        assert_eq!(st(&once), s.trim_matches('{'));
        let twice = strip_exec(&once, CharClass::Is('}'));
        assert_eq!(st(&twice), s.trim_matches('{').trim_matches('}'));
    }
}

#[test]
fn first_word_matches_std() {
    for s in SAMPLES {
        assert_eq!(st(&first_word_exec(&cs(s))), s.split_whitespace().next().unwrap_or(""), "{:?}", s);
    }
}

#[test]
fn lines_match_std() {
    for s in SAMPLES {
        let ours: Vec<String> = split_lines(&cs(s)).iter().map(|l| st(l)).collect();
        let std_lines: Vec<String> = s.lines().map(|l| l.to_string()).collect();
        assert_eq!(ours, std_lines, "{:?}", s);
    }
}

#[test]
fn parse_matches_std() {
    let inputs = [
        "", "+", "-", "0", "+0", "007", "42", "-1", "+-1", "++1", "1a", " 1", "18446744073709551615",
        "18446744073709551616", "99999999999999999999", "4294967295", "4294967296",
    ];
    for s in inputs {
        assert_eq!(parse_usize_exec(&cs(s)), s.parse::<usize>().ok(), "{:?}", s);
    }
}

#[test]
fn decimal_matches_std() {
    for n in [0usize, 1, 9, 10, 99, 100, 12345, usize::MAX] {
        assert_eq!(st(&decimal_exec(n)), n.to_string());
    }
}

#[test]
fn byte_length_matches_std() {
    for s in SAMPLES.iter().chain(["\u{10348}€ä", "a\u{ffff}"].iter()) {
        assert_eq!(byte_len_exec(&cs(s)), s.len(), "{:?}", s);
    }
}

#[test]
fn replace_matches_std() {
    let cases = [("@item a @tab b", "@item", ""), ("@tab@tab", "@tab", "\t"), ("aaa", "aa", "b"), ("", "x", "y"), ("abc", "abcd", "z")];
    for (s, p, r) in cases {
        assert_eq!(st(&replace_all_exec(&cs(s), &cs(p), &cs(r))), s.replace(p, r));
    }
}

#[test]
fn splitn_matches_std() {
    for s in ["a,b,c,d,e", "", ",", "Top", "a,,b", " x , y "] {
        for n in 0usize..6 {
            let ours: Vec<String> = split_n_exec(&cs(s), ',', n).iter().map(|p| st(p)).collect();
            let theirs: Vec<String> = s.splitn(n, ',').map(|p| p.to_string()).collect();
            assert_eq!(ours, theirs, "{:?} {}", s, n);
        }
    }
}

#[test]
fn ascii_case_comparison_matches_std() {
    for (a, b) in [("top", "TOP"), ("Top", "top"), ("tops", "top"), ("tÖp", "TÖP"), ("", ""), ("tøp", "top")] {
        assert_eq!(eq_ignore_ascii_case_exec(&cs(a), &cs(b)), a.eq_ignore_ascii_case(b));
    }
}

#[test]
fn chars_of_a_string() {
    for s in SAMPLES {
        assert_eq!(chars_of(s), cs(s));
    }
}

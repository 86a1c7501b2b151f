use git_cli::text::chars_of;
use git_cli::text::decimal_string;
use git_cli::text::has_infix;
use git_cli::text::has_prefix;
use git_cli::text::has_suffix;
use git_cli::text::is_whitespace;
use git_cli::text::matches_at;
use git_cli::text::replace_head;
use git_cli::text::split_lines;
use git_cli::text::starts_with;
use git_cli::text::trim;

#[test]
fn chars_of_keeps_every_character() {
    assert_eq!(chars_of(""), Vec::<char>::new());
    assert_eq!(chars_of("a\u{e9}\u{1F41B}"), vec!['a', '\u{e9}', '\u{1F41B}']);
}

#[test]
fn whitespace_is_what_std_calls_whitespace() {
    let mut code: u32 = 0;
    while code <= 0x10FFFF {
        if let Some(c) = char::from_u32(code) {
            assert_eq!(is_whitespace(c), c.is_whitespace(), "at {:#x}", code);
        }
        code += 1;
    }
}

#[test]
fn trim_agrees_with_std() {
    let samples = [
        "",
        " ",
        "\t\n",
        "main\n",
        "  feature/x  ",
        "\u{a0}a b\u{3000}",
        "a",
        " a",
        "a ",
        "\r\nmain\r\n",
    ];
    for s in samples {
        assert_eq!(trim(s), s.trim(), "for {:?}", s);
    }
    assert_eq!(trim("  main \n"), "main");
}

#[test]
fn lines_agree_with_std() {
    let samples = [
        "",
        "\n",
        "a",
        "a\n",
        "a\nb",
        "a\n\nb\n",
        "a\r\nb\r\n",
        "a\r",
        "a\r\r\n",
        "\r\n",
        "\n\n",
        "M  src/a.rs\n?? b.txt\nA  c.rs\n",
        "caf\u{e9}\n\u{1F41B}",
    ];
    for s in samples {
        let expected: Vec<String> = s.lines().map(|l| l.to_string()).collect();
        assert_eq!(split_lines(s), expected, "for {:?}", s);
    }
    assert_eq!(split_lines("a\r\nb\n\nc"), vec!["a", "b", "", "c"]);
    assert_eq!(split_lines("x\r"), vec!["x\r"]);
}

#[test]
fn prefix_suffix_and_infix() {
    let hay = chars_of("readme.md");
    assert!(has_prefix(&hay, "read"));
    assert!(has_prefix(&hay, ""));
    assert!(!has_prefix(&hay, "eadme"));
    assert!(!has_prefix(&hay, "readme.md.bak"));
    assert!(has_suffix(&hay, ".md"));
    assert!(has_suffix(&hay, ""));
    assert!(!has_suffix(&hay, ".m"));
    assert!(has_infix(&hay, "dme"));
    assert!(has_infix(&hay, ""));
    assert!(has_infix(&hay, "readme.md"));
    assert!(!has_infix(&hay, "readme.mdx"));
    assert!(!has_infix(&hay, "mde"));
    assert!(has_infix(&chars_of(""), ""));
    assert!(!has_infix(&chars_of(""), "a"));
    assert!(matches_at(&hay, &chars_of("me"), 4));
    assert!(!matches_at(&hay, &chars_of("me"), 5));
    assert!(!matches_at(&hay, &chars_of("md"), 8));
    assert!(matches_at(&hay, &chars_of(""), 9));
    assert!(!matches_at(&hay, &chars_of(""), 10));
}

#[test]
fn string_searches_agree_with_std() {
    let hays = ["", "a", "feat: x", "src/ui/mod.rs", "caf\u{e9}.md", "aaa"];
    let pats = ["", "a", "aa", "feat: ", "ui", ".md", "\u{e9}", "x", "aaaa"];
    for h in hays {
        for p in pats {
            let hay = chars_of(h);
            assert_eq!(starts_with(h, p), h.starts_with(p), "{:?} starts with {:?}", h, p);
            assert_eq!(has_prefix(&hay, p), h.starts_with(p), "{:?} starts with {:?}", h, p);
            assert_eq!(has_suffix(&hay, p), h.ends_with(p), "{:?} ends with {:?}", h, p);
            assert_eq!(has_infix(&hay, p), h.contains(p), "{:?} contains {:?}", h, p);
        }
    }
}

#[test]
fn decimal_agrees_with_std() {
    let samples: [usize; 9] = [0, 1, 9, 10, 50, 60, 72, 1009, usize::MAX];
    for n in samples {
        assert_eq!(decimal_string(n), n.to_string());
    }
    assert_eq!(decimal_string(60), "60");
}

#[test]
fn replace_head_swaps_the_first_character() {
    assert_eq!(replace_head("fix", "F"), "Fix");
    assert_eq!(replace_head("", "F"), "");
    assert_eq!(replace_head("\u{df}a", "SS"), "SSa");
    assert_eq!(replace_head("x", ""), "");
}

/// Texts over a small alphabet, in a fixed pseudo-random order.
fn samples(count: usize) -> Vec<String> {
    let alphabet = ['a', '\n', '\r', ' ', '\u{e9}', '\t', '\u{3000}', 'b'];
    let mut state: u64 = 0x2545F4914F6CDD1D;
    let mut out = Vec::new();
    for _ in 0..count {
        state = state.wrapping_mul(6364136223846793005).wrapping_add(1442695040888963407);
        let len = ((state >> 60) % 9) as usize;
        let mut s = String::new();
        for _ in 0..len {
            state = state.wrapping_mul(6364136223846793005).wrapping_add(1442695040888963407);
            s.push(alphabet[((state >> 33) % 8) as usize]);
        }
        out.push(s);
    }
    out
}

#[test]
fn lines_and_trim_agree_with_std_on_many_texts() {
    for s in samples(20000) {
        let expected: Vec<String> = s.lines().map(|l| l.to_string()).collect();
        assert_eq!(split_lines(&s), expected, "lines of {:?}", s);
        assert_eq!(trim(&s), s.trim(), "trim of {:?}", s);
    }
}

#[test]
fn searches_agree_with_std_on_many_texts() {
    let texts = samples(400);
    for (i, h) in texts.iter().enumerate() {
        let hay = chars_of(h);
        for p in texts.iter().skip(i % 7).step_by(13) {
            assert_eq!(has_prefix(&hay, p), h.starts_with(p.as_str()), "{:?} / {:?}", h, p);
            assert_eq!(has_suffix(&hay, p), h.ends_with(p.as_str()), "{:?} / {:?}", h, p);
            assert_eq!(has_infix(&hay, p), h.contains(p.as_str()), "{:?} / {:?}", h, p);
        }
    }
}

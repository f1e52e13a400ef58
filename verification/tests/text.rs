use lyrics::fmt::{decimal_exec, digits_exec, hex2_exec};
use lyrics::pick::{first_max_exec, last_max_exec};
use lyrics::text::{
    contains_exec, copy_range, count_found_exec, find_from_exec, is_blank, is_whitespace, lines_exec,
    replace_exec, starts_with_exec, string_of, trim_chars, words_exec,
};
use lyrics::unicode::{first_uppercase, is_alphanumeric, len_utf8, to_ascii_lowercase, to_lowercase};

fn chars(s: &str) -> Vec<char> {
    s.chars().collect()
}

fn text(v: &[char]) -> String {
    v.iter().collect()
}

const SAMPLES: &[&str] = &[
    "", "a", "\n", "\n\n", "a\n", "a\nb", "a\r\nb\r\n", "a\rb", "a\r", "\r\n", " x \t\n y ",
    "\u{a0}word\u{3000}", "x\u{2028}y", "line one\nline two\n\nline four",
];

#[test]
fn lines_match_str_lines() {
    for s in SAMPLES {
        let got: Vec<String> = lines_exec(&chars(s)).iter().map(|l| text(l)).collect();
        let want: Vec<String> = s.lines().map(|l| l.to_string()).collect();
        assert_eq!(got, want, "lines of {s:?}");
    }
}

#[test]
fn trim_and_blank_match_str() {
    for s in SAMPLES {
        assert_eq!(text(&trim_chars(&chars(s))), s.trim(), "trim of {s:?}");
        assert_eq!(is_blank(&chars(s)), s.trim().is_empty(), "blank {s:?}");
    }
}

#[test]
fn words_match_split_whitespace() {
    for s in SAMPLES {
        let got: Vec<String> = words_exec(&chars(s)).iter().map(|w| text(w)).collect();
        let want: Vec<String> = s.split_whitespace().map(|w| w.to_string()).collect();
        assert_eq!(got, want, "words of {s:?}");
    }
}

#[test]
fn whitespace_matches_char_is_whitespace() {
    for u in 0u32..0x3100 {
        if let Some(c) = char::from_u32(u) {
            assert_eq!(is_whitespace(c), c.is_whitespace(), "U+{u:04X}");
        }
    }
    assert!(!is_whitespace('\u{feff}'));
}

#[test]
fn searching_and_replacing() {
    assert_eq!(find_from_exec(&chars("abcabc"), &chars("bc"), 0), Some(1));
    assert_eq!(find_from_exec(&chars("abcabc"), &chars("bc"), 2), Some(4));
    assert_eq!(find_from_exec(&chars("abcabc"), &chars("x"), 0), None);
    assert_eq!(find_from_exec(&chars("ab"), &chars(""), 2), Some(2));
    assert!(contains_exec(&chars("the band"), &chars("band")));
    assert!(!contains_exec(&chars("the band"), &chars("bands")));
    assert!(starts_with_exec(&chars("PLAIN\nx"), &chars("PLAIN\n")));
    assert_eq!(text(&replace_exec(&chars("aaa"), &chars("aa"), &chars("b"))), "aaa".replace("aa", "b"));
    assert_eq!(text(&replace_exec(&chars("x&amp;y&amp;"), &chars("&amp;"), &chars("&"))), "x&y&");
    assert_eq!(text(&copy_range(&chars("hello"), 1, 3)), "el");
    assert_eq!(string_of(&chars("Мир")), "Мир");
}

#[test]
fn counting_found_words() {
    let ws = vec![chars("the"), chars("band"), chars("the")];
    assert_eq!(count_found_exec(&ws, &chars("the band")), 3);
    assert_eq!(count_found_exec(&ws, &chars("other")), 2);
    assert_eq!(count_found_exec(&Vec::new(), &chars("x")), 0);
}

#[test]
fn numbers_as_text() {
    for n in [0i64, 7, -7, 10, 215, -1000, i64::MAX, i64::MIN] {
        assert_eq!(text(&decimal_exec(n)), n.to_string());
    }
    for n in [0u64, 9, 10, 255, 0xdeadbeef, u64::MAX] {
        assert_eq!(text(&digits_exec(n, 16)), format!("{n:x}"));
        assert_eq!(text(&digits_exec(n, 10)), n.to_string());
    }
    assert_eq!(text(&hex2_exec(0x0a)), "0a");
    assert_eq!(text(&hex2_exec(0xff)), "ff");
}

#[test]
fn picking_the_best_score() {
    assert_eq!(last_max_exec(&[1, 3, 2, 3]), Some(3));
    assert_eq!(first_max_exec(&[1, 3, 2, 3]), Some(1));
    assert_eq!(last_max_exec(&[]), None);
    assert_eq!(first_max_exec(&[5]), Some(0));
}

#[test]
fn unicode_helpers() {
    assert_eq!(first_uppercase('a'), Some('A'));
    assert_eq!(first_uppercase('ß'), Some('S'));
    assert_eq!(first_uppercase('1'), Some('1'));
    assert_eq!(to_lowercase("ÀB Мир"), "àb мир");
    assert!(is_alphanumeric('ж'));
    assert!(!is_alphanumeric('!'));
    for c in ['a', 'é', '€', '😀'] {
        assert_eq!(len_utf8(c), c.len_utf8());
    }
    for c in ['A', 'z', 'Z', '@', '[', 'Ж'] {
        assert_eq!(to_ascii_lowercase(c), c.to_ascii_lowercase());
    }
}

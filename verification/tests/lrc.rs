use lyrics::lrc::{float_syntax_exec, scan_lrc};

fn chars(s: &str) -> Vec<char> {
    s.chars().collect()
}

fn entries(raw: &str) -> Vec<(String, String, String)> {
    scan_lrc(raw).into_iter().map(|e| (e.minutes, e.seconds, e.text)).collect()
}

fn e(m: &str, s: &str, t: &str) -> (String, String, String) {
    (m.to_string(), s.to_string(), t.to_string())
}

#[test]
fn scan_lrc_splits_time_stamped_lines() {
    let raw = "[ar:Someone]\n[00:12.34] First line \r\n  [01:02.5]Second\nno stamp\n[02:00]\n";
    assert_eq!(
        entries(raw),
        vec![e("00", "12.34", "First line"), e("01", "02.5", "Second"), e("02", "00", "")]
    );
}

#[test]
fn scan_lrc_keeps_file_order() {
    assert_eq!(entries("[00:05]b\n[00:01]a"), vec![e("00", "05", "b"), e("00", "01", "a")]);
}

#[test]
fn scan_lrc_splits_at_the_first_colon_and_bracket() {
    assert_eq!(entries("[1:2:3]x"), Vec::<(String, String, String)>::new());
    assert_eq!(entries("[1:2]x]y"), vec![e("1", "2", "x]y")]);
}

#[test]
fn scan_lrc_of_blank_text_is_empty() {
    assert!(scan_lrc("").is_empty());
    assert!(scan_lrc("\n\n  \n").is_empty());
}

const FLOATS: &[&str] = &[
    "", "0", "00", "12.34", ".5", "5.", ".", "+1", "-1", "+-1", "1e5", "1E5", "1e", "1e+", "1e+5",
    "1e-5", "1.5e3", ".e3", "e3", "inf", "INF", "Infinity", "-inf", "+NaN", "nan", "infin", "1_0",
    " 1", "1 ", "0x10", "1.2.3", "١", "1e5.0", "--1", "+", "-", "NAN", "iNfInItY", "5.e2", ".5E-2",
];

#[test]
fn float_syntax_agrees_with_f64_parsing() {
    for s in FLOATS {
        assert_eq!(
            float_syntax_exec(&chars(s)),
            s.parse::<f64>().is_ok(),
            "disagreement on {s:?}"
        );
    }
}

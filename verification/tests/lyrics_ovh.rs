use lyrics::lyrics_ovh::{fetch, urlencoding, OvhReply, OvhStep};

#[test]
fn urlencoding_keeps_unreserved_bytes() {
    assert_eq!(urlencoding("Abc-09_.~"), "Abc-09_.~");
}

#[test]
fn urlencoding_escapes_everything_else_bytewise() {
    assert_eq!(urlencoding("a b/c"), "a%20b%2Fc");
    assert_eq!(urlencoding("Мир"), "%D0%9C%D0%B8%D1%80");
}

#[test]
fn fetch_asks_for_the_song_url() {
    match fetch("Hey Jude", "The Beatles", OvhReply::Start) {
        OvhStep::Get { url } => assert_eq!(url, "https://api.lyrics.ovh/v1/The%20Beatles/Hey%20Jude"),
        _ => panic!("expected a request"),
    }
}

#[test]
fn fetch_keeps_only_non_blank_lyrics() {
    assert!(matches!(fetch("a", "b", OvhReply::Refused), OvhStep::Done(None)));
    assert!(matches!(fetch("a", "b", OvhReply::Lyrics(None)), OvhStep::Done(None)));
    assert!(matches!(fetch("a", "b", OvhReply::Lyrics(Some(" \n".to_string()))), OvhStep::Done(None)));
    match fetch("a", "b", OvhReply::Lyrics(Some("words".to_string()))) {
        OvhStep::Done(Some(l)) => assert_eq!(l, "words"),
        _ => panic!("expected lyrics"),
    }
}

fn percent_decode(s: &str) -> Vec<u8> {
    let b = s.as_bytes();
    let mut out = Vec::new();
    let mut i = 0;
    while i < b.len() {
        if b[i] == b'%' {
            out.push(u8::from_str_radix(&s[i + 1..i + 3], 16).unwrap());
            i += 3;
        } else {
            out.push(b[i]);
            i += 1;
        }
    }
    out
}

#[test]
fn urlencoding_decodes_back_to_its_input() {
    for s in ["", "AC/DC", "Кино — Группа крови", "100% ~ a_b.c-d", "日本語 🎵"] {
        let e = urlencoding(s);
        assert!(e.chars().all(|c| c.is_ascii_alphanumeric() || "-_.~%".contains(c)));
        assert_eq!(percent_decode(&e), s.as_bytes());
    }
    assert_ne!(urlencoding("a b"), urlencoding("a+b"));
}

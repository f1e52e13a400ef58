use lyrics::lyrics_api::{
    cache_path, load_cached, Found, Lookup, LookupReply, LookupStep, LrcLibLyrics, Stage,
};

#[test]
fn cache_path_sanitizes_names() {
    assert_eq!(
        cache_path("/home/u", "Hey Jude!", "The Beatles"),
        "/home/u/.cache/lyrics/the_beatles__hey_jude_.lrc"
    );
    assert_eq!(cache_path("/h", "Кино", "a/b"), "/h/.cache/lyrics/a_b__Кино.lrc");
}

fn synced(f: Option<Found>) -> Option<String> {
    match f {
        Some(Found::Synced(s)) => Some(s),
        _ => None,
    }
}

fn plain(f: Option<Found>) -> Option<String> {
    match f {
        Some(Found::Plain(s)) => Some(s),
        _ => None,
    }
}

#[test]
fn load_cached_reads_plain_and_synced() {
    assert_eq!(plain(load_cached("PLAIN\nsome words\n")).as_deref(), Some("some words\n"));
    assert!(load_cached("PLAIN\n   \n").is_none());
    assert_eq!(synced(load_cached("[00:01.00]hi")).as_deref(), Some("[00:01.00]hi"));
    assert!(load_cached("no lyrics here").is_none());
    assert!(load_cached("").is_none());
}

const LRC: &str = "[00:01.00]one\n[00:02.00]two";

fn lookup() -> Lookup {
    Lookup::new("/h", "T", "A", "Al", Some(215))
}

fn finish(step: LookupStep) -> (Found, Option<(String, String)>) {
    match step {
        LookupStep::Finish { lyrics, save } => (lyrics, save),
        _ => panic!("expected the lookup to finish"),
    }
}

#[test]
fn lookup_reads_the_cache_first_and_stops_on_a_hit() {
    let mut l = lookup();
    match l.advance(LookupReply::Start) {
        LookupStep::ReadCache { path } => assert_eq!(path, "/h/.cache/lyrics/a__t.lrc"),
        _ => panic!("expected a cache read"),
    }
    let (f, save) = finish(l.advance(LookupReply::Cache(Some(LRC.to_string()))));
    assert!(matches!(f, Found::Synced(ref s) if s == LRC));
    assert!(save.is_none());
    assert!(l.stage() == Stage::Done);
}

#[test]
fn lookup_asks_lrclib_with_the_song_after_a_miss() {
    let mut l = lookup();
    l.advance(LookupReply::Start);
    match l.advance(LookupReply::Cache(None)) {
        LookupStep::AskLrcLib { url, params } => {
            assert_eq!(url, "https://lrclib.net/api/get");
            let p: Vec<(&str, &str)> = params.iter().map(|(a, b)| (a.as_str(), b.as_str())).collect();
            assert_eq!(
                p,
                vec![("track_name", "T"), ("artist_name", "A"), ("album_name", "Al"), ("duration", "215")]
            );
        }
        _ => panic!("expected lrclib"),
    }
}

#[test]
fn lookup_takes_lrclib_synced_lyrics_and_saves_them() {
    let mut l = lookup();
    l.advance(LookupReply::Start);
    l.advance(LookupReply::Cache(None));
    let reply = LrcLibLyrics { synced: Some(LRC.to_string()), plain: Some("words".to_string()) };
    let (f, save) = finish(l.advance(LookupReply::LrcLib(Some(reply))));
    assert!(matches!(f, Found::Synced(ref s) if s == LRC));
    assert_eq!(save, Some(("/h/.cache/lyrics/a__t.lrc".to_string(), LRC.to_string())));
}

#[test]
fn synced_netease_beats_plain_lrclib() {
    let mut l = lookup();
    l.advance(LookupReply::Start);
    l.advance(LookupReply::Cache(None));
    let reply = LrcLibLyrics { synced: Some("no stamps".to_string()), plain: Some("words".to_string()) };
    assert!(matches!(l.advance(LookupReply::LrcLib(Some(reply))), LookupStep::AskNetease));
    let (f, _) = finish(l.advance(LookupReply::Netease(Some(LRC.to_string()))));
    assert!(matches!(f, Found::Synced(_)));
}

#[test]
fn plain_lrclib_comes_after_netease() {
    let mut l = lookup();
    l.advance(LookupReply::Start);
    l.advance(LookupReply::Cache(None));
    let reply = LrcLibLyrics { synced: None, plain: Some("words".to_string()) };
    l.advance(LookupReply::LrcLib(Some(reply)));
    let (f, save) = finish(l.advance(LookupReply::Netease(None)));
    assert!(matches!(f, Found::Plain(ref s) if s == "words"));
    assert_eq!(save, Some(("/h/.cache/lyrics/a__t.lrc".to_string(), "PLAIN\nwords".to_string())));
}

#[test]
fn lookup_falls_through_to_ovh_genius_and_not_found() {
    let mut l = lookup();
    l.advance(LookupReply::Start);
    l.advance(LookupReply::Cache(Some("PLAIN\n ".to_string())));
    l.advance(LookupReply::LrcLib(None));
    assert!(matches!(l.advance(LookupReply::Netease(None)), LookupStep::AskOvh));
    assert!(matches!(l.advance(LookupReply::Ovh(None)), LookupStep::AskGenius));
    let (f, save) = finish(l.advance(LookupReply::Genius(None)));
    assert!(matches!(f, Found::NotFound));
    assert!(save.is_none());
}

#[test]
fn lookup_takes_genius_as_a_last_resort() {
    let mut l = lookup();
    l.advance(LookupReply::Start);
    l.advance(LookupReply::Cache(None));
    l.advance(LookupReply::LrcLib(None));
    l.advance(LookupReply::Netease(None));
    l.advance(LookupReply::Ovh(None));
    let (f, _) = finish(l.advance(LookupReply::Genius(Some("scraped".to_string()))));
    assert!(matches!(f, Found::Plain(ref s) if s == "scraped"));
}

#[test]
fn lookup_falls_back_when_lrclib_cannot_be_reached() {
    let mut l = lookup();
    l.advance(LookupReply::Start);
    l.advance(LookupReply::Cache(None));
    assert!(matches!(l.advance(LookupReply::LrcLibFailed), LookupStep::AskNetease));
    assert!(l.stage() == Stage::Netease);
    assert!(matches!(l.advance(LookupReply::Netease(None)), LookupStep::AskOvh));
    match l.advance(LookupReply::Ovh(Some("words".to_string()))) {
        LookupStep::Finish { lyrics: Found::Plain(t), save: Some(_) } => assert_eq!(t, "words"),
        _ => panic!("expected plain lyrics from lyrics.ovh"),
    }
}

#[test]
fn lookup_without_duration_sends_three_parameters() {
    let mut l = Lookup::new("/h", "T", "A", "", None);
    l.advance(LookupReply::Start);
    match l.advance(LookupReply::Cache(None)) {
        LookupStep::AskLrcLib { params, .. } => assert_eq!(params.len(), 3),
        _ => panic!("expected lrclib"),
    }
}

#[test]
fn a_reply_out_of_turn_fails_the_lookup() {
    let mut l = lookup();
    assert!(matches!(l.advance(LookupReply::Genius(None)), LookupStep::Fail));
    assert!(l.stage() == Stage::Done);
}

#[test]
fn saved_lyrics_come_back_from_the_cache() {
    // Plain lyrics from lyrics.ovh, after lrclib could not be reached.
    let mut l = lookup();
    l.advance(LookupReply::Start);
    l.advance(LookupReply::Cache(None));
    l.advance(LookupReply::LrcLibFailed);
    l.advance(LookupReply::Netease(None));
    let (f, save) = finish(l.advance(LookupReply::Ovh(Some("la la\n".to_string()))));
    let (path, body) = save.expect("plain lyrics are saved");
    let mut again = lookup();
    match again.advance(LookupReply::Start) {
        LookupStep::ReadCache { path: p } => assert_eq!(p, path),
        _ => panic!("expected a cache read"),
    }
    let (g, resave) = finish(again.advance(LookupReply::Cache(Some(body))));
    assert!(resave.is_none());
    assert_eq!(plain(Some(f)), plain(Some(g)));

    // Synced lyrics from lrclib.
    let mut l = lookup();
    l.advance(LookupReply::Start);
    l.advance(LookupReply::Cache(None));
    let lrclib = LrcLibLyrics { synced: Some(LRC.to_string()), plain: None };
    let (_, save) = finish(l.advance(LookupReply::LrcLib(Some(lrclib))));
    let (_, body) = save.expect("synced lyrics are saved");
    let mut again = lookup();
    again.advance(LookupReply::Start);
    let (g, resave) = finish(again.advance(LookupReply::Cache(Some(body))));
    assert!(resave.is_none());
    assert_eq!(synced(Some(g)).as_deref(), Some(LRC));
}

#[test]
fn nothing_found_is_not_cached() {
    let mut l = lookup();
    l.advance(LookupReply::Start);
    l.advance(LookupReply::Cache(None));
    l.advance(LookupReply::LrcLib(None));
    l.advance(LookupReply::Netease(None));
    l.advance(LookupReply::Ovh(None));
    let (f, save) = finish(l.advance(LookupReply::Genius(None)));
    assert!(matches!(f, Found::NotFound));
    assert!(save.is_none());
}

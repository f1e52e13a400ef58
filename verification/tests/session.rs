use lyrics::session::{
    push_recent, should_promote, LyricsKind, Panel, RecentTrack, Session, TrackChange, HISTORY_LIMIT,
};

fn key(t: &str, a: &str) -> (String, String) {
    (t.to_string(), a.to_string())
}

#[test]
fn a_track_change_asks_for_lyrics_once() {
    let mut s = Session::new();
    assert_eq!(s.observe("Song", "Band"), TrackChange { changed: true, fetch: true });
    assert_eq!(s.observe("Song", "Band"), TrackChange { changed: false, fetch: false });
    assert_eq!(s.observe("Other", "Band"), TrackChange { changed: true, fetch: true });
}

#[test]
fn failed_lookups_are_not_retried() {
    let mut s = Session::new();
    assert!(s.observe("X", "Band").fetch);
    assert!(s.finish(&key("X", "Band"), false));
    assert!(s.observe("Y", "Band").fetch);
    assert!(s.finish(&key("Y", "Band"), true));
    // X comes back: the display starts afresh, but X is not looked up again.
    assert_eq!(s.observe("X", "Band"), TrackChange { changed: true, fetch: false });
    // Y, whose lookup found lyrics, is looked up again as a new track.
    assert_eq!(s.observe("Y", "Band"), TrackChange { changed: true, fetch: true });
    s.clear();
    assert_eq!(s.observe("X", "Band"), TrackChange { changed: true, fetch: false });
    // A failure reported for a track that is no longer current still counts.
    assert!(!s.finish(&key("Z", "Band"), false));
    assert!(!s.observe("Z", "Band").fetch);
}

#[test]
fn stale_replies_are_not_current() {
    let mut s = Session::new();
    assert!(!s.is_current(&key("Song", "Band")));
    s.observe("Song", "Band");
    assert!(s.is_current(&key("Song", "Band")));
    s.observe("Next", "Band");
    assert!(!s.is_current(&key("Song", "Band")));
    s.clear();
    assert!(!s.is_current(&key("Next", "Band")));
    assert!(s.observe("Next", "Band").fetch);
}

fn track(t: &str, a: &str) -> RecentTrack {
    RecentTrack {
        title: t.to_string(),
        artist: a.to_string(),
        cover: "c".to_string(),
        accent: "#000000".to_string(),
        uri: "u".to_string(),
    }
}

fn titles(v: &[RecentTrack]) -> Vec<&str> {
    v.iter().map(|t| t.title.as_str()).collect()
}

#[test]
fn history_is_newest_first_without_duplicates() {
    let mut r = Vec::new();
    push_recent(&mut r, track("a", "x"), HISTORY_LIMIT);
    push_recent(&mut r, track("b", "x"), HISTORY_LIMIT);
    push_recent(&mut r, track("a", "x"), HISTORY_LIMIT);
    assert_eq!(titles(&r), vec!["a", "b"]);
    push_recent(&mut r, track("a", "y"), HISTORY_LIMIT);
    assert_eq!(titles(&r), vec!["a", "a", "b"]);
}

#[test]
fn history_keeps_at_most_the_limit() {
    let mut r = Vec::new();
    for i in 0..20 {
        push_recent(&mut r, track(&i.to_string(), "x"), HISTORY_LIMIT);
    }
    assert_eq!(r.len(), HISTORY_LIMIT);
    assert_eq!(r[0].title, "19");
    assert_eq!(r[11].title, "8");
}

#[test]
fn promotion_needs_cover_uri_and_a_new_track() {
    let cur = Some(key("a", "x"));
    assert!(should_promote("/c.png", "spotify:track:1", &None, &cur));
    assert!(!should_promote("", "spotify:track:1", &None, &cur));
    assert!(!should_promote("/c.png", "", &None, &cur));
    assert!(!should_promote("/c.png", "spotify:track:1", &cur, &cur));
    assert!(should_promote("/c.png", "spotify:track:1", &Some(key("b", "x")), &cur));
    assert!(!should_promote("/c.png", "spotify:track:1", &Some(key("b", "x")), &None));
    assert!(!should_promote("/c.png", "spotify:track:1", &None, &None));
}

const SPOTIFY_ID: &str = "/com/spotify/track/";

#[test]
fn panel_resets_on_a_new_track_and_drops_stale_replies() {
    let mut p = Panel::new();
    let f = p.on_track("Song", "Band", "", Some((1, 2, 3)));
    assert!(f.changed);
    assert_eq!(f.kind, LyricsKind::Missing);
    assert_eq!(f.accent, "#010203");
    assert_eq!(f.cover, "");
    assert!(!p.on_lyrics(&key("Old", "Band"), LyricsKind::Synced));
    assert!(p.on_lyrics(&key("Song", "Band"), LyricsKind::Plain));
    assert!(p.on_art(&key("Song", "Band"), "#aabbcc".to_string(), "/c.png".to_string()));
    let f = p.on_track("Song", "Band", "", Some((1, 2, 3)));
    assert!(!f.changed);
    assert_eq!(f.kind, LyricsKind::Plain);
    assert_eq!(f.accent, "#aabbcc");
    assert_eq!(f.cover, "/c.png");
    // No Spotify URI: nothing goes into the history.
    assert!(p.recent().is_empty());
    let f = p.on_track("Next", "Band", "", None);
    assert!(f.changed);
    assert_eq!(f.kind, LyricsKind::Missing);
    assert_eq!(f.accent, "#89b4fa");
    assert_eq!(f.cover, "");
}

#[test]
fn panel_history_stays_distinct_bounded_and_newest_first() {
    let mut p = Panel::new();
    for i in 0..15 {
        let title = format!("t{}", i % 14);
        let id = format!("{SPOTIFY_ID}{i}");
        p.on_track(&title, "x", &id, None);
        assert!(p.on_art(&key(&title, "x"), "#000000".to_string(), format!("/c{i}.png")));
        p.on_track(&title, "x", &id, None);
        assert_eq!(p.recent()[0].title, title);
        assert_eq!(p.recent()[0].uri, format!("spotify:track:{i}"));
        assert_eq!(p.recent()[0].cover, format!("/c{i}.png"));
    }
    let r = p.recent();
    assert_eq!(r.len(), HISTORY_LIMIT);
    for (i, a) in r.iter().enumerate() {
        assert!(!a.cover.is_empty() && a.uri.starts_with("spotify:track:"));
        for b in &r[i + 1..] {
            assert!(!(a.title == b.title && a.artist == b.artist));
        }
    }
    assert_eq!(titles(r)[..3], ["t0", "t13", "t12"]);
}

#[test]
fn an_idle_panel_shows_nothing_and_keeps_its_history() {
    let mut p = Panel::new();
    p.on_track("Song", "Band", "/com/spotify/track/1", None);
    p.on_art(&key("Song", "Band"), "#123456".to_string(), "/c.png".to_string());
    p.on_track("Song", "Band", "/com/spotify/track/1", None);
    assert_eq!(p.recent().len(), 1);
    let f = p.on_idle();
    assert!(!f.changed);
    assert_eq!(f.kind, LyricsKind::Missing);
    assert_eq!(f.accent, "#89b4fa");
    assert_eq!(f.cover, "");
    assert!(!p.on_lyrics(&key("Song", "Band"), LyricsKind::Synced));
    // The same track again is fetched anew but not promoted twice.
    let f = p.on_track("Song", "Band", "/com/spotify/track/1", None);
    assert!(f.changed);
    p.on_art(&key("Song", "Band"), "#123456".to_string(), "/c.png".to_string());
    p.on_track("Song", "Band", "/com/spotify/track/1", None);
    assert_eq!(p.recent().len(), 1);
    assert_eq!(LyricsKind::Synced.name(), "synced");
    assert_eq!(LyricsKind::Missing.name(), "none");
}

#[test]
fn panel_does_not_retry_a_failed_lookup() {
    let mut p = Panel::new();
    let f = p.on_track("X", "Band", "", None);
    assert!(f.changed && f.fetch);
    assert!(p.on_lyrics(&key("X", "Band"), LyricsKind::Missing));
    let f = p.on_track("Y", "Band", "", None);
    assert!(f.changed && f.fetch);
    assert!(p.on_lyrics(&key("Y", "Band"), LyricsKind::Synced));
    let f = p.on_track("X", "Band", "", None);
    assert!(f.changed);
    assert!(!f.fetch);
    assert_eq!(f.kind, LyricsKind::Missing);
    let f = p.on_track("Y", "Band", "", None);
    assert!(f.changed && f.fetch);
    assert_eq!(f.kind, LyricsKind::Missing);
}

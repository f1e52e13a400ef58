use lyrics::daemon::{
    accent_index, color_to_hex, fnv, hex6_is_safe, histogram_hex, histogram_hex_is_safe, parse_hex6, plain_lines, resolve_art, rgb_hex,
    spotify_uri_from_trackid, state_path, ArtSource,
};

#[test]
fn state_goes_to_tmp() {
    assert_eq!(state_path(), "/tmp/lyrics.json");
}

#[test]
fn spotify_uri_is_built_from_track_ids() {
    assert_eq!(spotify_uri_from_trackid("/com/spotify/track/4uLU6hMCjMI75M1A2tKUQC"), "spotify:track:4uLU6hMCjMI75M1A2tKUQC");
    assert_eq!(spotify_uri_from_trackid("/org/mpris/MediaPlayer2/Track/1"), "");
    assert_eq!(spotify_uri_from_trackid(""), "");
}

#[test]
fn fnv_matches_known_values() {
    assert_eq!(fnv(b""), 1469598103934665603);
    assert_eq!(fnv(b"a"), 0x44bd8ad473cd9906);
    assert_eq!(fnv(b"foobar"), 0x88fad7c0a8ff07f2);
}

#[test]
fn colours_are_written_as_lower_case_hex() {
    assert_eq!(rgb_hex(0x1e, 0x1e, 0x2e), "#1e1e2e");
    assert_eq!(rgb_hex(255, 0, 10), "#ff000a");
    assert_eq!(color_to_hex(Some((137, 180, 250))), "#89b4fa");
    assert_eq!(color_to_hex(None), "#89b4fa");
    assert_eq!(color_to_hex(Some((0, 0, 0))), "#000000");
}

#[test]
fn parse_hex6_reads_six_digit_colours() {
    assert_eq!(parse_hex6("1e1E2e"), Some((0x1e, 0x1e, 0x2e)));
    assert_eq!(parse_hex6("ffffff"), Some((255, 255, 255)));
    assert_eq!(parse_hex6("+f+f+f"), Some((15, 15, 15)));
    assert_eq!(parse_hex6("fffff"), None);
    assert_eq!(parse_hex6("gg0000"), None);
    assert_eq!(parse_hex6("-10000"), None);
}

#[test]
fn hex6_safety_matches_where_slicing_would_panic() {
    assert!(hex6_is_safe("1e1e2e"));
    assert!(hex6_is_safe("éééé"));
    // "a" then a 3-byte char then 2 bytes: byte 2 is inside the character.
    assert!(!hex6_is_safe("a€bc"));
    // "zz" fails to parse before byte 4 (inside '€') is reached.
    assert!(hex6_is_safe("zz€a"));
    assert!(!hex6_is_safe("ff€a"));
}

#[test]
fn art_sources_follow_the_url_scheme() {
    assert!(matches!(resolve_art(""), ArtSource::Nothing));
    assert!(matches!(resolve_art("file:///tmp/a.png"), ArtSource::Local(ref p) if p == "/tmp/a.png"));
    assert!(matches!(resolve_art("/tmp/b.jpg"), ArtSource::Local(ref p) if p == "/tmp/b.jpg"));
    match resolve_art("https://i.scdn.co/image/ab67") {
        ArtSource::Download { url, file } => {
            assert_eq!(url, "https://i.scdn.co/image/ab67");
            assert_eq!(file, format!("/tmp/lyrics-art/{:x}.img", fnv(b"https://i.scdn.co/image/ab67")));
        }
        _ => panic!("expected a download"),
    }
}

#[test]
fn plain_lines_drop_blank_lines() {
    assert_eq!(plain_lines("one\n\n  \r\ntwo \r\nthree"), vec!["one", "two ", "three"]);
    assert!(plain_lines("").is_empty());
}

#[test]
fn histogram_lines_give_their_hex_colour() {
    let line = "      1234: ( 30, 30, 46) #1E1E2E srgb(30,30,46)";
    assert!(histogram_hex_is_safe(line));
    assert_eq!(histogram_hex(line), "1E1E2E");
    assert_eq!(histogram_hex("no colour here"), "");
    assert_eq!(histogram_hex("a #12#34"), "12");
    assert_eq!(histogram_hex("#abcdefgh"), "abcdef");
    assert!(!histogram_hex_is_safe("#abcde\u{e9}"));
    assert!(histogram_hex_is_safe("#abcd\u{e9}"));
    assert_eq!(histogram_hex("#abcd\u{e9}x"), "abcd\u{e9}");
}

#[test]
fn accent_index_hashes_title_zero_artist() {
    assert_eq!(fnv(b"Song\0Band"), 15140224445286151621);
    assert_eq!(accent_index("Song", "Band", 12), 1);
    assert_eq!(accent_index("Song", "Band", 7), 4);
    assert_eq!(accent_index("Song", "Band", 1), 0);
}

#[test]
fn written_colours_read_back() {
    for (r, g, b) in [(0u8, 0u8, 0u8), (137, 180, 250), (255, 255, 255), (10, 171, 205)] {
        let text = rgb_hex(r, g, b);
        assert!(hex6_is_safe(&text[1..]));
        assert_eq!(parse_hex6(&text[1..]), Some((r, g, b)));
        let upper = format!("{r:02X}{g:02X}{b:02X}");
        assert!(hex6_is_safe(&upper));
        assert_eq!(parse_hex6(&upper), Some((r, g, b)));
    }
    assert_eq!(parse_hex6("89b4fa"), Some((137, 180, 250)));
}

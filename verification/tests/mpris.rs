use lyrics::mpris::pick_player;

fn names(v: &[&str]) -> Vec<String> {
    v.iter().map(|s| s.to_string()).collect()
}

#[test]
fn spotify_is_preferred() {
    let n = names(&["org.freedesktop.DBus", "org.mpris.MediaPlayer2.vlc", "org.mpris.MediaPlayer2.spotify", ":1.5"]);
    assert_eq!(pick_player(n).as_deref(), Some("org.mpris.MediaPlayer2.spotify"));
}

#[test]
fn otherwise_the_first_player_is_taken() {
    let n = names(&["org.gnome.Shell", "org.mpris.MediaPlayer2.mpv", "org.mpris.MediaPlayer2.vlc"]);
    assert_eq!(pick_player(n).as_deref(), Some("org.mpris.MediaPlayer2.mpv"));
}

#[test]
fn spotify_outside_mpris_does_not_count() {
    let n = names(&["com.spotify.Client", "org.mpris.MediaPlayer2.vlc"]);
    assert_eq!(pick_player(n).as_deref(), Some("org.mpris.MediaPlayer2.vlc"));
}

#[test]
fn no_player_is_none() {
    assert_eq!(pick_player(names(&["org.freedesktop.DBus"])), None);
    assert_eq!(pick_player(Vec::new()), None);
}

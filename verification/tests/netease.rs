use lyrics::netease::{fetch_lrc, NeteaseReply, NeteaseSong, NeteaseStep};

fn song(id: i64, name: &str, artists: &[&str]) -> NeteaseSong {
    NeteaseSong { id, name: name.to_string(), artists: artists.iter().map(|a| a.to_string()).collect() }
}

fn pairs(v: &[(String, String)]) -> Vec<(&str, &str)> {
    v.iter().map(|(a, b)| (a.as_str(), b.as_str())).collect()
}

#[test]
fn fetch_lrc_starts_with_a_search() {
    match fetch_lrc("Kukushka", "Kino", NeteaseReply::Start) {
        NeteaseStep::Search { url, params } => {
            assert_eq!(url, "https://music.163.com/api/search/get");
            assert_eq!(pairs(&params), vec![("s", "Kukushka Kino"), ("type", "1"), ("limit", "10")]);
        }
        _ => panic!("expected a search"),
    }
}

#[test]
fn fetch_lrc_prefers_an_artist_match() {
    let songs = vec![
        song(1, "Kukushka", &["Someone Else"]),
        song(2, "Other", &["KINO"]),
        song(3, "Kukushka", &["Kino", "Viktor Tsoi"]),
    ];
    match fetch_lrc("Kukushka", "Kino", NeteaseReply::Songs(Some(songs))) {
        NeteaseStep::GetLyric { url, params } => {
            assert_eq!(url, "https://music.163.com/api/song/lyric");
            assert_eq!(pairs(&params), vec![("id", "3"), ("lv", "1"), ("kv", "1"), ("tv", "-1")]);
        }
        _ => panic!("expected a lyric request"),
    }
}

#[test]
fn fetch_lrc_breaks_ties_by_search_order() {
    let songs = vec![song(-7, "A", &["Kino"]), song(8, "B", &["Kino"])];
    match fetch_lrc("Zzz", "Kino", NeteaseReply::Songs(Some(songs))) {
        NeteaseStep::GetLyric { params, .. } => assert_eq!(params[0].1, "-7"),
        _ => panic!("expected a lyric request"),
    }
}

#[test]
fn fetch_lrc_without_result_or_songs_is_done() {
    assert!(matches!(fetch_lrc("a", "b", NeteaseReply::Songs(None)), NeteaseStep::Done(None)));
    assert!(matches!(fetch_lrc("a", "b", NeteaseReply::Songs(Some(Vec::new()))), NeteaseStep::Done(None)));
}

#[test]
fn fetch_lrc_returns_non_blank_lyrics() {
    match fetch_lrc("a", "b", NeteaseReply::Lyric(Some("[00:01.00]hi".to_string()))) {
        NeteaseStep::Done(Some(l)) => assert_eq!(l, "[00:01.00]hi"),
        _ => panic!("expected lyrics"),
    }
    assert!(matches!(fetch_lrc("a", "b", NeteaseReply::Lyric(Some("  \n ".to_string()))), NeteaseStep::Done(None)));
    assert!(matches!(fetch_lrc("a", "b", NeteaseReply::Lyric(None)), NeteaseStep::Done(None)));
}

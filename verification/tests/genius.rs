use lyrics::genius::{
    decode_entities, extract_lyrics, fetch, page_is_safe, strip_html, strip_is_safe, GeniusHit,
    GeniusReply, GeniusStep,
};

#[test]
fn strip_html_drops_tags_and_breaks_lines() {
    let out = strip_html("Hello<br/>world <i>again</i><BR>end");
    assert_eq!(out, "Hello\nworld again\nend");
}

#[test]
fn strip_html_decodes_entities() {
    let out = strip_html("Rock &amp; roll &quot;now&quot; &#x27;x&#39; &lt;3&gt;&nbsp;!");
    assert_eq!(out, "Rock & roll \"now\" 'x' <3> !");
}

#[test]
fn decode_entities_runs_the_replacements_in_order() {
    // "&amp;lt;" first becomes "&lt;", which the later step turns into "<".
    assert_eq!(decode_entities("&amp;lt;"), "<");
    assert_eq!(decode_entities("no entities"), "no entities");
}

#[test]
fn strip_html_without_closing_bracket_drops_the_rest() {
    assert_eq!(strip_html("a<b"), "a");
}

#[test]
fn strip_safety_detects_a_cut_inside_a_character() {
    // The four bytes after '<' end inside 'é': slicing there would panic.
    assert!(!strip_is_safe("<i>é"));
    assert!(strip_is_safe("<i>ab"));
    assert!(strip_is_safe("é<br>"));
}

const PAGE: &str = "<html><div data-lyrics-container=\"true\" class=\"x\">First line<br>Second &amp; more</div>\
<p>ad</p><div data-lyrics-container=\"true\">Third</div></html>";

#[test]
fn extract_lyrics_joins_every_block() {
    assert!(page_is_safe(PAGE));
    assert_eq!(
        extract_lyrics(PAGE).as_deref(),
        Some("First line\nSecond & more\nThird")
    );
}

#[test]
fn extract_lyrics_without_blocks_is_none() {
    assert_eq!(extract_lyrics("<html>nothing</html>"), None);
}

#[test]
fn extract_lyrics_with_a_cut_block_is_none() {
    let page = "<div data-lyrics-container=\"true\">no end";
    assert_eq!(extract_lyrics(page), None);
}

#[test]
fn extract_lyrics_with_blank_blocks_is_none() {
    let page = "<div data-lyrics-container=\"true\">  <br> </div>";
    assert_eq!(extract_lyrics(page), None);
}

#[test]
fn fetch_starts_with_a_search() {
    match fetch("Song", "Band", GeniusReply::Start) {
        GeniusStep::Search { url, query } => {
            assert_eq!(url, "https://genius.com/api/search/song");
            assert_eq!(query, "Song Band");
        }
        _ => panic!("expected a search"),
    }
}

fn hit(url: &str, names: Option<&str>) -> GeniusHit {
    GeniusHit { url: url.to_string(), artist_names: names.map(|s| s.to_string()) }
}

#[test]
fn fetch_picks_the_hit_sharing_most_artist_words() {
    let hits = vec![
        hit("a", Some("Other")),
        hit("b", Some("The Band feat. Someone")),
        hit("c", Some("Band")),
    ];
    match fetch("Song", "the band", GeniusReply::Hits(hits)) {
        GeniusStep::GetPage { url } => assert_eq!(url, "b"),
        _ => panic!("expected a page"),
    }
}

#[test]
fn fetch_breaks_ties_with_the_last_hit() {
    let hits = vec![hit("a", None), hit("b", Some("x")), hit("c", None)];
    match fetch("Song", "Band", GeniusReply::Hits(hits)) {
        GeniusStep::GetPage { url } => assert_eq!(url, "c"),
        _ => panic!("expected a page"),
    }
}

#[test]
fn fetch_without_hits_is_done() {
    assert!(matches!(fetch("S", "B", GeniusReply::Hits(Vec::new())), GeniusStep::Done(None)));
}

#[test]
fn fetch_scrapes_the_page() {
    match fetch("S", "B", GeniusReply::Page(PAGE.to_string())) {
        GeniusStep::Done(Some(l)) => assert_eq!(l, "First line\nSecond & more\nThird"),
        _ => panic!("expected lyrics"),
    }
}

#[test]
fn text_without_tags_is_only_decoded() {
    for s in ["plain words\nsecond line", "Tom &amp; Jerry &gt; 3", "", "semi; colon & more"] {
        assert_eq!(strip_html(s), decode_entities(s));
    }
    assert_eq!(strip_html("plain words\nsecond line"), "plain words\nsecond line");
}

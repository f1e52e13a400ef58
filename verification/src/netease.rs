//! Netease Music: synced lyrics with a huge Russian and Asian catalog.
use vstd::prelude::*;

use crate::fmt::{decimal, decimal_exec};
use crate::pick::{first_max, first_max_exec, ints, lemma_first_max};
use crate::text::{
    chars_of, contains, count_found, count_found_exec, is_blank, join, lemma_count_found, pair, pairs_view, string_of, trim,
    views, words, words_exec,
};
use crate::unicode::{lowercase, to_lowercase};

verus! {

/// One song of a Netease search result.
pub struct NeteaseSong {
    pub id: i64,
    pub name: String,
    pub artists: Vec<String>,
}

/// The lower-cased artist names of a song, joined by single spaces.
pub open spec fn artists_lower(song: NeteaseSong) -> Seq<char> {
    join(song.artists@.map_values(|a: String| lowercase(a@)), " "@)
}

/// A song's score: 2 when a word of the wanted artist occurs in its
/// artists, plus 1 when a word of the wanted title occurs in its name, all
/// compared lower-cased.
pub open spec fn song_score(title: Seq<char>, artist: Seq<char>, song: NeteaseSong) -> nat {
    let artist_hit = count_found(words(lowercase(artist)), artists_lower(song)) > 0;
    let title_hit = count_found(words(lowercase(title)), lowercase(song.name@)) > 0;
    (if artist_hit {
        2nat
    } else {
        0nat
    }) + (if title_hit {
        1nat
    } else {
        0nat
    })
}

/// The song whose lyrics are fetched: the best score, the earliest in
/// Netease's own ranking among equals.
pub open spec fn best_song(title: Seq<char>, artist: Seq<char>, songs: Seq<NeteaseSong>) -> Option<
    int,
> {
    first_max(Seq::new(songs.len(), |i: int| song_score(title, artist, songs[i]) as int))
}

/// Artist substring match beats title-only: a song whose artists match
/// scores higher than any song whose artists do not.
pub proof fn lemma_artist_match_wins(title: Seq<char>, artist: Seq<char>, a: NeteaseSong, b: NeteaseSong)
    requires
        count_found(words(lowercase(artist)), artists_lower(a)) > 0,
        count_found(words(lowercase(artist)), artists_lower(b)) == 0,
    ensures
        song_score(title, artist, a) > song_score(title, artist, b),
{
}

/// A song's score compares words case-insensitively: 2 when some word of
/// the lower-cased wanted artist occurs in the song's lower-cased artists,
/// plus 1 when some word of the lower-cased wanted title occurs in the
/// song's lower-cased name.
pub proof fn lemma_song_score_words(title: Seq<char>, artist: Seq<char>, song: NeteaseSong)
    ensures
        song_score(title, artist, song) == (if exists|i: int|
            0 <= i < words(lowercase(artist)).len() && contains(
                artists_lower(song),
                #[trigger] words(lowercase(artist))[i],
            ) {
            2int
        } else {
            0int
        }) + (if exists|i: int|
            0 <= i < words(lowercase(title)).len() && contains(
                lowercase(song.name@),
                #[trigger] words(lowercase(title))[i],
            ) {
            1int
        } else {
            0int
        }),
{
    lemma_count_found(words(lowercase(artist)), artists_lower(song));
    lemma_count_found(words(lowercase(title)), lowercase(song.name@));
}

/// The song taken scores highest, and every song before it in Netease's
/// ranking scores lower; with no songs none is taken.
pub proof fn lemma_best_song(title: Seq<char>, artist: Seq<char>, songs: Seq<NeteaseSong>)
    ensures
        match best_song(title, artist, songs) {
            None => songs.len() == 0,
            Some(i) => 0 <= i < songs.len() && (forall|j: int|
                0 <= j < songs.len() ==> song_score(title, artist, #[trigger] songs[j])
                    <= song_score(title, artist, songs[i])) && (forall|j: int|
                0 <= j < i ==> song_score(title, artist, #[trigger] songs[j]) < song_score(
                    title,
                    artist,
                    songs[i],
                )),
        },
{
    let sc = Seq::new(songs.len(), |i: int| song_score(title, artist, songs[i]) as int);
    lemma_first_max(sc);
    if let Some(i) = best_song(title, artist, songs) {
        assert forall|j: int| 0 <= j < songs.len() implies song_score(title, artist, #[trigger] songs[j])
            <= song_score(title, artist, songs[i]) by {
            assert(sc[j] <= sc[i]);
        }
        assert forall|j: int| 0 <= j < i implies song_score(title, artist, #[trigger] songs[j])
            < song_score(title, artist, songs[i]) by {
            assert(sc[j] < sc[i]);
        }
    }
}

/// What the Netease lookup has heard back so far.
pub enum NeteaseReply {
    /// Nothing yet: the lookup starts.
    Start,
    /// The search result: its song list, or `None` when it has no result.
    Songs(Option<Vec<NeteaseSong>>),
    /// The `lrc.lyric` field of the lyric reply, if the reply has one.
    Lyric(Option<String>),
}

/// What the Netease lookup asks for next.
pub enum NeteaseStep {
    /// Query the search endpoint `url` with these parameters, as JSON.
    Search { url: String, params: Vec<(String, String)> },
    /// Query the lyric endpoint `url` with these parameters, as JSON.
    GetLyric { url: String, params: Vec<(String, String)> },
    /// The lookup is over, with this LRC text or none.
    Done(Option<String>),
}

/// The Netease search endpoint.
pub open spec fn search_url() -> Seq<char> {
    "https://music.163.com/api/search/get"@
}

/// The Netease lyric endpoint.
pub open spec fn lyric_url() -> Seq<char> {
    "https://music.163.com/api/song/lyric"@
}

/// The search parameters for a title and an artist.
pub open spec fn search_params(title: Seq<char>, artist: Seq<char>) -> Seq<(Seq<char>, Seq<char>)> {
    seq![("s"@, title + " "@ + artist), ("type"@, "1"@), ("limit"@, "10"@)]
}

/// The lyric parameters for a song id.
pub open spec fn lyric_params(id: i64) -> Seq<(Seq<char>, Seq<char>)> {
    seq![("id"@, decimal(id as int)), ("lv"@, "1"@), ("kv"@, "1"@), ("tv"@, "-1"@)]
}

/// The lower-cased artist names of a song, joined by single spaces.
fn artists_lower_exec(song: &NeteaseSong) -> (v: Vec<char>)
    ensures
        v@ == artists_lower(*song),
{
    let ghost parts = song.artists@.map_values(|a: String| lowercase(a@));
    let mut v: Vec<char> = Vec::new();
    let mut i: usize = 0;
    while i < song.artists.len()
        invariant
            i <= song.artists@.len(),
            parts == song.artists@.map_values(|a: String| lowercase(a@)),
            v@ == join(parts.take(i as int), " "@),
        decreases song.artists.len() - i,
    {
        proof {
            reveal_strlit(" ");
        }
        let lower = to_lowercase(song.artists[i].as_str());
        let cs = chars_of(lower.as_str());
        if i > 0 {
            v.push(' ');
        }
        let mut k: usize = 0;
        let ghost mid = v@;
        while k < cs.len()
            invariant
                k <= cs@.len(),
                v@ == mid + cs@.take(k as int),
            decreases cs.len() - k,
        {
            v.push(cs[k]);
            assert(cs@.take(k + 1) =~= cs@.take(k as int).push(cs@[k as int]));
            k = k + 1;
        }
        assert(cs@.take(cs@.len() as int) =~= cs@);
        assert(parts.take(i + 1).drop_last() =~= parts.take(i as int));
        assert(v@ =~= join(parts.take(i + 1), " "@));
        i = i + 1;
    }
    assert(parts.take(song.artists@.len() as int) =~= parts);
    v
}

/// Searches Netease for `title artist` and returns the synced LRC string of
/// the best-matching result, if any. Match scoring: artist substring match
/// beats title-only; ties broken by search order (Netease's own ranking).
///
/// One call decides one step: from `Start` it asks for the search; from the
/// search result it asks for the lyrics of the best song, or gives up when
/// there is no result or no song; from the lyric reply it answers with the
/// LRC text unless that is blank.
pub fn fetch_lrc(title: &str, artist: &str, reply: NeteaseReply) -> (step: NeteaseStep)
    ensures
        match reply {
            NeteaseReply::Start => step matches NeteaseStep::Search { url, params } && url@
                == search_url() && pairs_view(params@) == search_params(title@, artist@),
            NeteaseReply::Songs(None) => step matches NeteaseStep::Done(None),
            NeteaseReply::Songs(Some(songs)) => match best_song(title@, artist@, songs@) {
                None => step matches NeteaseStep::Done(None),
                Some(i) => step matches NeteaseStep::GetLyric { url, params } && url@
                    == lyric_url() && pairs_view(params@) == lyric_params(songs@[i].id),
            },
            NeteaseReply::Lyric(lrc) => {
                let text = match lrc {
                    Some(l) => l@,
                    None => Seq::empty(),
                };
                if trim(text).len() == 0 {
                    step matches NeteaseStep::Done(None)
                } else {
                    step matches NeteaseStep::Done(Some(l)) && l@ == text
                }
            },
        },
{
    match reply {
        NeteaseReply::Start => {
            let mut query = string_of(&chars_of(title));
            query.append(" ");
            query.append(artist);
            let mut params: Vec<(String, String)> = Vec::new();
            let q = pair("s", "");
            params.push((q.0, query));
            params.push(pair("type", "1"));
            params.push(pair("limit", "10"));
            assert(pairs_view(params@) =~= search_params(title@, artist@));
            NeteaseStep::Search { url: string_of(&chars_of("https://music.163.com/api/search/get")), params }
        },
        NeteaseReply::Songs(None) => NeteaseStep::Done(None),
        NeteaseReply::Songs(Some(songs)) => {
            let artist_words = words_exec(&chars_of(to_lowercase(artist).as_str()));
            let title_words = words_exec(&chars_of(to_lowercase(title).as_str()));
            let mut scores: Vec<u64> = Vec::new();
            let mut i: usize = 0;
            while i < songs.len()
                invariant
                    i <= songs@.len(),
                    views(artist_words@) == words(lowercase(artist@)),
                    views(title_words@) == words(lowercase(title@)),
                    scores@.len() == i,
                    forall|j: int| 0 <= j < i ==> #[trigger] scores@[j] as int == song_score(title@, artist@, songs@[j]),
                decreases songs.len() - i,
            {
                let artists_l = artists_lower_exec(&songs[i]);
                let name_l = chars_of(to_lowercase(songs[i].name.as_str()).as_str());
                let artist_hit = count_found_exec(&artist_words, &artists_l) > 0;
                let title_hit = count_found_exec(&title_words, &name_l) > 0;
                let score: u64 = (if artist_hit { 2 } else { 0 }) + (if title_hit { 1 } else { 0 });
                scores.push(score);
                i = i + 1;
            }
            assert(ints(scores@) =~= Seq::new(songs@.len(), |j: int| song_score(title@, artist@, songs@[j]) as int));
            match first_max_exec(&scores) {
                None => NeteaseStep::Done(None),
                Some(b) => {
                    let mut params: Vec<(String, String)> = Vec::new();
                    let id = pair("id", "");
                    params.push((id.0, string_of(&decimal_exec(songs[b].id))));
                    params.push(pair("lv", "1"));
                    params.push(pair("kv", "1"));
                    params.push(pair("tv", "-1"));
                    assert(pairs_view(params@) =~= lyric_params(songs@[b as int].id));
                    NeteaseStep::GetLyric {
                        url: string_of(&chars_of("https://music.163.com/api/song/lyric")),
                        params,
                    }
                },
            }
        },
        NeteaseReply::Lyric(lrc) => {
            let text = match lrc {
                Some(l) => l,
                None => String::new(),
            };
            if is_blank(&chars_of(text.as_str())) {
                NeteaseStep::Done(None)
            } else {
                NeteaseStep::Done(Some(text))
            }
        },
    }
}

} // verus!

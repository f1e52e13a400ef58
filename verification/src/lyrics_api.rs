//! The lyrics lookup: the local cache first, then lrclib (synced), Netease
//! (synced), lrclib (plain), lyrics.ovh and Genius, in that order, until one
//! of them has lyrics. Synced sources win over plain ones.
//!
//! The lookup is a state machine: `Lookup::advance` takes what the last
//! request brought back and says what to do next, so the caller performs
//! the file and network work and nothing here waits on it.
use vstd::prelude::*;

use crate::fmt::{decimal, decimal_exec};
use crate::lrc::{lrc_entries, scan_lrc};
use crate::text::{
    chars_of, is_blank, pair, pairs_view, starts_with, starts_with_exec, string_of, trim,
};
use crate::unicode::{alphanumeric, ascii_lower, is_alphanumeric, to_ascii_lowercase};

verus! {

/// A character of a cache file name: letters and digits, ASCII ones
/// lower-cased, and `_` for everything else.
pub open spec fn safe_char(c: char) -> char {
    if alphanumeric(c) {
        ascii_lower(c)
    } else {
        '_'
    }
}

/// A title or artist made safe for a file name.
pub open spec fn safe_name(s: Seq<char>) -> Seq<char> {
    s.map_values(|c: char| safe_char(c))
}

/// Where the lyrics of a song are cached, under the home directory `home`.
pub open spec fn cache_file(home: Seq<char>, title: Seq<char>, artist: Seq<char>) -> Seq<char> {
    home + "/.cache/lyrics/"@ + safe_name(artist) + "__"@ + safe_name(title) + ".lrc"@
}

/// The cache file of a song is `home`, then `/.cache/lyrics/`, then the
/// artist, `__`, the title and `.lrc`, where each character of artist and
/// title is kept when it is alphanumeric (lower-cased when it is an ASCII
/// capital) and becomes `_` otherwise: so names differing in a letter or
/// digit that stays as it is get different files.
pub proof fn lemma_cache_file_layout(home: Seq<char>, title: Seq<char>, artist: Seq<char>)
    ensures
        ({
            let p = cache_file(home, title, artist);
            let dir: int = home.len() as int + 15;
            let sep: int = dir + artist.len();
            let name: int = sep + 2;
            let ext: int = name + title.len();
            &&& p.len() == ext + 4
            &&& p.take(dir) == home + "/.cache/lyrics/"@
            &&& p.subrange(sep, name) == "__"@
            &&& p.skip(ext) == ".lrc"@
            &&& forall|i: int|
                0 <= i < artist.len() ==> #[trigger] p[dir + i] == if alphanumeric(artist[i]) {
                    if 'A' <= artist[i] <= 'Z' {
                        ((artist[i] as u32) + 32) as char
                    } else {
                        artist[i]
                    }
                } else {
                    '_'
                }
            &&& forall|i: int|
                0 <= i < title.len() ==> #[trigger] p[name + i] == if alphanumeric(title[i]) {
                    if 'A' <= title[i] <= 'Z' {
                        ((title[i] as u32) + 32) as char
                    } else {
                        title[i]
                    }
                } else {
                    '_'
                }
        }),
{
    reveal_strlit("/.cache/lyrics/");
    reveal_strlit("__");
    reveal_strlit(".lrc");
    let p = cache_file(home, title, artist);
    let dir: int = home.len() as int + 15;
    let sep: int = dir + artist.len();
    let name: int = sep + 2;
    let ext: int = name + title.len();
    assert(p.take(dir) =~= home + "/.cache/lyrics/"@);
    assert(p.subrange(sep, name) =~= "__"@);
    assert(p.skip(ext) =~= ".lrc"@);
    assert forall|i: int| 0 <= i < artist.len() implies #[trigger] p[dir + i] == safe_char(artist[i]) by {
        assert(p[dir + i] == safe_name(artist)[i]);
    }
    assert forall|i: int| 0 <= i < title.len() implies #[trigger] p[name + i] == safe_char(title[i]) by {
        assert(p[name + i] == safe_name(title)[i]);
    }
}

fn safe_name_exec(s: &str) -> (r: Vec<char>)
    ensures
        r@ == safe_name(s@),
{
    let cs = chars_of(s);
    let mut r: Vec<char> = Vec::new();
    let mut i: usize = 0;
    while i < cs.len()
        invariant
            i <= cs@.len(),
            cs@ == s@,
            r@ == safe_name(cs@.take(i as int)),
        decreases cs.len() - i,
    {
        let c = cs[i];
        let d = if is_alphanumeric(c) {
            to_ascii_lowercase(c)
        } else {
            '_'
        };
        r.push(d);
        assert(safe_name(cs@.take(i + 1)) =~= safe_name(cs@.take(i as int)).push(d));
        i = i + 1;
    }
    assert(cs@.take(cs@.len() as int) =~= cs@);
    r
}

/// The cache file of a song: `{home}/.cache/lyrics/{artist}__{title}.lrc`,
/// with both names made safe for a file name.
pub fn cache_path(home: &str, title: &str, artist: &str) -> (p: String)
    ensures
        p@ == cache_file(home@, title@, artist@),
{
    let mut p = string_of(&chars_of(home));
    p.append("/.cache/lyrics/");
    p.append(string_of(&safe_name_exec(artist)).as_str());
    p.append("__");
    p.append(string_of(&safe_name_exec(title)).as_str());
    p.append(".lrc");
    p
}

/// Lyrics as the lookup finds them. Synced lyrics are kept as their LRC
/// text.
pub enum Found {
    Synced(String),
    Plain(String),
    NotFound,
}

/// The view of found lyrics.
pub enum FoundView {
    Synced(Seq<char>),
    Plain(Seq<char>),
    NotFound,
}

/// The view of found lyrics.
pub open spec fn found_view(f: Found) -> FoundView {
    match f {
        Found::Synced(s) => FoundView::Synced(s@),
        Found::Plain(s) => FoundView::Plain(s@),
        Found::NotFound => FoundView::NotFound,
    }
}

/// The header of a cache file that holds plain lyrics.
pub open spec fn plain_header() -> Seq<char> {
    "PLAIN\n"@
}

/// What a cache file holds: plain lyrics after a `PLAIN` header line unless
/// they are blank, else synced lyrics when the text has a time-stamped line.
pub open spec fn cached_lyrics(raw: Seq<char>) -> Option<FoundView> {
    if starts_with(raw, plain_header()) {
        let plain = raw.skip(plain_header().len() as int);
        if trim(plain).len() == 0 {
            None
        } else {
            Some(FoundView::Plain(plain))
        }
    } else if lrc_entries(raw).len() > 0 {
        Some(FoundView::Synced(raw))
    } else {
        None
    }
}

/// Reads the lyrics a cache file holds, if any.
pub fn load_cached(raw: &str) -> (r: Option<Found>)
    ensures
        match r {
            Some(f) => cached_lyrics(raw@) == Some(found_view(f)),
            None => cached_lyrics(raw@) is None,
        },
{
    proof {
        reveal_strlit("PLAIN\n");
    }
    let cs = chars_of(raw);
    let header = chars_of("PLAIN\n");
    if starts_with_exec(&cs, &header) {
        let mut plain: Vec<char> = Vec::new();
        let mut i: usize = header.len();
        while i < cs.len()
            invariant
                header@.len() <= i <= cs@.len(),
                plain@ == cs@.subrange(header@.len() as int, i as int),
            decreases cs.len() - i,
        {
            plain.push(cs[i]);
            assert(cs@.subrange(header@.len() as int, i + 1) =~= cs@.subrange(
                header@.len() as int,
                i as int,
            ).push(cs@[i as int]));
            i = i + 1;
        }
        assert(plain@ =~= raw@.skip(plain_header().len() as int));
        if is_blank(&plain) {
            None
        } else {
            Some(Found::Plain(string_of(&plain)))
        }
    } else if scan_lrc(raw).len() > 0 {
        Some(Found::Synced(string_of(&cs)))
    } else {
        None
    }
}

/// What is written to the cache for found lyrics: synced ones as their LRC
/// text, plain ones after a `PLAIN` header line.
pub open spec fn cache_body(f: FoundView) -> Option<Seq<char>> {
    match f {
        FoundView::Synced(s) => Some(s),
        FoundView::Plain(t) => Some(plain_header() + t),
        FoundView::NotFound => None,
    }
}

/// Plain lyrics that are not blank.
pub open spec fn usable_plain(t: Option<Seq<char>>) -> bool {
    t matches Some(p) && trim(p).len() > 0
}

/// LRC text that has a time-stamped line.
pub open spec fn usable_synced(t: Option<Seq<char>>) -> bool {
    t matches Some(s) && lrc_entries(s).len() > 0
}

/// The answer of the whole lookup, from what each source has: the cache
/// when it holds lyrics; then the first synced source with lines (lrclib,
/// Netease); then the first plain source (lrclib, lyrics.ovh, Genius);
/// else nothing.
pub open spec fn resolve(
    cache: Option<Seq<char>>,
    lrclib_synced: Option<Seq<char>>,
    lrclib_plain: Option<Seq<char>>,
    netease: Option<Seq<char>>,
    ovh: Option<Seq<char>>,
    genius: Option<Seq<char>>,
) -> FoundView {
    match cache {
        Some(raw) if cached_lyrics(raw) is Some => cached_lyrics(raw)->0,
        _ => if usable_synced(lrclib_synced) {
            FoundView::Synced(lrclib_synced->0)
        } else if usable_synced(netease) {
            FoundView::Synced(netease->0)
        } else if usable_plain(lrclib_plain) {
            FoundView::Plain(lrclib_plain->0)
        } else if ovh is Some {
            FoundView::Plain(ovh->0)
        } else if genius is Some {
            FoundView::Plain(genius->0)
        } else {
            FoundView::NotFound
        },
    }
}

/// Synced sources win over plain ones: when the cache misses and lrclib or
/// Netease has LRC text with a time-stamped line, the answer is synced,
/// whatever the plain sources hold.
pub proof fn lemma_synced_wins(
    cache: Option<Seq<char>>,
    lrclib_synced: Option<Seq<char>>,
    lrclib_plain: Option<Seq<char>>,
    netease: Option<Seq<char>>,
    ovh: Option<Seq<char>>,
    genius: Option<Seq<char>>,
)
    requires
        !(cache matches Some(raw) && cached_lyrics(raw) is Some),
        usable_synced(lrclib_synced) || usable_synced(netease),
    ensures
        resolve(cache, lrclib_synced, lrclib_plain, netease, ovh, genius) is Synced,
{
}

/// The sources are asked in their order: when the cache misses, lrclib's
/// synced lyrics win over Netease's; without synced lyrics, lrclib's plain
/// lyrics win over lyrics.ovh's, and those over Genius's; nothing found
/// only when no source has anything usable.
pub proof fn lemma_source_order(
    cache: Option<Seq<char>>,
    lrclib_synced: Option<Seq<char>>,
    lrclib_plain: Option<Seq<char>>,
    netease: Option<Seq<char>>,
    ovh: Option<Seq<char>>,
    genius: Option<Seq<char>>,
)
    requires
        !(cache matches Some(raw) && cached_lyrics(raw) is Some),
    ensures
        ({
            let f = resolve(cache, lrclib_synced, lrclib_plain, netease, ovh, genius);
            let no_synced = !usable_synced(lrclib_synced) && !usable_synced(netease);
            &&& usable_synced(lrclib_synced) ==> f == FoundView::Synced(lrclib_synced->0)
            &&& !usable_synced(lrclib_synced) && usable_synced(netease) ==> f == FoundView::Synced(
                netease->0,
            )
            &&& no_synced && usable_plain(lrclib_plain) ==> f == FoundView::Plain(lrclib_plain->0)
            &&& no_synced && !usable_plain(lrclib_plain) && ovh is Some ==> f == FoundView::Plain(
                ovh->0,
            )
            &&& no_synced && !usable_plain(lrclib_plain) && ovh is None && genius is Some ==> f
                == FoundView::Plain(genius->0)
            &&& (f is NotFound) == (no_synced && !usable_plain(lrclib_plain) && ovh is None
                && genius is None)
        }),
{
}

/// A cached answer stands: when the cache holds lyrics, they are the answer,
/// whatever the network sources hold.
pub proof fn lemma_cache_first(
    cache: Option<Seq<char>>,
    lrclib_synced: Option<Seq<char>>,
    lrclib_plain: Option<Seq<char>>,
    netease: Option<Seq<char>>,
    ovh: Option<Seq<char>>,
    genius: Option<Seq<char>>,
)
    requires
        cache matches Some(raw) && cached_lyrics(raw) is Some,
    ensures
        resolve(cache, lrclib_synced, lrclib_plain, netease, ovh, genius) == cached_lyrics(
            cache->0,
        )->0,
{
}

/// Where a lookup stands.
#[derive(Clone, Copy, PartialEq, Eq, Structural)]
pub enum Stage {
    Begin,
    Cache,
    LrcLib,
    Netease,
    Ovh,
    Genius,
    Done,
}

/// What lrclib has for a song.
pub struct LrcLibLyrics {
    pub synced: Option<String>,
    pub plain: Option<String>,
}

/// What the last request of a lookup brought back.
pub enum LookupReply {
    /// Nothing yet: the lookup starts.
    Start,
    /// The cache file's text, or `None` when it cannot be read.
    Cache(Option<String>),
    /// The lrclib request itself failed (no answer came); the lookup goes
    /// on with the next source, as after an empty answer.
    LrcLibFailed,
    /// lrclib's lyrics, or `None` when it answered with an error status or
    /// an unreadable body.
    LrcLib(Option<LrcLibLyrics>),
    /// The Netease LRC text, or `None` when it has none or failed.
    Netease(Option<String>),
    /// lyrics.ovh's plain lyrics, or `None` when it has none or failed.
    Ovh(Option<String>),
    /// Genius's plain lyrics, or `None` when it has none or failed.
    Genius(Option<String>),
}

/// What a lookup asks for next.
pub enum LookupStep {
    /// Read the cache file at `path`.
    ReadCache { path: String },
    /// Query lrclib's `url` with these parameters.
    AskLrcLib { url: String, params: Vec<(String, String)> },
    /// Run the Netease lookup.
    AskNetease,
    /// Run the lyrics.ovh lookup.
    AskOvh,
    /// Run the Genius lookup.
    AskGenius,
    /// The lookup is over with `lyrics`; when `save` is given, write its
    /// text to the file it names.
    Finish { lyrics: Found, save: Option<(String, String)> },
    /// The lookup was handed a reply it was not waiting for, and stops.
    Fail,
}

/// The view of a reply.
pub enum ReplyView {
    Start,
    Cache(Option<Seq<char>>),
    LrcLibFailed,
    LrcLib(Option<(Option<Seq<char>>, Option<Seq<char>>)>),
    Netease(Option<Seq<char>>),
    Ovh(Option<Seq<char>>),
    Genius(Option<Seq<char>>),
}

/// The view of a step.
pub enum StepView {
    ReadCache(Seq<char>),
    AskLrcLib(Seq<char>, Seq<(Seq<char>, Seq<char>)>),
    AskNetease,
    AskOvh,
    AskGenius,
    Finish(FoundView, Option<(Seq<char>, Seq<char>)>),
    Fail,
}

/// The view of an optional string.
pub open spec fn opt_view(o: Option<String>) -> Option<Seq<char>> {
    match o {
        Some(s) => Some(s@),
        None => None,
    }
}

/// The view of a reply.
pub open spec fn reply_view(r: LookupReply) -> ReplyView {
    match r {
        LookupReply::Start => ReplyView::Start,
        LookupReply::Cache(c) => ReplyView::Cache(opt_view(c)),
        LookupReply::LrcLibFailed => ReplyView::LrcLibFailed,
        LookupReply::LrcLib(None) => ReplyView::LrcLib(None),
        LookupReply::LrcLib(Some(l)) => ReplyView::LrcLib(Some((opt_view(l.synced), opt_view(l.plain)))),
        LookupReply::Netease(t) => ReplyView::Netease(opt_view(t)),
        LookupReply::Ovh(t) => ReplyView::Ovh(opt_view(t)),
        LookupReply::Genius(t) => ReplyView::Genius(opt_view(t)),
    }
}

/// The view of a step.
pub open spec fn step_view(s: LookupStep) -> StepView {
    match s {
        LookupStep::ReadCache { path } => StepView::ReadCache(path@),
        LookupStep::AskLrcLib { url, params } => StepView::AskLrcLib(url@, pairs_view(params@)),
        LookupStep::AskNetease => StepView::AskNetease,
        LookupStep::AskOvh => StepView::AskOvh,
        LookupStep::AskGenius => StepView::AskGenius,
        LookupStep::Finish { lyrics, save } => StepView::Finish(
            found_view(lyrics),
            match save {
                Some(p) => Some((p.0@, p.1@)),
                None => None,
            },
        ),
        LookupStep::Fail => StepView::Fail,
    }
}

/// A lookup in progress for one song.
pub struct Lookup {
    home: String,
    title: String,
    artist: String,
    album: String,
    duration: Option<i64>,
    stage: Stage,
    plain: Option<String>,
}

/// The view of a lookup: the song, where the lookup stands, and the plain
/// lyrics lrclib offered, kept in case no synced source has lines.
pub struct LookupView {
    pub home: Seq<char>,
    pub title: Seq<char>,
    pub artist: Seq<char>,
    pub album: Seq<char>,
    pub duration: Option<i64>,
    pub stage: Stage,
    pub plain: Option<Seq<char>>,
}

impl View for Lookup {
    type V = LookupView;

    closed spec fn view(&self) -> LookupView {
        LookupView {
            home: self.home@,
            title: self.title@,
            artist: self.artist@,
            album: self.album@,
            duration: self.duration,
            stage: self.stage,
            plain: opt_view(self.plain),
        }
    }
}

/// The lrclib endpoint.
pub open spec fn lrclib_url() -> Seq<char> {
    "https://lrclib.net/api/get"@
}

/// The lrclib query for a song: its track, artist and album names, and its
/// length in whole seconds when known.
pub open spec fn lrclib_params(v: LookupView) -> Seq<(Seq<char>, Seq<char>)> {
    let base = seq![
        ("track_name"@, v.title),
        ("artist_name"@, v.artist),
        ("album_name"@, v.album),
    ];
    match v.duration {
        Some(d) => base.push(("duration"@, decimal(d as int))),
        None => base,
    }
}

/// Finishing with `f`, saved to the song's cache file.
pub open spec fn finish_saved(v: LookupView, f: FoundView) -> StepView {
    StepView::Finish(f, Some((cache_file(v.home, v.title, v.artist), cache_body(f)->0)))
}

/// The same lookup at another stage.
pub open spec fn at(v: LookupView, stage: Stage) -> LookupView {
    LookupView { stage, ..v }
}

/// One move of the lookup: where it goes and what it asks for, given where
/// it stands and what came back. A reply the stage does not wait for ends
/// the lookup with a failure.
pub open spec fn next(v: LookupView, r: ReplyView) -> (LookupView, StepView) {
    match (v.stage, r) {
        (Stage::Begin, ReplyView::Start) => (
            at(v, Stage::Cache),
            StepView::ReadCache(cache_file(v.home, v.title, v.artist)),
        ),
        (Stage::Cache, ReplyView::Cache(raw)) => match raw {
            Some(t) if cached_lyrics(t) is Some => (
                at(v, Stage::Done),
                StepView::Finish(cached_lyrics(t)->0, None),
            ),
            _ => (at(v, Stage::LrcLib), StepView::AskLrcLib(lrclib_url(), lrclib_params(v))),
        },
        (Stage::LrcLib, ReplyView::LrcLibFailed) => (
            LookupView { stage: Stage::Netease, plain: None, ..v },
            StepView::AskNetease,
        ),
        (Stage::LrcLib, ReplyView::LrcLib(l)) => {
            let synced = match l {
                Some(p) => p.0,
                None => None,
            };
            let plain = match l {
                Some(p) => p.1,
                None => None,
            };
            if usable_synced(synced) {
                (at(v, Stage::Done), finish_saved(v, FoundView::Synced(synced->0)))
            } else {
                (LookupView { stage: Stage::Netease, plain, ..v }, StepView::AskNetease)
            }
        },
        (Stage::Netease, ReplyView::Netease(t)) => if usable_synced(t) {
            (at(v, Stage::Done), finish_saved(v, FoundView::Synced(t->0)))
        } else if usable_plain(v.plain) {
            (at(v, Stage::Done), finish_saved(v, FoundView::Plain(v.plain->0)))
        } else {
            (at(v, Stage::Ovh), StepView::AskOvh)
        },
        (Stage::Ovh, ReplyView::Ovh(t)) => match t {
            Some(p) => (at(v, Stage::Done), finish_saved(v, FoundView::Plain(p))),
            None => (at(v, Stage::Genius), StepView::AskGenius),
        },
        (Stage::Genius, ReplyView::Genius(t)) => match t {
            Some(p) => (at(v, Stage::Done), finish_saved(v, FoundView::Plain(p))),
            None => (at(v, Stage::Done), StepView::Finish(FoundView::NotFound, None)),
        },
        _ => (at(v, Stage::Done), StepView::Fail),
    }
}

/// The step a lookup ends with when it is fed `replies` one after the
/// other: the first `Finish` or `Fail`, or `None` when the replies run out
/// first.
pub open spec fn run_lookup(v: LookupView, replies: Seq<ReplyView>) -> Option<StepView>
    decreases replies.len(),
{
    if replies.len() == 0 {
        None
    } else {
        let (w, s) = next(v, replies[0]);
        if s is Finish || s is Fail {
            Some(s)
        } else {
            run_lookup(w, replies.drop_first())
        }
    }
}

/// The replies each source gives, in the order the lookup asks them.
pub open spec fn all_replies(
    cache: Option<Seq<char>>,
    lrclib: Option<(Option<Seq<char>>, Option<Seq<char>>)>,
    netease: Option<Seq<char>>,
    ovh: Option<Seq<char>>,
    genius: Option<Seq<char>>,
) -> Seq<ReplyView> {
    seq![
        ReplyView::Start,
        ReplyView::Cache(cache),
        ReplyView::LrcLib(lrclib),
        ReplyView::Netease(netease),
        ReplyView::Ovh(ovh),
        ReplyView::Genius(genius),
    ]
}

/// Tries each source in order until one returns lyrics: a lookup fed what
/// every source has ends with `resolve`'s answer, and saves it to the cache
/// unless the cache itself gave it or nothing was found.
pub proof fn lemma_lookup_resolves(
    v: LookupView,
    cache: Option<Seq<char>>,
    lrclib: Option<(Option<Seq<char>>, Option<Seq<char>>)>,
    netease: Option<Seq<char>>,
    ovh: Option<Seq<char>>,
    genius: Option<Seq<char>>,
)
    requires
        v.stage == Stage::Begin,
    ensures
        ({
            let synced = match lrclib {
                Some(p) => p.0,
                None => None,
            };
            let plain = match lrclib {
                Some(p) => p.1,
                None => None,
            };
            let f = resolve(cache, synced, plain, netease, ovh, genius);
            let from_cache = cache matches Some(raw) && cached_lyrics(raw) is Some;
            run_lookup(v, all_replies(cache, lrclib, netease, ovh, genius)) == Some(
                StepView::Finish(
                    f,
                    if from_cache || f is NotFound {
                        None
                    } else {
                        Some((cache_file(v.home, v.title, v.artist), cache_body(f)->0))
                    },
                ),
            )
        }),
{
    let rs = all_replies(cache, lrclib, netease, ovh, genius);
    assert(rs.drop_first() =~= seq![rs[1], rs[2], rs[3], rs[4], rs[5]]);
    assert(rs.drop_first().drop_first() =~= seq![rs[2], rs[3], rs[4], rs[5]]);
    assert(rs.drop_first().drop_first().drop_first() =~= seq![rs[3], rs[4], rs[5]]);
    assert(rs.drop_first().drop_first().drop_first().drop_first() =~= seq![rs[4], rs[5]]);
    assert(rs.drop_first().drop_first().drop_first().drop_first().drop_first() =~= seq![rs[5]]);
    reveal_with_fuel(run_lookup, 7);
}

/// A failed lrclib request counts as an empty answer: the lookup moves on
/// to Netease exactly as when lrclib has nothing for the song.
pub proof fn lemma_lrclib_failure_falls_back(v: LookupView)
    requires
        v.stage == Stage::LrcLib,
    ensures
        next(v, ReplyView::LrcLibFailed) == next(v, ReplyView::LrcLib(None)),
        next(v, ReplyView::LrcLibFailed).1 == StepView::AskNetease,
{
}

/// Over a whole lookup, a failed lrclib request leads to the same end as
/// lrclib having nothing: the other sources are still asked in order.
pub proof fn lemma_lookup_survives_lrclib_failure(
    v: LookupView,
    cache: Option<Seq<char>>,
    netease: Option<Seq<char>>,
    ovh: Option<Seq<char>>,
    genius: Option<Seq<char>>,
)
    requires
        v.stage == Stage::Begin,
    ensures
        run_lookup(v, all_replies(cache, None, netease, ovh, genius).update(2, ReplyView::LrcLibFailed))
            == run_lookup(v, all_replies(cache, None, netease, ovh, genius)),
{
    let rs = all_replies(cache, None, netease, ovh, genius);
    let fs = rs.update(2, ReplyView::LrcLibFailed);
    assert(rs.drop_first() =~= seq![rs[1], rs[2], rs[3], rs[4], rs[5]]);
    assert(rs.drop_first().drop_first() =~= seq![rs[2], rs[3], rs[4], rs[5]]);
    assert(rs.drop_first().drop_first().drop_first() =~= seq![rs[3], rs[4], rs[5]]);
    assert(rs.drop_first().drop_first().drop_first().drop_first() =~= seq![rs[4], rs[5]]);
    assert(rs.drop_first().drop_first().drop_first().drop_first().drop_first() =~= seq![rs[5]]);
    assert(fs.drop_first() =~= seq![fs[1], fs[2], fs[3], fs[4], fs[5]]);
    assert(fs.drop_first().drop_first() =~= seq![fs[2], fs[3], fs[4], fs[5]]);
    assert(fs.drop_first().drop_first().drop_first() =~= seq![fs[3], fs[4], fs[5]]);
    assert(fs.drop_first().drop_first().drop_first().drop_first() =~= seq![fs[4], fs[5]]);
    assert(fs.drop_first().drop_first().drop_first().drop_first().drop_first() =~= seq![fs[5]]);
    reveal_with_fuel(run_lookup, 7);
}

/// Found lyrics that the cache file gives back as they were: plain lyrics
/// that are not blank, and LRC text with a time-stamped line that does not
/// itself start with the plain header.
pub open spec fn round_trips(f: FoundView) -> bool {
    match f {
        FoundView::Synced(t) => lrc_entries(t).len() > 0 && !starts_with(t, plain_header()),
        FoundView::Plain(t) => trim(t).len() > 0,
        FoundView::NotFound => false,
    }
}

/// Reading back what was saved for such lyrics gives the same lyrics.
pub proof fn lemma_cache_round_trip(f: FoundView)
    requires
        round_trips(f),
    ensures
        cached_lyrics(cache_body(f)->0) == Some(f),
{
    reveal_strlit("PLAIN\n");
    if let FoundView::Plain(t) = f {
        let body = plain_header() + t;
        assert(body.take(plain_header().len() as int) =~= plain_header());
        assert(body.skip(plain_header().len() as int) =~= t);
    }
}

/// What a step saves, if anything: the found lyrics' cache body, in the
/// song's cache file; synced lyrics it saves have a time-stamped line.
pub open spec fn saves_well(v: LookupView, s: StepView) -> bool {
    s matches StepView::Finish(f, Some(save)) ==> {
        &&& save == (cache_file(v.home, v.title, v.artist), cache_body(f)->0)
        &&& !(f is NotFound)
        &&& f matches FoundView::Synced(t) ==> lrc_entries(t).len() > 0
    }
}

proof fn lemma_next_saves_well(v: LookupView, r: ReplyView)
    ensures
        saves_well(v, next(v, r).1),
        next(v, r).0.home == v.home,
        next(v, r).0.title == v.title,
        next(v, r).0.artist == v.artist,
{
}

proof fn lemma_run_saves_well(v: LookupView, replies: Seq<ReplyView>)
    ensures
        run_lookup(v, replies) matches Some(s) ==> saves_well(v, s),
    decreases replies.len(),
{
    if replies.len() > 0 {
        lemma_next_saves_well(v, replies[0]);
        let (w, s) = next(v, replies[0]);
        if !(s is Finish || s is Fail) {
            lemma_run_saves_well(w, replies.drop_first());
        }
    }
}

/// What a lookup saves comes back: a later lookup of the same song, whose
/// cache read gives the saved text, finishes with the same lyrics without
/// asking any source (unless the lyrics are blank plain text or LRC text
/// that starts with the plain header).
pub proof fn lemma_saved_lyrics_come_back(
    v: LookupView,
    replies: Seq<ReplyView>,
    f: FoundView,
    save: (Seq<char>, Seq<char>),
    later: LookupView,
)
    requires
        v.stage == Stage::Begin,
        run_lookup(v, replies) == Some(StepView::Finish(f, Some(save))),
        !(f matches FoundView::Plain(t) && trim(t).len() == 0),
        !(f matches FoundView::Synced(t) && starts_with(t, plain_header())),
        later.stage == Stage::Begin,
        later.home == v.home,
        later.title == v.title,
        later.artist == v.artist,
    ensures
        save.0 == cache_file(later.home, later.title, later.artist),
        run_lookup(later, seq![ReplyView::Start, ReplyView::Cache(Some(save.1))]) == Some(
            StepView::Finish(f, None),
        ),
{
    lemma_run_saves_well(v, replies);
    lemma_cache_round_trip(f);
    lemma_cache_hit_asks_nothing(later, save.1);
}

/// A lookup that finds lyrics in the cache asks no source at all: the
/// reply to its cache read already finishes it.
pub proof fn lemma_cache_hit_asks_nothing(v: LookupView, raw: Seq<char>)
    requires
        v.stage == Stage::Begin,
        cached_lyrics(raw) is Some,
    ensures
        run_lookup(v, seq![ReplyView::Start, ReplyView::Cache(Some(raw))]) == Some(
            StepView::Finish(cached_lyrics(raw)->0, None),
        ),
{
    let rs = seq![ReplyView::Start, ReplyView::Cache(Some(raw))];
    assert(rs.drop_first() =~= seq![rs[1]]);
    assert(rs.drop_first().drop_first() =~= Seq::<ReplyView>::empty());
    reveal_with_fuel(run_lookup, 3);
}

impl Lookup {
    /// A lookup for a song, with the home directory that holds the cache and
    /// the song's length in whole seconds when known.
    pub fn new(home: &str, title: &str, artist: &str, album: &str, duration: Option<i64>) -> (l:
        Lookup)
        ensures
            l@ == (LookupView {
                home: home@,
                title: title@,
                artist: artist@,
                album: album@,
                duration,
                stage: Stage::Begin,
                plain: None,
            }),
    {
        Lookup {
            home: string_of(&chars_of(home)),
            title: string_of(&chars_of(title)),
            artist: string_of(&chars_of(artist)),
            album: string_of(&chars_of(album)),
            duration,
            stage: Stage::Begin,
            plain: None,
        }
    }

    /// Where the lookup stands.
    pub fn stage(&self) -> (s: Stage)
        ensures
            s == self@.stage,
    {
        self.stage
    }

    fn finish(&self, f: Found) -> (step: LookupStep)
        requires
            !(found_view(f) is NotFound),
        ensures
            step_view(step) == finish_saved(self@, found_view(f)),
    {
        proof {
            reveal_strlit("PLAIN\n");
        }
        let path = cache_path(self.home.as_str(), self.title.as_str(), self.artist.as_str());
        let body = match &f {
            Found::Synced(s) => s.clone(),
            Found::Plain(t) => {
                let mut b = string_of(&chars_of("PLAIN\n"));
                b.append(t.as_str());
                b
            },
            Found::NotFound => String::new(),
        };
        LookupStep::Finish { lyrics: f, save: Some((path, body)) }
    }

    fn lrclib_query(&self) -> (params: Vec<(String, String)>)
        ensures
            pairs_view(params@) == lrclib_params(self@),
    {
        let mut params: Vec<(String, String)> = Vec::new();
        let t = pair("track_name", "");
        params.push((t.0, self.title.clone()));
        let a = pair("artist_name", "");
        params.push((a.0, self.artist.clone()));
        let b = pair("album_name", "");
        params.push((b.0, self.album.clone()));
        let ghost base = pairs_view(params@);
        match self.duration {
            Some(d) => {
                let k = pair("duration", "");
                params.push((k.0, string_of(&decimal_exec(d))));
                assert(pairs_view(params@) =~= base.push(("duration"@, decimal(d as int))));
            },
            None => {},
        }
        assert(pairs_view(params@) =~= lrclib_params(self@));
        params
    }

    /// Takes what the last request brought back and says what to do next.
    pub fn advance(&mut self, reply: LookupReply) -> (step: LookupStep)
        ensures
            (final(self)@, step_view(step)) == next(old(self)@, reply_view(reply)),
    {
        let expected = match (&self.stage, &reply) {
            (Stage::Begin, LookupReply::Start) => true,
            (Stage::Cache, LookupReply::Cache(_)) => true,
            (Stage::LrcLib, LookupReply::LrcLibFailed) => true,
            (Stage::LrcLib, LookupReply::LrcLib(_)) => true,
            (Stage::Netease, LookupReply::Netease(_)) => true,
            (Stage::Ovh, LookupReply::Ovh(_)) => true,
            (Stage::Genius, LookupReply::Genius(_)) => true,
            _ => false,
        };
        if !expected {
            self.stage = Stage::Done;
            return LookupStep::Fail;
        }
        match reply {
            LookupReply::Start => {
                self.stage = Stage::Cache;
                LookupStep::ReadCache {
                    path: cache_path(self.home.as_str(), self.title.as_str(), self.artist.as_str()),
                }
            },
            LookupReply::Cache(raw) => {
                let cached = match &raw {
                    Some(t) => load_cached(t.as_str()),
                    None => None,
                };
                match cached {
                    Some(f) => {
                        self.stage = Stage::Done;
                        LookupStep::Finish { lyrics: f, save: None }
                    },
                    None => {
                        self.stage = Stage::LrcLib;
                        LookupStep::AskLrcLib {
                            url: string_of(&chars_of("https://lrclib.net/api/get")),
                            params: self.lrclib_query(),
                        }
                    },
                }
            },
            LookupReply::LrcLibFailed => {
                self.stage = Stage::Netease;
                self.plain = None;
                LookupStep::AskNetease
            },
            LookupReply::LrcLib(l) => {
                let (synced, plain) = match l {
                    Some(p) => (p.synced, p.plain),
                    None => (None, None),
                };
                let lines = match &synced {
                    Some(s) => scan_lrc(s.as_str()).len(),
                    None => 0,
                };
                if lines > 0 {
                    self.stage = Stage::Done;
                    match synced {
                        Some(s) => self.finish(Found::Synced(s)),
                        None => LookupStep::Fail,
                    }
                } else {
                    self.stage = Stage::Netease;
                    self.plain = plain;
                    LookupStep::AskNetease
                }
            },
            LookupReply::Netease(t) => {
                let lines = match &t {
                    Some(s) => scan_lrc(s.as_str()).len(),
                    None => 0,
                };
                let plain_ok = match &self.plain {
                    Some(p) => !is_blank(&chars_of(p.as_str())),
                    None => false,
                };
                if lines > 0 {
                    self.stage = Stage::Done;
                    match t {
                        Some(s) => self.finish(Found::Synced(s)),
                        None => LookupStep::Fail,
                    }
                } else if plain_ok {
                    self.stage = Stage::Done;
                    match &self.plain {
                        Some(p) => self.finish(Found::Plain(p.clone())),
                        None => LookupStep::Fail,
                    }
                } else {
                    self.stage = Stage::Ovh;
                    LookupStep::AskOvh
                }
            },
            LookupReply::Ovh(t) => match t {
                Some(p) => {
                    self.stage = Stage::Done;
                    self.finish(Found::Plain(p))
                },
                None => {
                    self.stage = Stage::Genius;
                    LookupStep::AskGenius
                },
            },
            LookupReply::Genius(t) => {
                self.stage = Stage::Done;
                match t {
                    Some(p) => self.finish(Found::Plain(p)),
                    None => LookupStep::Finish { lyrics: Found::NotFound, save: None },
                }
            },
        }
    }
}

} // verus!

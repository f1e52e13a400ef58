//! The state the display loops keep between polls: which track is current,
//! so that a reply for an older track is dropped; which tracks' lookups
//! found nothing, so that they are not looked up again in the same run;
//! and the rolling history of recent tracks.
use vstd::prelude::*;

use crate::daemon::{color_to_hex, default_accent, rgb_text, spotify_uri, spotify_uri_from_trackid};
use crate::text::{chars_of, starts_with, string_of};

verus! {

/// The (title, artist) pair a track is known by.
pub open spec fn key_view(k: (String, String)) -> (Seq<char>, Seq<char>) {
    (k.0@, k.1@)
}

/// The keys a list of tracks holds.
pub open spec fn key_set(ks: Seq<(String, String)>) -> Set<(Seq<char>, Seq<char>)> {
    Set::new(|k: (Seq<char>, Seq<char>)| exists|i: int| 0 <= i < ks.len() && key_view(ks[i]) == k)
}

/// What a display loop remembers of tracks: the current one, and those
/// whose lyrics lookup ended with nothing found in this run.
pub struct SessionView {
    pub current: Option<(Seq<char>, Seq<char>)>,
    pub failed: Set<(Seq<char>, Seq<char>)>,
}

/// Whether the track `title` by `artist` is another track than `current`.
pub open spec fn is_new_track(current: Option<(Seq<char>, Seq<char>)>, title: Seq<char>, artist: Seq<
    char,
>) -> bool {
    current != Some((title, artist))
}

/// Whether a report of the track `title` by `artist` asks for its lyrics:
/// it is not the current track, and no lookup for it has failed before.
pub open spec fn fetch_needed(s: SessionView, title: Seq<char>, artist: Seq<char>) -> bool {
    is_new_track(s.current, title, artist) && !s.failed.contains((title, artist))
}

/// What a report of the track `title` by `artist` does: it becomes current;
/// the display starts afresh when it is another track; its lyrics are
/// fetched when `fetch_needed` says so.
pub open spec fn observed(s: SessionView, title: Seq<char>, artist: Seq<char>) -> (
    SessionView,
    bool,
    bool,
) {
    (
        SessionView { current: Some((title, artist)), ..s },
        is_new_track(s.current, title, artist),
        fetch_needed(s, title, artist),
    )
}

/// Whether a reply made for the track `key` is taken while `current` is
/// the current track.
pub open spec fn accepts(current: Option<(Seq<char>, Seq<char>)>, key: (Seq<char>, Seq<char>)) -> bool {
    current == Some(key)
}

/// What the end of the lookup for the track `key` does: a lookup that found
/// nothing marks the track as failed; the reply is taken when the track is
/// still current.
pub open spec fn finished(s: SessionView, key: (Seq<char>, Seq<char>), found: bool) -> (
    SessionView,
    bool,
) {
    (
        if found {
            s
        } else {
            SessionView { failed: s.failed.insert(key), ..s }
        },
        accepts(s.current, key),
    )
}

/// The track the display is showing, if any, and the tracks whose lookup
/// found nothing.
pub struct Session {
    current: Option<(String, String)>,
    failed: Vec<(String, String)>,
}

impl View for Session {
    type V = SessionView;

    closed spec fn view(&self) -> SessionView {
        SessionView {
            current: match self.current {
                Some(k) => Some(key_view(k)),
                None => None,
            },
            failed: key_set(self.failed@),
        }
    }
}

/// What a report of a track asks of the display loop.
#[derive(Clone, Copy, Debug, PartialEq, Eq, Structural)]
pub struct TrackChange {
    /// Another track than before: what is shown of the old one is dropped.
    pub changed: bool,
    /// Its lyrics must be looked up.
    pub fetch: bool,
}

impl Session {
    /// No track yet, and no failed lookup.
    pub fn new() -> (s: Session)
        ensures
            s@ == (SessionView { current: None, failed: Set::empty() }),
    {
        let s = Session { current: None, failed: Vec::new() };
        assert(key_set(s.failed@) =~= Set::empty());
        s
    }

    fn has_failed(&self, title: &String, artist: &String) -> (b: bool)
        ensures
            b == self@.failed.contains((title@, artist@)),
    {
        let mut i: usize = 0;
        while i < self.failed.len()
            invariant
                i <= self.failed@.len(),
                forall|j: int| 0 <= j < i ==> key_view(#[trigger] self.failed@[j]) != (title@, artist@),
            decreases self.failed.len() - i,
        {
            if self.failed[i].0 == *title && self.failed[i].1 == *artist {
                assert(key_view(self.failed@[i as int]) == (title@, artist@));
                return true;
            }
            i = i + 1;
        }
        false
    }

    /// The player reports the track `title` by `artist`: it becomes the
    /// current one. Says whether it is another track than before, and
    /// whether its lyrics must be fetched: a track whose lookup found
    /// nothing is not looked up again in this run.
    pub fn observe(&mut self, title: &str, artist: &str) -> (c: TrackChange)
        ensures
            (final(self)@, c.changed, c.fetch) == observed(old(self)@, title@, artist@),
    {
        let t = string_of(&chars_of(title));
        let a = string_of(&chars_of(artist));
        let same = match &self.current {
            Some(k) => k.0 == t && k.1 == a,
            None => false,
        };
        let failed = self.has_failed(&t, &a);
        if !same {
            self.current = Some((t, a));
        }
        TrackChange { changed: !same, fetch: !same && !failed }
    }

    /// The lookup for the track `key` ended; `found` says whether it found
    /// lyrics. Returns whether its reply is taken, that is, whether `key` is
    /// still the current track.
    pub fn finish(&mut self, key: &(String, String), found: bool) -> (taken: bool)
        ensures
            (final(self)@, taken) == finished(old(self)@, key_view(*key), found),
    {
        let taken = self.is_current(key);
        if !found {
            let ghost before = self.failed@;
            self.failed.push((key.0.clone(), key.1.clone()));
            assert(key_set(self.failed@) =~= key_set(before).insert(key_view(*key))) by {
                assert(key_view(self.failed@[before.len() as int]) == key_view(*key));
                assert forall|k: (Seq<char>, Seq<char>)| key_set(before).contains(k) implies key_set(
                    self.failed@,
                ).contains(k) by {
                    let i = choose|i: int| 0 <= i < before.len() && key_view(before[i]) == k;
                    assert(self.failed@[i] == before[i]);
                }
                assert forall|k: (Seq<char>, Seq<char>)| key_set(self.failed@).contains(k) implies key_set(
                    before,
                ).insert(key_view(*key)).contains(k) by {
                    let i = choose|i: int| 0 <= i < self.failed@.len() && key_view(self.failed@[i]) == k;
                    if i < before.len() {
                        assert(self.failed@[i] == before[i]);
                    }
                }
            }
        }
        taken
    }

    /// No player is running: nothing is current.
    pub fn clear(&mut self)
        ensures
            final(self)@ == (SessionView { current: None, ..old(self)@ }),
    {
        self.current = None;
    }

    /// Whether a reply made for the track `key` still concerns the current
    /// track; replies for any other track are stale and dropped.
    pub fn is_current(&self, key: &(String, String)) -> (b: bool)
        ensures
            b == accepts(self@.current, key_view(*key)),
    {
        match &self.current {
            Some(k) => k.0 == key.0 && k.1 == key.1,
            None => false,
        }
    }
}

/// What happens to a display loop's session.
pub enum SessionEvent {
    /// The player reports the track (title, artist).
    Track(Seq<char>, Seq<char>),
    /// The lookup for a track ended, having found lyrics or not.
    Finished((Seq<char>, Seq<char>), bool),
    /// No player is running.
    Idle,
}

/// The session after one event.
pub open spec fn session_step(s: SessionView, e: SessionEvent) -> SessionView {
    match e {
        SessionEvent::Track(t, a) => observed(s, t, a).0,
        SessionEvent::Finished(k, found) => finished(s, k, found).0,
        SessionEvent::Idle => SessionView { current: None, ..s },
    }
}

/// The track whose lyrics an event asks to fetch, if any.
pub open spec fn fetched(s: SessionView, e: SessionEvent) -> Option<(Seq<char>, Seq<char>)> {
    match e {
        SessionEvent::Track(t, a) => if observed(s, t, a).2 {
            Some((t, a))
        } else {
            None
        },
        _ => None,
    }
}

/// The session after the events `es`, one after the other.
pub open spec fn session_after(s: SessionView, es: Seq<SessionEvent>) -> SessionView
    decreases es.len(),
{
    if es.len() == 0 {
        s
    } else {
        session_step(session_after(s, es.drop_last()), es.last())
    }
}

/// Stale replies are dropped: once the player has reported a track, a
/// reply is taken exactly when it was made for that track, and with no
/// player running no reply is taken at all.
pub proof fn lemma_only_current_replies(
    s: SessionView,
    title: Seq<char>,
    artist: Seq<char>,
    key: (Seq<char>, Seq<char>),
    found: bool,
)
    ensures
        finished(observed(s, title, artist).0, key, found).1 == (key == (title, artist)),
        !finished(session_step(s, SessionEvent::Idle), key, found).1,
{
}

/// A track is fetched at most once while it stays current: reporting it
/// again asks for no fetch, while reporting another track that has not
/// failed does.
pub proof fn lemma_no_refetch(
    s: SessionView,
    title: Seq<char>,
    artist: Seq<char>,
    other: (Seq<char>, Seq<char>),
)
    ensures
        !observed(observed(s, title, artist).0, title, artist).2,
        other != (title, artist) && !s.failed.contains(other) ==> observed(
            observed(s, title, artist).0,
            other.0,
            other.1,
        ).2,
{
}

proof fn lemma_failed_grows(s: SessionView, es: Seq<SessionEvent>, m: int, n: int)
    requires
        0 <= m <= n <= es.len(),
    ensures
        session_after(s, es.take(m)).failed.subset_of(session_after(s, es.take(n)).failed),
    decreases n - m,
{
    if m < n {
        lemma_failed_grows(s, es, m, n - 1);
        assert(es.take(n).drop_last() =~= es.take(n - 1));
    }
}

/// Failed lookups are not retried within the same run: once the lookup for
/// a track has ended with nothing found, no later event, whatever tracks
/// come and go in between, asks to fetch that track again.
pub proof fn lemma_failed_lookup_not_retried(
    s: SessionView,
    es: Seq<SessionEvent>,
    i: int,
    j: int,
    key: (Seq<char>, Seq<char>),
)
    requires
        0 <= i < j < es.len(),
        es[i] == SessionEvent::Finished(key, false),
    ensures
        fetched(session_after(s, es.take(j)), es[j]) != Some(key),
{
    assert(es.take(i + 1).drop_last() =~= es.take(i));
    assert(session_after(s, es.take(i + 1)).failed.contains(key));
    lemma_failed_grows(s, es, i + 1, j);
}

/// One entry of the history of recent tracks.
pub struct RecentTrack {
    pub title: String,
    pub artist: String,
    pub cover: String,
    pub accent: String,
    /// A URI the QML can hand to `playerctl open` to jump back to this track.
    pub uri: String,
}

/// How many tracks the history keeps.
pub const HISTORY_LIMIT: usize = 12;

/// The entry is for the track `title` by `artist`.
pub open spec fn same_track(t: RecentTrack, title: Seq<char>, artist: Seq<char>) -> bool {
    t.title@ == title && t.artist@ == artist
}

/// The history without entries for the track `title` by `artist`.
pub open spec fn without(s: Seq<RecentTrack>, title: Seq<char>, artist: Seq<char>) -> Seq<
    RecentTrack,
>
    decreases s.len(),
{
    if s.len() == 0 {
        Seq::empty()
    } else {
        without(s.drop_last(), title, artist) + if same_track(s.last(), title, artist) {
            Seq::<RecentTrack>::empty()
        } else {
            seq![s.last()]
        }
    }
}

/// The history after `entry` is promoted: it comes first, any older entry
/// for the same track is dropped, and only the newest `limit` are kept.
pub open spec fn promoted(s: Seq<RecentTrack>, entry: RecentTrack, limit: nat) -> Seq<RecentTrack> {
    let all = seq![entry] + without(s, entry.title@, entry.artist@);
    if limit <= all.len() {
        all.take(limit as int)
    } else {
        all
    }
}

/// Puts `entry` at the front of the history, drops older entries for the
/// same track, and keeps the newest `limit`.
pub fn push_recent(recent: &mut Vec<RecentTrack>, entry: RecentTrack, limit: usize)
    ensures
        final(recent)@ == promoted(old(recent)@, entry, limit as nat),
{
    let mut old: Vec<RecentTrack> = Vec::new();
    std::mem::swap(&mut old, recent);
    let ghost start = old@;
    let n = old.len();
    let mut kept: Vec<RecentTrack> = Vec::new();
    let mut i: usize = 0;
    while old.len() > 0
        invariant
            n == start.len(),
            i <= start.len(),
            old@ == start.skip(i as int),
            kept@ == without(start.take(i as int), entry.title@, entry.artist@),
        decreases old.len(),
    {
        let t = old.remove(0);
        assert(start.take(i + 1).drop_last() =~= start.take(i as int));
        assert(t == start[i as int]);
        assert(old@ =~= start.skip(i + 1));
        let same = t.title == entry.title && t.artist == entry.artist;
        if !same {
            kept.push(t);
        } else {
            assert(kept@ + Seq::<RecentTrack>::empty() =~= kept@);
        }
        i = i + 1;
    }
    assert(start.take(i as int) =~= start);
    kept.insert(0, entry);
    kept.truncate(limit);
    *recent = kept;
}

/// No two entries are for the same track.
pub open spec fn distinct_tracks(s: Seq<RecentTrack>) -> bool {
    forall|i: int, j: int|
        #![trigger s[i], s[j]]
        0 <= i < j < s.len() ==> !same_track(s[i], s[j].title@, s[j].artist@)
}

/// Dropping a track's entries keeps only entries from the history, none of
/// them for that track.
pub proof fn lemma_without(s: Seq<RecentTrack>, title: Seq<char>, artist: Seq<char>)
    ensures
        forall|k: int|
            0 <= k < without(s, title, artist).len() ==> !same_track(
                #[trigger] without(s, title, artist)[k],
                title,
                artist,
            ),
        without(s, title, artist).len() <= s.len(),
        distinct_tracks(s) ==> distinct_tracks(without(s, title, artist)),
        forall|k: int|
            0 <= k < without(s, title, artist).len() ==> s.contains(
                #[trigger] without(s, title, artist)[k],
            ),
    decreases s.len(),
{
    if s.len() > 0 {
        let p = s.drop_last();
        lemma_without(p, title, artist);
        let w = without(p, title, artist);
        assert forall|k: int| 0 <= k < w.len() implies s.contains(#[trigger] w[k]) by {
            let m = choose|m: int| 0 <= m < p.len() && p[m] == w[k];
            assert(s[m] == w[k]);
        }
        if distinct_tracks(s) {
            assert(distinct_tracks(p)) by {
                assert forall|i: int, j: int| 0 <= i < j < p.len() implies !same_track(
                    p[i],
                    p[j].title@,
                    p[j].artist@,
                ) by {
                    assert(p[i] == s[i] && p[j] == s[j]);
                }
            }
            if !same_track(s.last(), title, artist) {
                let r = without(s, title, artist);
                assert(r =~= w.push(s.last()));
                assert forall|i: int, j: int| 0 <= i < j < r.len() implies !same_track(
                    r[i],
                    r[j].title@,
                    r[j].artist@,
                ) by {
                    if j == r.len() - 1 {
                        assert(s.contains(w[i]));
                        let m = choose|m: int| 0 <= m < p.len() && p[m] == w[i];
                        assert(s[m] == w[i]);
                        assert(!same_track(s[m], s[s.len() - 1].title@, s[s.len() - 1].artist@));
                    } else {
                        assert(r[i] == w[i] && r[j] == w[j]);
                    }
                }
            } else {
                assert(without(s, title, artist) =~= w);
            }
        }
    }
}

/// The history holds each track once, newest first, and never more than
/// `limit` entries: promoting a track keeps that so, and puts it first.
pub proof fn lemma_history(s: Seq<RecentTrack>, entry: RecentTrack, limit: nat)
    requires
        distinct_tracks(s),
    ensures
        distinct_tracks(promoted(s, entry, limit)),
        promoted(s, entry, limit).len() <= limit,
        limit > 0 ==> promoted(s, entry, limit)[0] == entry,
        forall|k: int|
            0 <= k < promoted(s, entry, limit).len() ==> #[trigger] promoted(s, entry, limit)[k]
                == entry || s.contains(promoted(s, entry, limit)[k]),
{
    lemma_without(s, entry.title@, entry.artist@);
    let w = without(s, entry.title@, entry.artist@);
    let all = seq![entry] + w;
    assert forall|i: int, j: int| 0 <= i < j < all.len() implies !same_track(
        all[i],
        all[j].title@,
        all[j].artist@,
    ) by {
        if i == 0 {
            assert(all[j] == w[j - 1]);
            assert(!same_track(w[j - 1], entry.title@, entry.artist@));
        } else {
            assert(all[i] == w[i - 1] && all[j] == w[j - 1]);
        }
    }
    let p = promoted(s, entry, limit);
    assert forall|i: int, j: int| 0 <= i < j < p.len() implies !same_track(
        p[i],
        p[j].title@,
        p[j].artist@,
    ) by {
        assert(p[i] == all[i] && p[j] == all[j]);
    }
    assert forall|k: int| 0 <= k < p.len() implies #[trigger] p[k] == entry || s.contains(p[k]) by {
        assert(p[k] == all[k]);
        if k > 0 {
            assert(all[k] == w[k - 1]);
        }
    }
}

/// Whether the current track goes into the history now: there is a current
/// track, it has a cover and a click-to-jump URI, and it is not already the
/// newest entry.
pub fn should_promote(
    cover: &str,
    uri: &str,
    last: &Option<(String, String)>,
    current: &Option<(String, String)>,
) -> (b: bool)
    ensures
        b == (cover@.len() > 0 && uri@.len() > 0 && match (last, current) {
            (_, None) => false,
            (Some(l), Some(c)) => key_view(*l) != key_view(*c),
            (None, Some(_)) => true,
        }),
{
    let differs = match (last, current) {
        (_, None) => false,
        (Some(l), Some(c)) => !(l.0 == c.0 && l.1 == c.1),
        (None, Some(_)) => true,
    };
    !cover.is_empty() && !uri.is_empty() && differs
}

/// What the panel shows of the current track's lyrics.
#[derive(Clone, Copy, Debug, PartialEq, Eq, Structural)]
pub enum LyricsKind {
    /// Timed lines.
    Synced,
    /// Untimed lines.
    Plain,
    /// Nothing (yet).
    Missing,
}

impl LyricsKind {
    /// The name the panel's state file gives the kind.
    pub fn name(&self) -> (s: String)
        ensures
            s@ == match *self {
                LyricsKind::Synced => "synced"@,
                LyricsKind::Plain => "plain"@,
                LyricsKind::Missing => "none"@,
            },
    {
        match self {
            LyricsKind::Synced => string_of(&chars_of("synced")),
            LyricsKind::Plain => string_of(&chars_of("plain")),
            LyricsKind::Missing => string_of(&chars_of("none")),
        }
    }
}

/// What the panel daemon keeps between polls: the current track, what has
/// arrived for it so far, and the history of recent tracks.
pub struct Panel {
    session: Session,
    kind: LyricsKind,
    art_accent: Option<String>,
    cover: String,
    recent: Vec<RecentTrack>,
    last_history: Option<(String, String)>,
}

/// A panel's state as plain values.
pub struct PanelView {
    pub current: Option<(Seq<char>, Seq<char>)>,
    pub failed: Set<(Seq<char>, Seq<char>)>,
    pub kind: LyricsKind,
    pub art_accent: Option<Seq<char>>,
    pub cover: Seq<char>,
    pub recent: Seq<RecentTrack>,
    pub last_history: Option<(Seq<char>, Seq<char>)>,
}

impl View for Panel {
    type V = PanelView;

    closed spec fn view(&self) -> PanelView {
        PanelView {
            current: self.session@.current,
            failed: self.session@.failed,
            kind: self.kind,
            art_accent: match self.art_accent {
                Some(a) => Some(a@),
                None => None,
            },
            cover: self.cover@,
            recent: self.recent@,
            last_history: match self.last_history {
                Some(k) => Some(key_view(k)),
                None => None,
            },
        }
    }
}

/// What one poll writes out besides the lines and the history.
pub struct Frame {
    /// The track changed: its cover art must be fetched, and the lines shown
    /// so far dropped.
    pub changed: bool,
    /// Its lyrics must be looked up.
    pub fetch: bool,
    pub kind: LyricsKind,
    pub accent: String,
    pub cover: String,
}

/// The history as the panel keeps it: at most `HISTORY_LIMIT` entries, each
/// track once, each with a cover and a Spotify URI, and the newest entry is
/// the track last promoted.
pub open spec fn panel_ok(v: PanelView) -> bool {
    &&& v.recent.len() <= HISTORY_LIMIT
    &&& distinct_tracks(v.recent)
    &&& forall|k: int|
        0 <= k < v.recent.len() ==> #[trigger] v.recent[k].cover@.len() > 0 && v.recent[k].uri@.len()
            > 0 && starts_with(v.recent[k].uri@, "spotify:track:"@)
    &&& (v.recent.len() > 0) == (v.last_history is Some)
    &&& v.last_history matches Some(k) ==> same_track(v.recent[0], k.0, k.1)
}

/// The session a panel holds.
pub open spec fn panel_session(v: PanelView) -> SessionView {
    SessionView { current: v.current, failed: v.failed }
}

/// The panel after the lyrics for the track `key` arrived: taken only while
/// that track is current. Lyrics of no kind mean the lookup found nothing,
/// and the track is not looked up again.
pub open spec fn lyrics_arrived(v: PanelView, key: (Seq<char>, Seq<char>), kind: LyricsKind) -> PanelView {
    let s = finished(panel_session(v), key, kind != LyricsKind::Missing).0;
    if accepts(v.current, key) {
        PanelView { kind, failed: s.failed, ..v }
    } else {
        PanelView { failed: s.failed, ..v }
    }
}

/// The panel after the cover art for the track `key` arrived: taken only
/// while that track is current.
pub open spec fn art_arrived(
    v: PanelView,
    key: (Seq<char>, Seq<char>),
    accent: Seq<char>,
    cover: Seq<char>,
) -> PanelView {
    if accepts(v.current, key) {
        PanelView { art_accent: Some(accent), cover, ..v }
    } else {
        v
    }
}

/// The panel after the player reported the track `title` by `artist`: a new
/// track starts with no lyrics, no cover and no cover accent.
pub open spec fn track_seen(v: PanelView, title: Seq<char>, artist: Seq<char>) -> PanelView {
    if is_new_track(v.current, title, artist) {
        PanelView {
            current: Some((title, artist)),
            kind: LyricsKind::Missing,
            art_accent: None,
            cover: Seq::empty(),
            ..v
        }
    } else {
        v
    }
}

/// The accent shown: the cover's accent once known, else the palette's
/// colour for the track.
pub open spec fn accent_for(v: PanelView, palette: Option<(u8, u8, u8)>) -> Seq<char> {
    match v.art_accent {
        Some(a) => a,
        None => match palette {
            Some((r, g, b)) => rgb_text(r, g, b),
            None => default_accent(),
        },
    }
}

/// Whether the current track goes into the history with this URI.
pub open spec fn promotes(v: PanelView, uri: Seq<char>) -> bool {
    v.cover.len() > 0 && uri.len() > 0 && v.current is Some && v.last_history != v.current
}

/// The history entry for the track `title` by `artist`.
pub open spec fn entry_is(
    e: RecentTrack,
    title: Seq<char>,
    artist: Seq<char>,
    cover: Seq<char>,
    accent: Seq<char>,
    uri: Seq<char>,
) -> bool {
    e.title@ == title && e.artist@ == artist && e.cover@ == cover && e.accent@ == accent && e.uri@
        == uri
}

/// A Spotify URI, when there is one, starts with `spotify:track:`.
pub proof fn lemma_spotify_uri(trackid: Seq<char>)
    ensures
        spotify_uri(trackid).len() > 0 ==> starts_with(spotify_uri(trackid), "spotify:track:"@),
{
    reveal_strlit("spotify:track:");
    if spotify_uri(trackid).len() > 0 {
        let u = spotify_uri(trackid);
        assert(u.take(14) =~= "spotify:track:"@);
    }
}

/// Promoting an entry with a cover and a Spotify URI keeps the panel's
/// history as `panel_ok` says, and makes the entry the newest one.
pub proof fn lemma_promotion_keeps_history(v: PanelView, entry: RecentTrack)
    requires
        panel_ok(v),
        v.current matches Some(k) && same_track(entry, k.0, k.1),
        entry.cover@.len() > 0,
        entry.uri@.len() > 0,
        starts_with(entry.uri@, "spotify:track:"@),
    ensures
        panel_ok(
            PanelView {
                recent: promoted(v.recent, entry, HISTORY_LIMIT as nat),
                last_history: v.current,
                ..v
            },
        ),
        promoted(v.recent, entry, HISTORY_LIMIT as nat)[0] == entry,
{
    lemma_history(v.recent, entry, HISTORY_LIMIT as nat);
    let p = promoted(v.recent, entry, HISTORY_LIMIT as nat);
    assert forall|k: int| 0 <= k < p.len() implies #[trigger] p[k].cover@.len() > 0 && p[k].uri@.len()
        > 0 && starts_with(p[k].uri@, "spotify:track:"@) by {
        if p[k] != entry {
            let m = choose|m: int| 0 <= m < v.recent.len() && v.recent[m] == p[k];
            assert(v.recent[m].cover@.len() > 0);
        }
    }
}

/// Every poll keeps the history as `panel_ok` says: arrivals, a reported
/// track, a promotion and an idle player alike.
pub proof fn lemma_panel_steps_keep_history(
    v: PanelView,
    key: (Seq<char>, Seq<char>),
    kind: LyricsKind,
    accent: Seq<char>,
    cover: Seq<char>,
    title: Seq<char>,
    artist: Seq<char>,
)
    requires
        panel_ok(v),
    ensures
        panel_ok(lyrics_arrived(v, key, kind)),
        panel_ok(art_arrived(v, key, accent, cover)),
        panel_ok(track_seen(v, title, artist)),
        panel_ok(PanelView { current: None, ..v }),
{
}

/// The panel keeps its session as `Session` does: a reported track, the end
/// of a lookup and an idle player change the current track and the failed
/// ones exactly as the session's own steps do, so failed lookups are not
/// retried by the panel either.
pub proof fn lemma_panel_follows_session(
    v: PanelView,
    key: (Seq<char>, Seq<char>),
    kind: LyricsKind,
    title: Seq<char>,
    artist: Seq<char>,
)
    ensures
        panel_session(track_seen(v, title, artist)) == session_step(
            panel_session(v),
            SessionEvent::Track(title, artist),
        ),
        panel_session(lyrics_arrived(v, key, kind)) == session_step(
            panel_session(v),
            SessionEvent::Finished(key, kind != LyricsKind::Missing),
        ),
        panel_session(PanelView { current: None, ..v }) == session_step(
            panel_session(v),
            SessionEvent::Idle,
        ),
{
}

/// How a report of the track `title` by `artist`, with its MPRIS track id
/// and palette colour, takes the panel from `v` to `w`: a new track starts
/// afresh, and the current track goes into the history, first, once it
/// has a cover and a Spotify URI.
pub open spec fn track_reported(
    v: PanelView,
    w: PanelView,
    title: Seq<char>,
    artist: Seq<char>,
    trackid: Seq<char>,
    palette: Option<(u8, u8, u8)>,
) -> bool {
    let seen = track_seen(v, title, artist);
    let uri = spotify_uri(trackid);
    if promotes(seen, uri) {
        &&& w == (PanelView {
            recent: promoted(seen.recent, w.recent[0], HISTORY_LIMIT as nat),
            last_history: seen.current,
            ..seen
        })
        &&& entry_is(w.recent[0], title, artist, seen.cover, accent_for(seen, palette), uri)
    } else {
        w == seen
    }
}

/// One step of the daemon loop takes the panel from `v` to `w`: lyrics or
/// cover art arrive, the player reports a track, or no player runs.
pub open spec fn panel_moves(v: PanelView, w: PanelView) -> bool {
    ||| exists|key: (Seq<char>, Seq<char>), kind: LyricsKind| w == #[trigger] lyrics_arrived(v, key, kind)
    ||| exists|key: (Seq<char>, Seq<char>), accent: Seq<char>, cover: Seq<char>|
        w == #[trigger] art_arrived(v, key, accent, cover)
    ||| exists|title: Seq<char>, artist: Seq<char>, trackid: Seq<char>, palette: Option<(u8, u8, u8)>|
        #[trigger] track_reported(v, w, title, artist, trackid, palette)
    ||| w == (PanelView { current: None, ..v })
}

proof fn lemma_track_reported_keeps_history(
    v: PanelView,
    w: PanelView,
    title: Seq<char>,
    artist: Seq<char>,
    trackid: Seq<char>,
    palette: Option<(u8, u8, u8)>,
)
    requires
        panel_ok(v),
        track_reported(v, w, title, artist, trackid, palette),
    ensures
        panel_ok(w),
{
    let seen = track_seen(v, title, artist);
    lemma_panel_steps_keep_history(v, (title, artist), LyricsKind::Missing, Seq::empty(), Seq::empty(), title, artist);
    let uri = spotify_uri(trackid);
    if promotes(seen, uri) {
        lemma_spotify_uri(trackid);
        lemma_promotion_keeps_history(seen, w.recent[0]);
    }
}

/// The history invariant holds over a whole run of the daemon loop: from a
/// panel that keeps it (a new one does), every state reached step by step
/// keeps it: at most `HISTORY_LIMIT` entries, each track once, each with a
/// cover and a Spotify URI, the last promoted track first.
pub proof fn lemma_history_over_run(states: Seq<PanelView>)
    requires
        states.len() > 0,
        panel_ok(states[0]),
        forall|i: int| 0 <= i < states.len() - 1 ==> panel_moves(#[trigger] states[i], states[i + 1]),
    ensures
        forall|i: int| 0 <= i < states.len() ==> panel_ok(#[trigger] states[i]),
    decreases states.len(),
{
    if states.len() > 1 {
        let p = states.drop_last();
        assert forall|i: int| 0 <= i < p.len() - 1 implies panel_moves(#[trigger] p[i], p[i + 1]) by {
            assert(p[i] == states[i] && p[i + 1] == states[i + 1]);
        }
        lemma_history_over_run(p);
        let n = states.len() - 1;
        let v = states[n - 1];
        let w = states[n];
        assert(p[n - 1] == v);
        assert(panel_moves(states[n - 1], states[n]));
        if exists|key: (Seq<char>, Seq<char>), kind: LyricsKind| w == #[trigger] lyrics_arrived(v, key, kind) {
            let (key, kind) = choose|key: (Seq<char>, Seq<char>), kind: LyricsKind|
                w == #[trigger] lyrics_arrived(v, key, kind);
            lemma_panel_steps_keep_history(v, key, kind, Seq::empty(), Seq::empty(), Seq::empty(), Seq::empty());
        } else if exists|key: (Seq<char>, Seq<char>), accent: Seq<char>, cover: Seq<char>|
            w == #[trigger] art_arrived(v, key, accent, cover) {
            let (key, accent, cover) = choose|key: (Seq<char>, Seq<char>), accent: Seq<char>, cover: Seq<char>|
                w == #[trigger] art_arrived(v, key, accent, cover);
            lemma_panel_steps_keep_history(v, key, LyricsKind::Missing, accent, cover, Seq::empty(), Seq::empty());
        } else if exists|title: Seq<char>, artist: Seq<char>, trackid: Seq<char>, palette: Option<(u8, u8, u8)>|
            #[trigger] track_reported(v, w, title, artist, trackid, palette) {
            let (title, artist, trackid, palette) = choose|title: Seq<char>, artist: Seq<char>, trackid: Seq<char>, palette: Option<(u8, u8, u8)>|
                #[trigger] track_reported(v, w, title, artist, trackid, palette);
            lemma_track_reported_keeps_history(v, w, title, artist, trackid, palette);
        } else {
            lemma_panel_steps_keep_history(v, (Seq::empty(), Seq::empty()), LyricsKind::Missing, Seq::empty(), Seq::empty(), Seq::empty(), Seq::empty());
        }
        assert forall|i: int| 0 <= i < states.len() implies panel_ok(#[trigger] states[i]) by {
            if i < n {
                assert(p[i] == states[i]);
            }
        }
    }
}

/// What the panel shows of lyrics follows the current track: a new track
/// shows no lyrics, no cover and no cover accent until its own replies
/// come; lyrics for the current track set what is shown; a reply for any
/// other track changes nothing shown.
pub proof fn lemma_panel_shows_current_lyrics(
    v: PanelView,
    title: Seq<char>,
    artist: Seq<char>,
    key: (Seq<char>, Seq<char>),
    kind: LyricsKind,
    accent: Seq<char>,
    cover: Seq<char>,
)
    ensures
        is_new_track(v.current, title, artist) ==> {
            let w = track_seen(v, title, artist);
            w.kind == LyricsKind::Missing && w.cover.len() == 0 && w.art_accent is None
        },
        !is_new_track(v.current, title, artist) ==> track_seen(v, title, artist) == v,
        accepts(v.current, key) ==> lyrics_arrived(v, key, kind).kind == kind,
        !accepts(v.current, key) ==> {
            let w = lyrics_arrived(v, key, kind);
            w.kind == v.kind && w.cover == v.cover && w.art_accent == v.art_accent && w.current
                == v.current && w.recent == v.recent
        },
        !accepts(v.current, key) ==> art_arrived(v, key, accent, cover) == v,
{
}

impl Panel {
    /// Nothing playing yet and no history.
    pub fn new() -> (p: Panel)
        ensures
            p@ == (PanelView {
                current: None,
                failed: Set::empty(),
                kind: LyricsKind::Missing,
                art_accent: None,
                cover: Seq::empty(),
                recent: Seq::empty(),
                last_history: None,
            }),
            panel_ok(p@),
    {
        Panel {
            session: Session::new(),
            kind: LyricsKind::Missing,
            art_accent: None,
            cover: String::new(),
            recent: Vec::new(),
            last_history: None,
        }
    }

    /// The history of recent tracks, newest first.
    pub fn recent(&self) -> (r: &Vec<RecentTrack>)
        ensures
            r@ == self@.recent,
    {
        &self.recent
    }

    /// The lyrics for the track `key` arrived with this kind. Returns whether
    /// they were taken, that is, whether `key` is still the current track.
    pub fn on_lyrics(&mut self, key: &(String, String), kind: LyricsKind) -> (taken: bool)
        ensures
            taken == accepts(old(self)@.current, key_view(*key)),
            final(self)@ == lyrics_arrived(old(self)@, key_view(*key), kind),
            panel_ok(old(self)@) ==> panel_ok(final(self)@),
    {
        let found = match kind {
            LyricsKind::Missing => false,
            _ => true,
        };
        let taken = self.session.finish(key, found);
        if taken {
            self.kind = kind;
        }
        taken
    }

    /// The cover art for the track `key` arrived, with its accent and the
    /// path of the cover. Returns whether it was taken.
    pub fn on_art(&mut self, key: &(String, String), accent: String, cover: String) -> (taken: bool)
        ensures
            taken == accepts(old(self)@.current, key_view(*key)),
            final(self)@ == art_arrived(old(self)@, key_view(*key), accent@, cover@),
            panel_ok(old(self)@) ==> panel_ok(final(self)@),
    {
        let taken = self.session.is_current(key);
        if taken {
            self.art_accent = Some(accent);
            self.cover = cover;
        }
        taken
    }

    /// The player reports the track `title` by `artist` with its MPRIS track
    /// id, and `palette` is the palette's colour for it (`None` when that is
    /// not an RGB colour). A new track starts afresh, and its lyrics are
    /// looked up unless a lookup for it found nothing before in this run;
    /// the current track goes into the history once it has a cover and a
    /// Spotify URI.
    pub fn on_track(
        &mut self,
        title: &str,
        artist: &str,
        trackid: &str,
        palette: Option<(u8, u8, u8)>,
    ) -> (frame: Frame)
        ensures
            ({
                let w = track_seen(old(self)@, title@, artist@);
                let accent = accent_for(w, palette);
                let uri = spotify_uri(trackid@);
                &&& frame.changed == is_new_track(old(self)@.current, title@, artist@)
                &&& frame.fetch == fetch_needed(panel_session(old(self)@), title@, artist@)
                &&& frame.kind == w.kind
                &&& frame.accent@ == accent
                &&& frame.cover@ == w.cover
                &&& track_reported(old(self)@, final(self)@, title@, artist@, trackid@, palette)
            }),
            panel_ok(old(self)@) ==> panel_ok(final(self)@),
    {
        let ghost v0 = self@;
        let change = self.session.observe(title, artist);
        let changed = change.changed;
        if changed {
            self.kind = LyricsKind::Missing;
            self.art_accent = None;
            self.cover = String::new();
        }
        let ghost w = self@;
        assert(w == track_seen(v0, title@, artist@));
        let accent = match &self.art_accent {
            Some(a) => a.clone(),
            None => color_to_hex(palette),
        };
        let uri = spotify_uri_from_trackid(trackid);
        let current = Some((string_of(&chars_of(title)), string_of(&chars_of(artist))));
        if should_promote(self.cover.as_str(), uri.as_str(), &self.last_history, &current) {
            let entry = RecentTrack {
                title: string_of(&chars_of(title)),
                artist: string_of(&chars_of(artist)),
                cover: self.cover.clone(),
                accent: accent.clone(),
                uri,
            };
            proof {
                lemma_spotify_uri(trackid@);
                if panel_ok(w) {
                    lemma_promotion_keeps_history(w, entry);
                }
                let all = seq![entry] + without(w.recent, entry.title@, entry.artist@);
                assert(all[0] == entry);
            }
            push_recent(&mut self.recent, entry, HISTORY_LIMIT);
            self.last_history = current;
        }
        Frame { changed, fetch: change.fetch, kind: self.kind, accent, cover: self.cover.clone() }
    }

    /// No player is running: nothing is current, and the panel shows no
    /// track, no lyrics and the default accent.
    pub fn on_idle(&mut self) -> (frame: Frame)
        ensures
            final(self)@ == (PanelView { current: None, ..old(self)@ }),
            !frame.changed,
            !frame.fetch,
            frame.kind == LyricsKind::Missing,
            frame.accent@ == default_accent(),
            frame.cover@.len() == 0,
            panel_ok(old(self)@) ==> panel_ok(final(self)@),
    {
        self.session.clear();
        Frame {
            changed: false,
            fetch: false,
            kind: LyricsKind::Missing,
            accent: color_to_hex(None),
            cover: String::new(),
        }
    }
}

} // verus!

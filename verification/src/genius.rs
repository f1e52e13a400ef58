//! Genius: a coverage boost for tracks the other sources miss. Genius has no
//! timecodes, so it only ever yields plain lyrics, scraped out of the song
//! page's HTML.
use vstd::prelude::*;

use crate::text::{
    chars_of, copy_range, find_from, find_from_exec, lemma_find_from, replace_all, replace_exec,
    count_found, count_found_exec, contains, lemma_count_found, starts_with, starts_with_exec, string_of, trim, trim_chars, views,
    words, words_exec,
};
use crate::pick::{ints, last_max, last_max_exec, lemma_last_max};
use crate::unicode::{byte_window, byte_window_exec, lowercase, to_lowercase};

verus! {

/// `>`
pub open spec fn gt() -> Seq<char> {
    seq!['>']
}

/// `<br`, the start of a line-break tag.
pub open spec fn br_open() -> Seq<char> {
    seq!['<', 'b', 'r']
}

/// The marker attribute of a lyric block.
pub open spec fn container() -> Seq<char> {
    "data-lyrics-container=\"true\""@
}

/// `</div>`, where a lyric block ends.
pub open spec fn close_div() -> Seq<char> {
    "</div>"@
}

/// Where scanning resumes after the tag that opens at `k`: just past the
/// next `>`, or the end when there is none.
pub open spec fn tag_next(s: Seq<char>, k: int) -> int {
    match find_from(s, gt(), k) {
        Some(j) => j + 1,
        None => s.len() as int,
    }
}

/// A tag ends after it starts.
pub proof fn lemma_tag_next(s: Seq<char>, k: int)
    requires
        0 <= k < s.len(),
    ensures
        k < tag_next(s, k) <= s.len(),
{
    lemma_find_from(s, gt(), k);
}

/// Stripping `s` from `k` on never cuts into a character: at every tag, the
/// four bytes that are looked at for `<br` end on a character boundary.
pub open spec fn strip_safe(s: Seq<char>, k: int) -> bool
    decreases s.len() - k,
{
    if k < 0 || k >= s.len() {
        true
    } else if s[k] == '<' {
        proof {
            lemma_tag_next(s, k);
        }
        byte_window(s, k, 4) is Some && strip_safe(s, tag_next(s, k))
    } else {
        strip_safe(s, k + 1)
    }
}

/// The tag at `k` is a line break: its first four bytes, lower-cased, begin
/// with `<br`.
pub open spec fn is_break(s: Seq<char>, k: int) -> bool {
    let m = match byte_window(s, k, 4) {
        Some(m) => m,
        None => 0,
    };
    starts_with(lowercase(s.subrange(k, k + m)), br_open())
}

/// The text of `s` from `k` on with every tag dropped and every `<br`
/// tag turned into a newline.
pub open spec fn strip_tags(s: Seq<char>, k: int) -> Seq<char>
    decreases s.len() - k,
{
    if k < 0 || k >= s.len() {
        Seq::empty()
    } else if s[k] == '<' {
        proof {
            lemma_tag_next(s, k);
        }
        (if is_break(s, k) {
            seq!['\n']
        } else {
            Seq::empty()
        }) + strip_tags(s, tag_next(s, k))
    } else {
        seq![s[k]] + strip_tags(s, k + 1)
    }
}

/// The seven HTML entities Genius uses, decoded in this order.
pub open spec fn decode(s: Seq<char>) -> Seq<char> {
    let a = replace_all(s, "&amp;"@, "&"@);
    let b = replace_all(a, "&quot;"@, "\""@);
    let c = replace_all(b, "&#x27;"@, "'"@);
    let d = replace_all(c, "&#39;"@, "'"@);
    let e = replace_all(d, "&lt;"@, "<"@);
    let f = replace_all(e, "&gt;"@, ">"@);
    replace_all(f, "&nbsp;"@, " "@)
}

proof fn lemma_replace_absent(s: Seq<char>, from: Seq<char>, to: Seq<char>)
    requires
        from.len() > 0,
        !s.contains(from[0]),
    ensures
        replace_all(s, from, to) == s,
    decreases s.len(),
{
    if s.len() > 0 {
        if starts_with(s, from) {
            assert(s.take(from.len() as int)[0] == s[0]);
        }
        assert(!s.drop_first().contains(from[0])) by {
            if s.drop_first().contains(from[0]) {
                let i = choose|i: int| 0 <= i < s.drop_first().len() && s.drop_first()[i] == from[0];
                assert(s[i + 1] == from[0]);
            }
        }
        lemma_replace_absent(s.drop_first(), from, to);
        assert(seq![s[0]] + s.drop_first() =~= s);
    }
}

/// Text without `&` holds no entity: decoding leaves it as it is.
pub proof fn lemma_decode_plain(s: Seq<char>)
    requires
        !s.contains('&'),
    ensures
        decode(s) == s,
{
    reveal_strlit("&amp;");
    reveal_strlit("&quot;");
    reveal_strlit("&#x27;");
    reveal_strlit("&#39;");
    reveal_strlit("&lt;");
    reveal_strlit("&gt;");
    reveal_strlit("&nbsp;");
    lemma_replace_absent(s, "&amp;"@, "&"@);
    lemma_replace_absent(s, "&quot;"@, "\""@);
    lemma_replace_absent(s, "&#x27;"@, "'"@);
    lemma_replace_absent(s, "&#39;"@, "'"@);
    lemma_replace_absent(s, "&lt;"@, "<"@);
    lemma_replace_absent(s, "&gt;"@, ">"@);
    lemma_replace_absent(s, "&nbsp;"@, " "@);
}

proof fn lemma_strip_no_tags(s: Seq<char>, k: int)
    requires
        !s.contains('<'),
        0 <= k <= s.len(),
    ensures
        strip_tags(s, k) == s.skip(k),
        strip_safe(s, k),
    decreases s.len() - k,
{
    if k < s.len() {
        assert(s[k] != '<');
        lemma_strip_no_tags(s, k + 1);
        assert(seq![s[k]] + s.skip(k + 1) =~= s.skip(k));
    } else {
        assert(s.skip(k) =~= Seq::<char>::empty());
    }
}

/// Text without `<` holds no tag: stripping it only decodes its entities,
/// and text with neither `<` nor `&` comes out as it went in.
pub proof fn lemma_strip_html_plain_text(s: Seq<char>)
    requires
        !s.contains('<'),
    ensures
        strip_safe(s, 0),
        decode(strip_tags(s, 0)) == decode(s),
        !s.contains('&') ==> decode(strip_tags(s, 0)) == s,
{
    lemma_strip_no_tags(s, 0);
    assert(s.skip(0) =~= s);
    if !s.contains('&') {
        lemma_decode_plain(s);
    }
}

/// Replaces the HTML entities `&amp;`, `&quot;`, `&#x27;`, `&#39;`, `&lt;`,
/// `&gt;` and `&nbsp;`, one after the other.
pub fn decode_entities(s: &str) -> (r: String)
    ensures
        r@ == decode(s@),
{
    string_of(&decode_chars(&chars_of(s)))
}

fn decode_chars(s: &[char]) -> (r: Vec<char>)
    ensures
        r@ == decode(s@),
{
    proof {
        reveal_strlit("&amp;");
        reveal_strlit("&quot;");
        reveal_strlit("&#x27;");
        reveal_strlit("&#39;");
        reveal_strlit("&lt;");
        reveal_strlit("&gt;");
        reveal_strlit("&nbsp;");
    }
    let a = replace_exec(s, &chars_of("&amp;"), &chars_of("&"));
    let b = replace_exec(&a, &chars_of("&quot;"), &chars_of("\""));
    let c = replace_exec(&b, &chars_of("&#x27;"), &chars_of("'"));
    let d = replace_exec(&c, &chars_of("&#39;"), &chars_of("'"));
    let e = replace_exec(&d, &chars_of("&lt;"), &chars_of("<"));
    let f = replace_exec(&e, &chars_of("&gt;"), &chars_of(">"));
    replace_exec(&f, &chars_of("&nbsp;"), &chars_of(" "))
}

/// The text of an HTML fragment: tags dropped, `<br>` turned into newlines,
/// entities decoded.
pub fn strip_html(s: &str) -> (r: String)
    requires
        strip_safe(s@, 0),
    ensures
        r@ == decode(strip_tags(s@, 0)),
{
    let cs = chars_of(s);
    string_of(&strip_chars(&cs))
}

fn strip_chars(s: &[char]) -> (r: Vec<char>)
    requires
        strip_safe(s@, 0),
    ensures
        r@ == decode(strip_tags(s@, 0)),
{
    let n = s.len();
    let mut gt_pat: Vec<char> = Vec::new();
    gt_pat.push('>');
    let mut br_pat: Vec<char> = Vec::new();
    br_pat.push('<');
    br_pat.push('b');
    br_pat.push('r');
    assert(gt_pat@ =~= gt());
    assert(br_pat@ =~= br_open());
    let mut out: Vec<char> = Vec::new();
    let mut i: usize = 0;
    while i < n
        invariant
            n == s@.len(),
            i <= n,
            gt_pat@ == gt(),
            br_pat@ == br_open(),
            strip_safe(s@, i as int),
            out@ + strip_tags(s@, i as int) == strip_tags(s@, 0),
        decreases n - i,
    {
        let ghost before = out@;
        if s[i] == '<' {
            proof {
                lemma_tag_next(s@, i as int);
            }
            let m = match byte_window_exec(s, i, 4) {
                Some(m) => m,
                None => 0,
            };
            let window = copy_range(s, i, i + m);
            let lowered = to_lowercase(&string_of(&window));
            let lw = chars_of(lowered.as_str());
            let brk = starts_with_exec(&lw, &br_pat);
            assert(brk == is_break(s@, i as int));
            if brk {
                out.push('\n');
            }
            let next = match find_from_exec(s, &gt_pat, i) {
                Some(j) => j + 1,
                None => n,
            };
            assert(next == tag_next(s@, i as int));
            assert(before + strip_tags(s@, i as int) =~= out@ + strip_tags(s@, next as int));
            i = next;
        } else {
            out.push(s[i]);
            assert(before + strip_tags(s@, i as int) =~= out@ + strip_tags(s@, i + 1));
            i = i + 1;
        }
    }
    assert(strip_tags(s@, i as int) =~= Seq::<char>::empty());
    assert(out@ + Seq::<char>::empty() =~= out@);
    decode_chars(&out)
}

/// The lyric blocks of `html` from `cursor` on: the text between the `>`
/// that closes each `data-lyrics-container="true"` element's opening tag
/// and the next `</div>`. `None` when a block is missing either of the two.
pub open spec fn blocks_from(html: Seq<char>, cursor: int) -> Option<Seq<Seq<char>>>
    decreases html.len() - cursor,
{
    if cursor < 0 || cursor > html.len() {
        Some(Seq::empty())
    } else {
        match find_from(html, container(), cursor) {
            None => Some(Seq::empty()),
            Some(idx) => match find_from(html, gt(), idx) {
                None => None,
                Some(g) => match find_from(html, close_div(), g + 1) {
                    None => None,
                    Some(end) => {
                        proof {
                            lemma_find_from(html, container(), cursor);
                            lemma_find_from(html, gt(), idx);
                            lemma_find_from(html, close_div(), g + 1);
                        }
                        match blocks_from(html, end) {
                            Some(rest) => Some(seq![html.subrange(g + 1, end)] + rest),
                            None => None,
                        }
                    },
                },
            },
        }
    }
}

/// Every lyric block that is reached from `cursor` on strips cleanly.
pub open spec fn blocks_safe(html: Seq<char>, cursor: int) -> bool
    decreases html.len() - cursor,
{
    if cursor < 0 || cursor > html.len() {
        true
    } else {
        match find_from(html, container(), cursor) {
            None => true,
            Some(idx) => match find_from(html, gt(), idx) {
                None => true,
                Some(g) => match find_from(html, close_div(), g + 1) {
                    None => true,
                    Some(end) => {
                        proof {
                            lemma_find_from(html, container(), cursor);
                            lemma_find_from(html, gt(), idx);
                            lemma_find_from(html, close_div(), g + 1);
                        }
                        strip_safe(html.subrange(g + 1, end), 0) && blocks_safe(html, end)
                    },
                },
            },
        }
    }
}

/// The text of each block, each followed by a newline.
pub open spec fn blocks_text(bs: Seq<Seq<char>>) -> Seq<char>
    decreases bs.len(),
{
    if bs.len() == 0 {
        Seq::empty()
    } else {
        blocks_text(bs.drop_last()) + decode(strip_tags(bs.last(), 0)) + seq!['\n']
    }
}

/// The lyrics of a Genius song page: the trimmed text of all its lyric
/// blocks, or nothing when a block is cut short or the text is blank.
pub open spec fn page_lyrics(html: Seq<char>) -> Option<Seq<char>> {
    match blocks_from(html, 0) {
        None => None,
        Some(bs) => {
            let t = trim(blocks_text(bs));
            if t.len() == 0 {
                None
            } else {
                Some(t)
            }
        },
    }
}

/// Whether `extract_lyrics` can read `html` without cutting into a
/// character.
pub fn page_is_safe(html: &str) -> (b: bool)
    ensures
        b == blocks_safe(html@, 0),
{
    let s = chars_of(html);
    let needle = chars_of("data-lyrics-container=\"true\"");
    let close = chars_of("</div>");
    let mut gt_pat: Vec<char> = Vec::new();
    gt_pat.push('>');
    assert(gt_pat@ =~= gt());
    let mut cursor: usize = 0;
    while cursor <= s.len()
        invariant
            s@ == html@,
            needle@ == container(),
            close@ == close_div(),
            gt_pat@ == gt(),
            cursor <= s@.len(),
            blocks_safe(html@, 0) == blocks_safe(html@, cursor as int),
        decreases s.len() - cursor,
    {
        let idx = match find_from_exec(&s, &needle, cursor) {
            Some(idx) => idx,
            None => return true,
        };
        let g = match find_from_exec(&s, &gt_pat, idx) {
            Some(g) => g,
            None => return true,
        };
        proof {
            lemma_find_from(s@, container(), cursor as int);
            lemma_find_from(s@, gt(), idx as int);
        }
        let end = match find_from_exec(&s, &close, g + 1) {
            Some(end) => end,
            None => return true,
        };
        proof {
            lemma_find_from(s@, close_div(), g + 1);
        }
        let block = copy_range(&s, g + 1, end);
        if !strip_chars_safe(&block) {
            return false;
        }
        cursor = end;
    }
    true
}

/// Whether `strip_html` can read `s` without cutting into a character.
pub fn strip_is_safe(s: &str) -> (b: bool)
    ensures
        b == strip_safe(s@, 0),
{
    strip_chars_safe(&chars_of(s))
}

fn strip_chars_safe(s: &[char]) -> (b: bool)
    ensures
        b == strip_safe(s@, 0),
{
    let n = s.len();
    let mut gt_pat: Vec<char> = Vec::new();
    gt_pat.push('>');
    assert(gt_pat@ =~= gt());
    let mut i: usize = 0;
    while i < n
        invariant
            n == s@.len(),
            i <= n,
            gt_pat@ == gt(),
            strip_safe(s@, 0) == strip_safe(s@, i as int),
        decreases n - i,
    {
        if s[i] == '<' {
            proof {
                lemma_tag_next(s@, i as int);
            }
            if byte_window_exec(s, i, 4).is_none() {
                return false;
            }
            i = match find_from_exec(s, &gt_pat, i) {
                Some(j) => j + 1,
                None => n,
            };
        } else {
            i = i + 1;
        }
    }
    true
}

/// Genius wraps each lyric block in `<div data-lyrics-container="true">`;
/// the text of every such block, concatenated and trimmed, or `None` when a
/// block is cut short or nothing but white space is left.
pub fn extract_lyrics(html: &str) -> (r: Option<String>)
    requires
        blocks_safe(html@, 0),
    ensures
        match r {
            Some(t) => page_lyrics(html@) == Some(t@),
            None => page_lyrics(html@) is None,
        },
{
    let s = chars_of(html);
    let needle = chars_of("data-lyrics-container=\"true\"");
    let close = chars_of("</div>");
    let mut gt_pat: Vec<char> = Vec::new();
    gt_pat.push('>');
    assert(gt_pat@ =~= gt());
    let mut out: Vec<char> = Vec::new();
    let ghost mut done: Seq<Seq<char>> = Seq::empty();
    let mut cursor: usize = 0;
    while cursor <= s.len()
        invariant
            s@ == html@,
            needle@ == container(),
            close@ == close_div(),
            gt_pat@ == gt(),
            cursor <= s@.len(),
            blocks_safe(html@, cursor as int),
            out@ == blocks_text(done),
            blocks_from(html@, 0) == match blocks_from(html@, cursor as int) {
                Some(rest) => Some(done + rest),
                None => None::<Seq<Seq<char>>>,
            },
        ensures
            out@ == blocks_text(done),
            blocks_from(html@, 0) == Some(done),
        decreases s.len() - cursor,
    {
        let idx = match find_from_exec(&s, &needle, cursor) {
            Some(idx) => idx,
            None => {
                assert(done + Seq::<Seq<char>>::empty() =~= done);
                break;
            },
        };
        let g = match find_from_exec(&s, &gt_pat, idx) {
            Some(g) => g,
            None => return None,
        };
        proof {
            lemma_find_from(s@, container(), cursor as int);
            lemma_find_from(s@, gt(), idx as int);
        }
        let end = match find_from_exec(&s, &close, g + 1) {
            Some(end) => end,
            None => return None,
        };
        proof {
            lemma_find_from(s@, close_div(), g + 1);
        }
        let block = copy_range(&s, g + 1, end);
        let text = strip_chars(&block);
        let ghost old_done = done;
        proof {
            done = done.push(block@);
            assert(done.drop_last() =~= old_done);
            match blocks_from(html@, end as int) {
                Some(rest) => {
                    assert(old_done + (seq![block@] + rest) =~= done + rest);
                },
                None => {},
            }
        }
        let mut k: usize = 0;
        let ghost before = out@;
        while k < text.len()
            invariant
                k <= text@.len(),
                out@ == before + text@.take(k as int),
            decreases text.len() - k,
        {
            out.push(text[k]);
            assert(text@.take(k + 1) =~= text@.take(k as int).push(text@[k as int]));
            k = k + 1;
        }
        assert(text@.take(text@.len() as int) =~= text@);
        out.push('\n');
        assert(out@ =~= blocks_text(done));
        cursor = end;
    }
    let t = trim_chars(&out);
    if t.len() == 0 {
        None
    } else {
        Some(string_of(&t))
    }
}

/// One search hit: the song page and the credited artists.
pub struct GeniusHit {
    pub url: String,
    pub artist_names: Option<String>,
}

/// The credited artists of a hit, or nothing.
pub open spec fn names_of(h: GeniusHit) -> Seq<char> {
    match h.artist_names {
        Some(n) => n@,
        None => ""@,
    }
}

/// A hit's score: how many words of the wanted artist, lower-cased, occur
/// in its lower-cased artist credits.
pub open spec fn hit_score(artist: Seq<char>, h: GeniusHit) -> nat {
    count_found(words(lowercase(artist)), lowercase(names_of(h)))
}

/// The hit to scrape: the best-scoring one, the last among equals.
pub open spec fn best_hit(artist: Seq<char>, hits: Seq<GeniusHit>) -> Option<int> {
    last_max(Seq::new(hits.len(), |i: int| hit_score(artist, hits[i]) as int))
}

/// Every word of the wanted artist, lower-cased, occurs in the hit's
/// lower-cased artist credits.
pub open spec fn credits_all(artist: Seq<char>, h: GeniusHit) -> bool {
    forall|i: int|
        0 <= i < words(lowercase(artist)).len() ==> contains(
            lowercase(names_of(h)),
            #[trigger] words(lowercase(artist))[i],
        )
}

/// A hit's score compares words case-insensitively: it is at most the
/// number of words of the lower-cased artist; it is that number exactly
/// when every one of them occurs in the lower-cased credits, and zero
/// exactly when none does.
pub proof fn lemma_hit_score_words(artist: Seq<char>, h: GeniusHit)
    ensures
        hit_score(artist, h) <= words(lowercase(artist)).len(),
        (hit_score(artist, h) == words(lowercase(artist)).len()) == credits_all(artist, h),
        (hit_score(artist, h) == 0) == (forall|i: int|
            0 <= i < words(lowercase(artist)).len() ==> !contains(
                lowercase(names_of(h)),
                #[trigger] words(lowercase(artist))[i],
            )),
{
    lemma_count_found(words(lowercase(artist)), lowercase(names_of(h)));
}

/// When some hit credits every word of the artist (compared lower-cased),
/// the hit taken credits every word too, and no later hit does: the last
/// of the fully matching hits is taken.
pub proof fn lemma_best_hit_credits_all(artist: Seq<char>, hits: Seq<GeniusHit>, j: int)
    requires
        0 <= j < hits.len(),
        credits_all(artist, hits[j]),
    ensures
        best_hit(artist, hits) matches Some(i) && 0 <= i < hits.len() && credits_all(artist, hits[i])
            && forall|k: int| i < k < hits.len() ==> !credits_all(artist, #[trigger] hits[k]),
{
    let sc = Seq::new(hits.len(), |i: int| hit_score(artist, hits[i]) as int);
    lemma_last_max(sc);
    let n = words(lowercase(artist)).len();
    lemma_hit_score_words(artist, hits[j]);
    let i = best_hit(artist, hits)->0;
    lemma_hit_score_words(artist, hits[i]);
    assert(sc[j] == n);
    assert(sc[i] >= sc[j]);
    assert forall|k: int| i < k < hits.len() implies !credits_all(artist, #[trigger] hits[k]) by {
        lemma_hit_score_words(artist, hits[k]);
        assert(sc[k] < sc[i]);
    }
}

/// What the Genius lookup has heard back so far.
pub enum GeniusReply {
    /// Nothing yet: the lookup starts.
    Start,
    /// The song hits of the search, all sections in order.
    Hits(Vec<GeniusHit>),
    /// The HTML of the chosen song page.
    Page(String),
}

/// What the Genius lookup asks for next.
pub enum GeniusStep {
    /// Query the search endpoint `url` with `q = query`, as JSON.
    Search { url: String, query: String },
    /// Download the song page at `url`.
    GetPage { url: String },
    /// The lookup is over, with these plain lyrics or none.
    Done(Option<String>),
}

/// The Genius search endpoint.
pub open spec fn search_url() -> Seq<char> {
    "https://genius.com/api/search/song"@
}

/// Searches Genius via its internal autocomplete endpoint and scrapes the
/// matching song page for plain lyrics. No sync (Genius doesn't expose
/// timecodes) — purely a coverage boost for tracks the other sources miss.
///
/// One call decides one step: from `Start` it asks for a search for
/// `"{title} {artist}"`; from the search hits it asks for the page of the
/// hit whose artist credits share the most words with `artist` (the last
/// among equals), or gives up when there are none; from the page it
/// answers with the lyrics scraped out of it.
pub fn fetch(title: &str, artist: &str, reply: GeniusReply) -> (step: GeniusStep)
    requires
        reply matches GeniusReply::Page(html) ==> blocks_safe(html@, 0),
    ensures
        match reply {
            GeniusReply::Start => step matches GeniusStep::Search { url, query } && url@
                == search_url() && query@ == title@ + " "@ + artist@,
            GeniusReply::Hits(hits) => match best_hit(artist@, hits@) {
                None => step matches GeniusStep::Done(None),
                Some(i) => step matches GeniusStep::GetPage { url } && url@ == hits@[i].url@,
            },
            GeniusReply::Page(html) => match page_lyrics(html@) {
                None => step matches GeniusStep::Done(None),
                Some(t) => step matches GeniusStep::Done(Some(l)) && l@ == t,
            },
        },
{
    match reply {
        GeniusReply::Start => {
            let mut query = string_of(&chars_of(title));
            query.append(" ");
            query.append(artist);
            GeniusStep::Search { url: string_of(&chars_of("https://genius.com/api/search/song")), query }
        },
        GeniusReply::Hits(hits) => {
            let artist_l = to_lowercase(artist);
            let ws = words_exec(&chars_of(artist_l.as_str()));
            let mut scores: Vec<u64> = Vec::new();
            let mut i: usize = 0;
            while i < hits.len()
                invariant
                    i <= hits@.len(),
                    views(ws@) == words(lowercase(artist@)),
                    scores@.len() == i,
                    forall|j: int| 0 <= j < i ==> #[trigger] scores@[j] as int == hit_score(artist@, hits@[j]),
                decreases hits.len() - i,
            {
                let names_l = match &hits[i].artist_names {
                    Some(n) => to_lowercase(n.as_str()),
                    None => to_lowercase(""),
                };
                let n = count_found_exec(&ws, &chars_of(names_l.as_str()));
                scores.push(n);
                i = i + 1;
            }
            assert(ints(scores@) =~= Seq::new(hits@.len(), |j: int| hit_score(artist@, hits@[j]) as int));
            match last_max_exec(&scores) {
                None => GeniusStep::Done(None),
                Some(b) => GeniusStep::GetPage { url: hits[b].url.clone() },
            }
        },
        GeniusReply::Page(html) => GeniusStep::Done(extract_lyrics(html.as_str())),
    }
}

} // verus!

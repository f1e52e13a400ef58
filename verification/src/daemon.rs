//! The decisions of the JSON daemon that feeds the desktop panel: where the
//! state goes, which cover art to use and how it is cached, the accent
//! colour text, and the rolling history of recent tracks.
use vstd::prelude::*;
use vstd::utf8::encode_utf8;

use crate::fmt::{digit_char, digits, digits_exec, hex2, hex2_exec};
use crate::lyrics_ovh::hex_upper;
use crate::unicode::{byte_window, byte_window_exec};
use crate::text::{
    chars_of, copy_range, find_from, find_from_exec, lemma_find_from, is_blank, lines, lines_exec, push_chars, starts_with, starts_with_exec,
    string_of, trim, views,
};

verus! {

/// JSON state file the quickshell panel (lyrics-panel) polls. Kept in /tmp so
/// it's wiped on reboot and never pollutes the user's home.
pub fn state_path() -> (p: String)
    ensures
        p@ == "/tmp/lyrics.json"@,
{
    string_of(&chars_of("/tmp/lyrics.json"))
}

/// The prefix of a Spotify MPRIS track id.
pub open spec fn spotify_prefix() -> Seq<char> {
    "/com/spotify/track/"@
}

/// The Spotify URI of a track id, or nothing for other players.
pub open spec fn spotify_uri(trackid: Seq<char>) -> Seq<char> {
    if starts_with(trackid, spotify_prefix()) {
        "spotify:track:"@ + trackid.skip(spotify_prefix().len() as int)
    } else {
        Seq::empty()
    }
}

/// Build a Spotify `spotify:track:<id>` URI from a raw mpris:trackid path like
/// `/com/spotify/track/<id>`. Returns empty string for other formats.
pub fn spotify_uri_from_trackid(trackid: &str) -> (uri: String)
    ensures
        uri@ == spotify_uri(trackid@),
{
    let t = chars_of(trackid);
    let prefix = chars_of("/com/spotify/track/");
    if starts_with_exec(&t, &prefix) {
        let mut uri = string_of(&chars_of("spotify:track:"));
        let id = copy_range(&t, prefix.len(), t.len());
        assert(id@ =~= trackid@.skip(spotify_prefix().len() as int));
        push_chars(&mut uri, &id);
        uri
    } else {
        String::new()
    }
}

/// The starting value of the art-cache hash. (It is not the standard FNV-1a
/// offset basis, which has one more digit; the cache names depend on it.)
pub const FNV_OFFSET: u64 = 1469598103934665603;

/// The 64-bit FNV prime.
pub const FNV_PRIME: u64 = 1099511628211;

/// The FNV-1a style hash of a byte string: from `FNV_OFFSET`, each byte is
/// xor-ed in and the state multiplied by `FNV_PRIME`, wrapping.
pub open spec fn fnv_hash(bytes: Seq<u8>) -> u64
    decreases bytes.len(),
{
    if bytes.len() == 0 {
        FNV_OFFSET
    } else {
        vstd::wrapping::u64_specs::wrapping_mul(
            fnv_hash(bytes.drop_last()) ^ (bytes.last() as u64),
            FNV_PRIME,
        )
    }
}

/// The FNV-1a style hash of `bytes`.
pub fn fnv(bytes: &[u8]) -> (h: u64)
    ensures
        h == fnv_hash(bytes@),
{
    let mut h: u64 = FNV_OFFSET;
    let mut i: usize = 0;
    while i < bytes.len()
        invariant
            i <= bytes@.len(),
            h == fnv_hash(bytes@.take(i as int)),
        decreases bytes.len() - i,
    {
        assert(bytes@.take(i + 1).drop_last() =~= bytes@.take(i as int));
        h = h ^ (bytes[i] as u64);
        h = h.wrapping_mul(FNV_PRIME);
        i = i + 1;
    }
    assert(bytes@.take(bytes@.len() as int) =~= bytes@);
    h
}

/// The bytes a track's palette colour is picked by: the title's UTF-8
/// bytes, a zero byte, then the artist's.
pub open spec fn accent_key(title: Seq<char>, artist: Seq<char>) -> Seq<u8> {
    encode_utf8(title) + seq![0u8] + encode_utf8(artist)
}

/// Which of `n` palette colours the track `title` by `artist` keeps: the
/// hash of its key, modulo `n`.
pub fn accent_index(title: &str, artist: &str, n: usize) -> (i: usize)
    requires
        n > 0,
    ensures
        i as int == fnv_hash(accent_key(title@, artist@)) as int % n as int,
        i < n,
{
    let t = title.as_bytes();
    let a = artist.as_bytes();
    let mut key: Vec<u8> = Vec::new();
    let mut i: usize = 0;
    while i < t.len()
        invariant
            i <= t@.len(),
            key@ == t@.take(i as int),
        decreases t.len() - i,
    {
        key.push(t[i]);
        assert(key@ =~= t@.take(i + 1));
        i = i + 1;
    }
    key.push(0u8);
    let ghost head = key@;
    assert(head =~= t@ + seq![0u8]);
    let mut j: usize = 0;
    while j < a.len()
        invariant
            j <= a@.len(),
            key@ == head + a@.take(j as int),
        decreases a.len() - j,
    {
        key.push(a[j]);
        assert(key@ =~= head + a@.take(j + 1));
        j = j + 1;
    }
    assert(key@ =~= accent_key(title@, artist@));
    let h = fnv(&key);
    let m = n as u64;
    let r = h % m;
    r as usize
}

/// An accent colour written as `#rrggbb`.
pub open spec fn rgb_text(r: u8, g: u8, b: u8) -> Seq<char> {
    seq!['#'] + hex2(r) + hex2(g) + hex2(b)
}

/// The colour `(r, g, b)` as `#rrggbb`, lower-case.
pub fn rgb_hex(r: u8, g: u8, b: u8) -> (s: String)
    ensures
        s@ == rgb_text(r, g, b),
{
    let mut s = string_of(&chars_of("#"));
    proof {
        reveal_strlit("#");
    }
    push_chars(&mut s, &hex2_exec(r));
    push_chars(&mut s, &hex2_exec(g));
    push_chars(&mut s, &hex2_exec(b));
    assert(s@ =~= rgb_text(r, g, b));
    s
}

/// The accent used when no colour is known.
pub open spec fn default_accent() -> Seq<char> {
    "#89b4fa"@
}

/// A palette colour as accent text: its `#rrggbb` form when it is an RGB
/// colour (`Some`), the default accent for any other colour (`None`).
pub fn color_to_hex(c: Option<(u8, u8, u8)>) -> (s: String)
    ensures
        s@ == match c {
            Some((r, g, b)) => rgb_text(r, g, b),
            None => default_accent(),
        },
{
    match c {
        Some((r, g, b)) => rgb_hex(r, g, b),
        None => string_of(&chars_of("#89b4fa")),
    }
}

/// A hex digit byte.
pub open spec fn hex_byte(b: u8) -> bool {
    (48 <= b <= 57) || (65 <= b <= 70) || (97 <= b <= 102)
}

/// The value of a hex digit byte.
pub open spec fn hex_value(b: u8) -> nat {
    if 48 <= b <= 57 {
        (b - 48) as nat
    } else if 65 <= b <= 70 {
        (b - 55) as nat
    } else {
        (b - 87) as nat
    }
}

/// Two bytes read as a `u8` in base 16, as `u8::from_str_radix` reads them:
/// two hex digits, or a `+` and one hex digit.
pub open spec fn hex_pair(x: u8, y: u8) -> Option<u8> {
    if hex_byte(x) && hex_byte(y) {
        Some((16 * hex_value(x) + hex_value(y)) as u8)
    } else if x == 43 && hex_byte(y) {
        Some(hex_value(y) as u8)
    } else {
        None
    }
}

/// Byte `i` starts a character of the UTF-8 text `b` (or is its end): it is
/// not a continuation byte.
pub open spec fn char_boundary(b: Seq<u8>, i: int) -> bool {
    i == 0 || i == b.len() || (0 < i < b.len() && !(0x80 <= b[i] < 0xc0))
}

/// The colour a six-byte hex text such as `1e1e2e` names.
pub open spec fn hex6(b: Seq<u8>) -> Option<(u8, u8, u8)> {
    if b.len() != 6 {
        None
    } else {
        match (hex_pair(b[0], b[1]), hex_pair(b[2], b[3]), hex_pair(b[4], b[5])) {
            (Some(r), Some(g), Some(bl)) => Some((r, g, bl)),
            _ => None,
        }
    }
}

/// Reading a six-byte hex text slices it at bytes 2 and 4; each slice that
/// is reached must fall on a character boundary.
pub open spec fn hex6_safe(b: Seq<u8>) -> bool {
    b.len() != 6 || (char_boundary(b, 2) && (hex_pair(b[0], b[1]) is Some ==> char_boundary(b, 4)))
}

fn hex_byte_exec(b: u8) -> (r: bool)
    ensures
        r == hex_byte(b),
{
    (48 <= b && b <= 57) || (65 <= b && b <= 70) || (97 <= b && b <= 102)
}

fn hex_value_exec(b: u8) -> (v: u8)
    requires
        hex_byte(b),
    ensures
        v == hex_value(b),
        v < 16,
{
    if 48 <= b && b <= 57 {
        b - 48
    } else if 65 <= b && b <= 70 {
        b - 55
    } else {
        b - 87
    }
}

fn hex_pair_exec(x: u8, y: u8) -> (r: Option<u8>)
    ensures
        r == hex_pair(x, y),
{
    if hex_byte_exec(x) && hex_byte_exec(y) {
        Some(16 * hex_value_exec(x) + hex_value_exec(y))
    } else if x == 43 && hex_byte_exec(y) {
        Some(hex_value_exec(y))
    } else {
        None
    }
}

/// `b` as two upper-case hex digits, as `format!("{b:02X}")` writes it.
pub open spec fn hex2_upper(b: u8) -> Seq<char> {
    seq![hex_upper((b / 16) as nat), hex_upper((b % 16) as nat)]
}

proof fn lemma_hex_digit_bytes(d: nat)
    requires
        d < 16,
    ensures
        digit_char(d) <= '\u{7f}',
        hex_byte(digit_char(d) as u8),
        hex_value(digit_char(d) as u8) == d,
        hex_upper(d) <= '\u{7f}',
        hex_byte(hex_upper(d) as u8),
        hex_value(hex_upper(d) as u8) == d,
{
}

proof fn lemma_hex6_reads(d: Seq<nat>, t: Seq<char>, upper: bool, r: u8, g: u8, b: u8)
    requires
        d.len() == 6,
        forall|i: int| 0 <= i < 6 ==> #[trigger] d[i] < 16,
        t.len() == 6,
        forall|i: int|
            0 <= i < 6 ==> #[trigger] t[i] == if upper {
                hex_upper(d[i])
            } else {
                digit_char(d[i])
            },
        16 * d[0] + d[1] == r,
        16 * d[2] + d[3] == g,
        16 * d[4] + d[5] == b,
    ensures
        hex6_safe(encode_utf8(t)),
        hex6(encode_utf8(t)) == Some((r, g, b)),
{
    assert forall|i: int| 0 <= i < 6 implies #[trigger] t[i] <= '\u{7f}' && hex_byte(t[i] as u8)
        && hex_value(t[i] as u8) == d[i] by {
        lemma_hex_digit_bytes(d[i]);
    }
    assert(vstd::utf8::is_ascii_chars(t));
    vstd::utf8::is_ascii_chars_encode_utf8(t);
    let e = encode_utf8(t);
    assert(e[0] == t[0] as u8 && e[1] == t[1] as u8 && e[2] == t[2] as u8);
    assert(e[3] == t[3] as u8 && e[4] == t[4] as u8 && e[5] == t[5] as u8);
}

/// Six hex digits as the formatting functions write a colour, lower-case
/// (`{:02x}`, as in `rgb_hex`) or upper-case (`{:02X}`), read back as that
/// colour; the text after the `#` of `rgb_text` is such a text.
pub proof fn lemma_hex6_reads_back(r: u8, g: u8, b: u8)
    ensures
        hex6_safe(encode_utf8(hex2(r) + hex2(g) + hex2(b))),
        hex6(encode_utf8(hex2(r) + hex2(g) + hex2(b))) == Some((r, g, b)),
        hex6_safe(encode_utf8(hex2_upper(r) + hex2_upper(g) + hex2_upper(b))),
        hex6(encode_utf8(hex2_upper(r) + hex2_upper(g) + hex2_upper(b))) == Some((r, g, b)),
        rgb_text(r, g, b).skip(1) == hex2(r) + hex2(g) + hex2(b),
{
    let d: Seq<nat> = seq![
        (r / 16) as nat, (r % 16) as nat,
        (g / 16) as nat, (g % 16) as nat,
        (b / 16) as nat, (b % 16) as nat,
    ];
    let lo = hex2(r) + hex2(g) + hex2(b);
    let up = hex2_upper(r) + hex2_upper(g) + hex2_upper(b);
    assert(lo =~= Seq::new(6, |i: int| digit_char(d[i])));
    assert(up =~= Seq::new(6, |i: int| hex_upper(d[i])));
    assert(d.len() == 6 && d[0] == (r / 16) as nat && d[1] == (r % 16) as nat);
    assert(d[2] == (g / 16) as nat && d[3] == (g % 16) as nat);
    assert(d[4] == (b / 16) as nat && d[5] == (b % 16) as nat);
    assert(16 * d[0] + d[1] == r && 16 * d[2] + d[3] == g && 16 * d[4] + d[5] == b);
    assert(forall|i: int| 0 <= i < 6 ==> #[trigger] d[i] < 16);
    lemma_hex6_reads(d, lo, false, r, g, b);
    lemma_hex6_reads(d, up, true, r, g, b);
    assert(rgb_text(r, g, b).skip(1) =~= lo);
}

/// Whether `parse_hex6` can read `hex` without slicing inside a character.
pub fn hex6_is_safe(hex: &str) -> (r: bool)
    ensures
        r == hex6_safe(encode_utf8(hex@)),
{
    let b = hex.as_bytes();
    if b.len() != 6 {
        return true;
    }
    let cont2 = 0x80 <= b[2] && b[2] < 0xc0;
    let cont4 = 0x80 <= b[4] && b[4] < 0xc0;
    !cont2 && (hex_pair_exec(b[0], b[1]).is_none() || !cont4)
}

/// Reads a six-digit hex colour such as `1e1e2e`.
pub fn parse_hex6(hex: &str) -> (r: Option<(u8, u8, u8)>)
    requires
        hex6_safe(encode_utf8(hex@)),
    ensures
        r == hex6(encode_utf8(hex@)),
{
    let b = hex.as_bytes();
    if b.len() != 6 {
        return None;
    }
    let r = match hex_pair_exec(b[0], b[1]) {
        Some(v) => v,
        None => return None,
    };
    let g = match hex_pair_exec(b[2], b[3]) {
        Some(v) => v,
        None => return None,
    };
    let bl = match hex_pair_exec(b[4], b[5]) {
        Some(v) => v,
        None => return None,
    };
    Some((r, g, bl))
}

/// Where cover art comes from.
pub enum ArtSource {
    /// No art.
    Nothing,
    /// A file on this machine.
    Local(String),
    /// Art to download from `url` into the cache file `file`, unless that
    /// file already exists.
    Download { url: String, file: String },
}

/// The view of an art source.
pub enum ArtView {
    Nothing,
    Local(Seq<char>),
    Download(Seq<char>, Seq<char>),
}

/// The view of an art source.
pub open spec fn art_view(a: ArtSource) -> ArtView {
    match a {
        ArtSource::Nothing => ArtView::Nothing,
        ArtSource::Local(p) => ArtView::Local(p@),
        ArtSource::Download { url, file } => ArtView::Download(url@, file@),
    }
}

/// The directory that caches downloaded cover art.
pub open spec fn art_dir() -> Seq<char> {
    "/tmp/lyrics-art"@
}

/// The cache file of downloaded art: the hash of its URL in hex.
pub open spec fn art_file(url: Seq<char>) -> Seq<char> {
    art_dir() + "/"@ + digits(fnv_hash(encode_utf8(url)) as nat, 16) + ".img"@
}

/// Where the art named by an MPRIS `artUrl` comes from.
pub open spec fn art_source(url: Seq<char>) -> ArtView {
    if url.len() == 0 {
        ArtView::Nothing
    } else if starts_with(url, "file://"@) {
        ArtView::Local(url.skip(7))
    } else if !starts_with(url, "http"@) {
        ArtView::Local(url)
    } else {
        ArtView::Download(url, art_file(url))
    }
}

/// Returns where the cover comes from: `file://` URLs and bare paths are
/// used directly, http(s) art is downloaded into /tmp/lyrics-art once.
pub fn resolve_art(url: &str) -> (a: ArtSource)
    ensures
        art_view(a) == art_source(url@),
{
    proof {
        reveal_strlit("file://");
    }
    let u = chars_of(url);
    if u.len() == 0 {
        return ArtSource::Nothing;
    }
    if starts_with_exec(&u, &chars_of("file://")) {
        return ArtSource::Local(string_of(&copy_range(&u, 7, u.len())));
    }
    if !starts_with_exec(&u, &chars_of("http")) {
        return ArtSource::Local(string_of(&u));
    }
    let mut file = string_of(&chars_of("/tmp/lyrics-art"));
    file.append("/");
    push_chars(&mut file, &digits_exec(fnv(url.as_bytes()), 16));
    file.append(".img");
    ArtSource::Download { url: string_of(&u), file }
}

/// The lines of plain lyrics that are not blank, in order.
pub open spec fn nonblank(ls: Seq<Seq<char>>) -> Seq<Seq<char>>
    decreases ls.len(),
{
    if ls.len() == 0 {
        Seq::empty()
    } else {
        nonblank(ls.drop_last()) + if trim(ls.last()).len() == 0 {
            Seq::<Seq<char>>::empty()
        } else {
            seq![ls.last()]
        }
    }
}

/// A line that is not blank.
pub open spec fn shows(l: Seq<char>) -> bool {
    trim(l).len() > 0
}

/// The lines kept are exactly the lines that are not blank, each as it
/// stands and in order, repeated lines included: every non-blank line is
/// kept and no blank one.
pub proof fn lemma_nonblank_keeps_every_line(ls: Seq<Seq<char>>)
    ensures
        nonblank(ls) == ls.filter(|l: Seq<char>| shows(l)),
        forall|i: int| 0 <= i < ls.len() && shows(ls[i]) ==> nonblank(ls).contains(#[trigger] ls[i]),
        forall|i: int| 0 <= i < nonblank(ls).len() ==> shows(#[trigger] nonblank(ls)[i]),
    decreases ls.len(),
{
    reveal(Seq::filter);
    if ls.len() > 0 {
        lemma_nonblank_keeps_every_line(ls.drop_last());
        let f = ls.filter(|l: Seq<char>| shows(l));
        assert(f == {
            let sub = ls.drop_last().filter(|l: Seq<char>| shows(l));
            if shows(ls.last()) { sub.push(ls.last()) } else { sub }
        });
        if shows(ls.last()) {
            assert(nonblank(ls) =~= nonblank(ls.drop_last()).push(ls.last()));
        } else {
            assert(nonblank(ls) =~= nonblank(ls.drop_last()));
        }
    }
    let pred = |l: Seq<char>| shows(l);
    assert forall|i: int| 0 <= i < ls.len() && shows(ls[i]) implies nonblank(ls).contains(#[trigger] ls[i]) by {
        ls.lemma_filter_contains(pred, i);
    }
    assert forall|i: int| 0 <= i < nonblank(ls).len() implies shows(#[trigger] nonblank(ls)[i]) by {
        ls.lemma_filter_pred(pred, i);
    }
}

/// The lines of plain lyrics worth showing: every line that is not blank,
/// as written.
pub fn plain_lines(text: &str) -> (r: Vec<String>)
    ensures
        r@.map_values(|s: String| s@) == nonblank(lines(text@)),
        r@.map_values(|s: String| s@) == lines(text@).filter(|l: Seq<char>| shows(l)),
{
    let ls = lines_exec(&chars_of(text));
    let mut r: Vec<String> = Vec::new();
    let mut i: usize = 0;
    while i < ls.len()
        invariant
            i <= ls@.len(),
            views(ls@) == lines(text@),
            r@.map_values(|s: String| s@) == nonblank(views(ls@).take(i as int)),
        decreases ls.len() - i,
    {
        assert(views(ls@).take(i + 1).drop_last() =~= views(ls@).take(i as int));
        let ghost before = r@.map_values(|s: String| s@);
        if !is_blank(&ls[i]) {
            let s = string_of(&ls[i]);
            r.push(s);
            assert(r@.map_values(|s: String| s@) =~= before.push(ls@[i as int]@));
        } else {
            assert(before + Seq::<Seq<char>>::empty() =~= before);
        }
        i = i + 1;
    }
    assert(views(ls@).take(ls@.len() as int) =~= views(ls@));
    proof {
        lemma_nonblank_keeps_every_line(lines(text@));
    }
    r
}

/// The second `#`-separated field of a histogram line, if the line has a
/// `#`: what lies between the first `#` and the next one (or the end).
pub open spec fn hash_field(line: Seq<char>) -> Option<Seq<char>> {
    match find_from(line, seq!['#'], 0) {
        None => None,
        Some(i) => {
            let rest = line.skip(i + 1);
            match find_from(rest, seq!['#'], 0) {
                Some(j) => Some(rest.take(j)),
                None => Some(rest),
            }
        },
    }
}

/// Taking the first six bytes of the field never cuts into a character.
pub open spec fn histogram_safe(line: Seq<char>) -> bool {
    match hash_field(line) {
        None => true,
        Some(f) => byte_window(f, 0, 6) is Some,
    }
}

/// The colour text of an ImageMagick histogram line such as
/// `  1234: (r,g,b) #RRGGBB srgb(...)`: the first six bytes after the first
/// `#`, up to the next `#`; empty when there is no `#`.
pub open spec fn histogram_hex_text(line: Seq<char>) -> Seq<char> {
    match hash_field(line) {
        None => Seq::empty(),
        Some(f) => match byte_window(f, 0, 6) {
            Some(m) => f.take(m),
            None => Seq::empty(),
        },
    }
}

fn hash_field_exec(line: &[char]) -> (r: Option<Vec<char>>)
    ensures
        match r {
            Some(f) => hash_field(line@) == Some(f@),
            None => hash_field(line@) is None,
        },
{
    let mut hash: Vec<char> = Vec::new();
    hash.push('#');
    assert(hash@ =~= seq!['#']);
    match find_from_exec(line, &hash, 0) {
        None => None,
        Some(i) => {
            proof {
                lemma_find_from(line@, seq!['#'], 0);
                assert(seq!['#'].len() == 1);
            }
            assert(i < line.len());
            let rest = copy_range(line, i + 1, line.len());
            assert(rest@ =~= line@.skip(i + 1));
            match find_from_exec(&rest, &hash, 0) {
                Some(j) => {
                    proof {
                        lemma_find_from(rest@, seq!['#'], 0);
                    }
                    let f = copy_range(&rest, 0, j);
                    assert(f@ =~= rest@.take(j as int));
                    Some(f)
                },
                None => Some(rest),
            }
        },
    }
}

/// Whether `histogram_hex` can cut six bytes off the line's colour field
/// without cutting into a character.
pub fn histogram_hex_is_safe(line: &str) -> (b: bool)
    ensures
        b == histogram_safe(line@),
{
    match hash_field_exec(&chars_of(line)) {
        None => true,
        Some(f) => byte_window_exec(&f, 0, 6).is_some(),
    }
}

/// The colour text of an ImageMagick histogram line: at most six bytes
/// after the first `#`.
pub fn histogram_hex(line: &str) -> (hex: String)
    requires
        histogram_safe(line@),
    ensures
        hex@ == histogram_hex_text(line@),
{
    match hash_field_exec(&chars_of(line)) {
        None => String::new(),
        Some(f) => match byte_window_exec(&f, 0, 6) {
            Some(m) => {
                let t = copy_range(&f, 0, m);
                assert(t@ =~= f@.take(m as int));
                string_of(&t)
            },
            None => String::new(),
        },
    }
}

} // verus!

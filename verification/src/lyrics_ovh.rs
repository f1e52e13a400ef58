//! lyrics.ovh: a plain-text fallback — no auth, no sync, decent coverage
//! for English and European pop.
use vstd::prelude::*;

use vstd::utf8::{decode_utf8, encode_utf8};

use crate::text::{chars_of, is_blank, push_char, string_of, trim};

verus! {

/// Bytes that a URL path segment carries as they are.
pub open spec fn unreserved(b: u8) -> bool {
    (65 <= b <= 90) || (97 <= b <= 122) || (48 <= b <= 57) || b == 45 || b == 95 || b == 46
        || b == 126
}

/// An upper-case hex digit.
pub open spec fn hex_upper(d: nat) -> char {
    if d < 10 {
        (48 + d) as char
    } else {
        (55 + d) as char
    }
}

/// One byte of a URL path segment: as it is when unreserved, else `%XX`.
pub open spec fn encode_byte(b: u8) -> Seq<char> {
    if unreserved(b) {
        seq![b as char]
    } else {
        seq!['%', hex_upper((b / 16) as nat), hex_upper((b % 16) as nat)]
    }
}

/// Percent-encoding of a byte string.
pub open spec fn url_encode(bs: Seq<u8>) -> Seq<char>
    decreases bs.len(),
{
    if bs.len() == 0 {
        Seq::empty()
    } else {
        url_encode(bs.drop_last()) + encode_byte(bs.last())
    }
}

/// The value of an upper-case hex digit.
pub open spec fn hex_upper_value(c: char) -> int {
    if c <= '9' {
        c as int - 48
    } else {
        c as int - 55
    }
}

/// A character that percent-encoding writes: an unreserved byte's own
/// character, `%`, or an upper-case hex digit.
pub open spec fn url_char(c: char) -> bool {
    (c as int) < 128 && (unreserved(c as u8) || c == '%' || ('0' <= c <= '9') || ('A' <= c <= 'F'))
}

/// Percent-decoding, read from the end: a `%` three characters before the
/// end starts the last escape; any other last character stands for its own
/// byte.
pub open spec fn url_decode(cs: Seq<char>) -> Seq<u8>
    decreases cs.len(),
{
    if cs.len() == 0 {
        Seq::empty()
    } else if cs.len() >= 3 && cs[cs.len() - 3] == '%' {
        url_decode(cs.take(cs.len() - 3)).push(
            (hex_upper_value(cs[cs.len() - 2]) * 16 + hex_upper_value(cs[cs.len() - 1])) as u8,
        )
    } else {
        url_decode(cs.drop_last()).push(cs.last() as u8)
    }
}

proof fn lemma_url_encode_tail(bs: Seq<u8>)
    ensures
        url_encode(bs).len() >= 1 ==> url_encode(bs).last() != '%',
        url_encode(bs).len() >= 2 ==> url_encode(bs)[url_encode(bs).len() - 2] != '%',
        forall|i: int| 0 <= i < url_encode(bs).len() ==> url_char(#[trigger] url_encode(bs)[i]),
    decreases bs.len(),
{
    if bs.len() > 0 {
        let p = bs.drop_last();
        lemma_url_encode_tail(p);
        let b = bs.last();
        let x = url_encode(p);
        let e = url_encode(bs);
        assert(e == x + encode_byte(b));
        assert(b / 16 < 16 && b % 16 < 16);
        assert forall|i: int| 0 <= i < e.len() implies url_char(#[trigger] e[i]) by {
            if i >= x.len() {
                let k = i - x.len();
                if unreserved(b) {
                    assert(e[i] == b as char);
                } else if k == 0 {
                    assert(e[i] == '%');
                } else if k == 1 {
                    assert(e[i] == hex_upper((b / 16) as nat));
                } else {
                    assert(e[i] == hex_upper((b % 16) as nat));
                }
            } else {
                assert(e[i] == x[i]);
            }
        }
        if e.len() >= 2 && !unreserved(b) {
            assert(e[e.len() - 2] == hex_upper((b / 16) as nat));
        }
        if e.len() >= 2 && unreserved(b) {
            assert(e[e.len() - 2] == x.last());
        }
    }
}

/// Percent-decoding gives back the bytes that were encoded.
pub proof fn lemma_url_decode_encode(bs: Seq<u8>)
    ensures
        url_decode(url_encode(bs)) == bs,
    decreases bs.len(),
{
    if bs.len() > 0 {
        let p = bs.drop_last();
        lemma_url_decode_encode(p);
        lemma_url_encode_tail(p);
        let b = bs.last();
        let x = url_encode(p);
        let e = url_encode(bs);
        assert(e == x + encode_byte(b));
        if unreserved(b) {
            if e.len() >= 3 {
                assert(e[e.len() - 3] == x[x.len() - 2]);
            }
            assert(e.drop_last() =~= x);
            assert(e.last() == b as char);
            assert((b as char) as u8 == b);
        } else {
            assert(e[e.len() - 3] == '%');
            assert(e.take(e.len() - 3) =~= x);
            let hi = hex_upper((b / 16) as nat);
            let lo = hex_upper((b % 16) as nat);
            assert(hex_upper_value(hi) == b / 16);
            assert(hex_upper_value(lo) == b % 16);
        }
        assert(url_decode(e) =~= bs);
    }
}

/// The encoding of a text is ASCII over the unreserved characters, `%` and
/// upper-case hex digits, and decoding it as percent-escapes and then as
/// UTF-8 gives back the text: different texts never share an encoding.
pub proof fn lemma_urlencoding_round_trip(s: Seq<char>, t: Seq<char>)
    ensures
        forall|i: int|
            0 <= i < url_encode(encode_utf8(s)).len() ==> url_char(
                #[trigger] url_encode(encode_utf8(s))[i],
            ),
        decode_utf8(url_decode(url_encode(encode_utf8(s)))) == s,
        url_encode(encode_utf8(s)) == url_encode(encode_utf8(t)) ==> s == t,
{
    lemma_url_encode_tail(encode_utf8(s));
    lemma_url_decode_encode(encode_utf8(s));
    lemma_url_decode_encode(encode_utf8(t));
    vstd::utf8::encode_utf8_decode_utf8(s);
    vstd::utf8::encode_utf8_decode_utf8(t);
}

/// An ASCII letter or digit, `-`, `_`, `.` or `~`.
pub open spec fn ascii_unreserved(b: u8) -> bool {
    let c = b as char;
    ('A' <= c <= 'Z') || ('a' <= c <= 'z') || ('0' <= c <= '9') || c == '-' || c == '_' || c == '.'
        || c == '~'
}

/// Each byte is written on its own: ASCII letters, digits and `-_.~` as
/// themselves, every other byte as `%` and two upper-case hex digits whose
/// value is the byte; the encoding of a byte string is the encodings of
/// its bytes one after the other.
pub proof fn lemma_url_encode_bytes(a: Seq<u8>, b: u8)
    ensures
        url_encode(a.push(b)) == url_encode(a) + url_encode(seq![b]),
        ascii_unreserved(b) ==> url_encode(seq![b]) == seq![b as char],
        !ascii_unreserved(b) ==> {
            let e = url_encode(seq![b]);
            &&& e.len() == 3
            &&& e[0] == '%'
            &&& ('0' <= e[1] <= '9' || 'A' <= e[1] <= 'F') && ('0' <= e[2] <= '9' || 'A' <= e[2] <= 'F')
            &&& hex_upper_value(e[1]) * 16 + hex_upper_value(e[2]) == b
        },
{
    assert(a.push(b).drop_last() =~= a);
    assert(seq![b].drop_last() =~= Seq::<u8>::empty());
    assert(seq![b].last() == b);
    assert(url_encode(Seq::<u8>::empty()) =~= Seq::<char>::empty());
    assert(Seq::<char>::empty() + encode_byte(b) =~= encode_byte(b));
    assert(url_encode(seq![b]) =~= encode_byte(b));
    assert(b / 16 < 16 && b % 16 < 16);
}

fn hex_upper_exec(d: u8) -> (c: char)
    requires
        d < 16,
    ensures
        c == hex_upper(d as nat),
{
    if d < 10 {
        (48 + d) as char
    } else {
        (55 + d) as char
    }
}

/// Percent-encodes the UTF-8 bytes of `s` for use in a URL path: ASCII
/// letters, digits and `-_.~` stay, every other byte becomes `%XX`.
pub fn urlencoding(s: &str) -> (r: String)
    ensures
        r@ == url_encode(encode_utf8(s@)),
{
    let bytes = s.as_bytes();
    let mut out = String::new();
    let mut i: usize = 0;
    while i < bytes.len()
        invariant
            i <= bytes@.len(),
            bytes@ == encode_utf8(s@),
            out@ == url_encode(bytes@.take(i as int)),
        decreases bytes.len() - i,
    {
        let b = bytes[i];
        assert(bytes@.take(i + 1).drop_last() =~= bytes@.take(i as int));
        let ghost before = out@;
        if (65 <= b && b <= 90) || (97 <= b && b <= 122) || (48 <= b && b <= 57) || b == 45 || b
            == 95 || b == 46 || b == 126 {
            push_char(&mut out, b as char);
        } else {
            push_char(&mut out, '%');
            push_char(&mut out, hex_upper_exec(b / 16));
            push_char(&mut out, hex_upper_exec(b % 16));
        }
        assert(out@ =~= before + encode_byte(b));
        i = i + 1;
    }
    assert(bytes@.take(bytes@.len() as int) =~= bytes@);
    out
}

/// What the lyrics.ovh lookup has heard back so far.
pub enum OvhReply {
    /// Nothing yet: the lookup starts.
    Start,
    /// The server answered with a status other than success.
    Refused,
    /// The `lyrics` field of a successful reply.
    Lyrics(Option<String>),
}

/// What the lyrics.ovh lookup asks for next.
pub enum OvhStep {
    /// Fetch `url`.
    Get { url: String },
    /// The lookup is over, with these plain lyrics or none.
    Done(Option<String>),
}

/// The lyrics.ovh address of a song.
pub open spec fn song_url(title: Seq<char>, artist: Seq<char>) -> Seq<char> {
    "https://api.lyrics.ovh/v1/"@ + url_encode(encode_utf8(artist)) + "/"@ + url_encode(
        encode_utf8(title),
    )
}

/// Plain-text fallback via lyrics.ovh — no auth, no sync, decent coverage
/// for English/European pop. Returns None if not found or response is
/// empty.
///
/// One call decides one step: from `Start` it asks for the song's address;
/// a refused request means no lyrics; a reply yields its lyrics unless they
/// are missing or blank.
pub fn fetch(title: &str, artist: &str, reply: OvhReply) -> (step: OvhStep)
    ensures
        match reply {
            OvhReply::Start => step matches OvhStep::Get { url } && url@ == song_url(title@, artist@),
            OvhReply::Refused => step matches OvhStep::Done(None),
            OvhReply::Lyrics(None) => step matches OvhStep::Done(None),
            OvhReply::Lyrics(Some(l)) => if trim(l@).len() == 0 {
                step matches OvhStep::Done(None)
            } else {
                step matches OvhStep::Done(Some(r)) && r@ == l@
            },
        },
{
    match reply {
        OvhReply::Start => {
            let mut url = string_of(&chars_of("https://api.lyrics.ovh/v1/"));
            url.append(urlencoding(artist).as_str());
            url.append("/");
            url.append(urlencoding(title).as_str());
            OvhStep::Get { url }
        },
        OvhReply::Refused => OvhStep::Done(None),
        OvhReply::Lyrics(None) => OvhStep::Done(None),
        OvhReply::Lyrics(Some(l)) => {
            if is_blank(&chars_of(l.as_str())) {
                OvhStep::Done(None)
            } else {
                OvhStep::Done(Some(l))
            }
        },
    }
}

} // verus!

//! Choosing the media player to follow among the D-Bus names on the
//! session bus.
use vstd::prelude::*;

use crate::text::{chars_of, contains, contains_exec, starts_with, starts_with_exec};

verus! {

/// The bus-name prefix of MPRIS players.
pub open spec fn mpris_prefix() -> Seq<char> {
    "org.mpris.MediaPlayer2."@
}

/// The MPRIS players among the bus names, in bus order.
pub open spec fn players(names: Seq<Seq<char>>) -> Seq<Seq<char>>
    decreases names.len(),
{
    if names.len() == 0 {
        Seq::empty()
    } else {
        players(names.drop_last()) + if starts_with(names.last(), mpris_prefix()) {
            seq![names.last()]
        } else {
            Seq::<Seq<char>>::empty()
        }
    }
}

/// The first of `ps` whose name contains `spotify`.
pub open spec fn first_spotify(ps: Seq<Seq<char>>) -> Option<int>
    decreases ps.len(),
{
    if ps.len() == 0 {
        None
    } else if contains(ps[0], "spotify"@) {
        Some(0)
    } else {
        match first_spotify(ps.drop_first()) {
            Some(i) => Some(i + 1),
            None => None,
        }
    }
}

/// The player to follow: the first Spotify player, else the first MPRIS
/// player, else none.
pub open spec fn chosen_player(names: Seq<Seq<char>>) -> Option<Seq<char>> {
    let ps = players(names);
    match first_spotify(ps) {
        Some(i) => Some(ps[i]),
        None => if ps.len() > 0 {
            Some(ps[0])
        } else {
            None
        },
    }
}

/// `first_spotify` finds a position of the list.
pub proof fn lemma_first_spotify(ps: Seq<Seq<char>>)
    ensures
        first_spotify(ps) matches Some(i) ==> 0 <= i < ps.len() && contains(ps[i], "spotify"@),
    decreases ps.len(),
{
    if ps.len() > 0 && !contains(ps[0], "spotify"@) {
        lemma_first_spotify(ps.drop_first());
    }
}

/// Picks the MPRIS player to follow out of the names on the session bus:
/// Spotify when it runs, else the first player; `None` when there is no
/// player.
pub fn pick_player(names: Vec<String>) -> (r: Option<String>)
    ensures
        match r {
            Some(n) => chosen_player(names@.map_values(|s: String| s@)) == Some(n@),
            None => chosen_player(names@.map_values(|s: String| s@)) is None,
        },
{
    let ghost all = names@.map_values(|s: String| s@);
    let prefix = chars_of("org.mpris.MediaPlayer2.");
    let spotify = chars_of("spotify");
    let mut ps: Vec<String> = Vec::new();
    let mut names = names;
    let ghost start = names@;
    let n = names.len();
    let mut i: usize = 0;
    while names.len() > 0
        invariant
            n == start.len(),
            all == start.map_values(|s: String| s@),
            i <= n,
            names@ == start.skip(i as int),
            prefix@ == mpris_prefix(),
            ps@.map_values(|s: String| s@) == players(all.take(i as int)),
        decreases names.len(),
    {
        let name = names.remove(0);
        assert(all.take(i + 1).drop_last() =~= all.take(i as int));
        assert(all[i as int] == name@);
        assert(names@ =~= start.skip(i + 1));
        let ghost before = ps@.map_values(|s: String| s@);
        if starts_with_exec(&chars_of(name.as_str()), &prefix) {
            ps.push(name);
            assert(ps@.map_values(|s: String| s@) =~= before.push(all[i as int]));
        } else {
            assert(before + Seq::<Seq<char>>::empty() =~= before);
        }
        i = i + 1;
    }
    assert(all.take(n as int) =~= all);
    let ghost pv = ps@.map_values(|s: String| s@);
    assert(pv.skip(0) =~= pv);
    let mut k: usize = 0;
    let mut found: Option<usize> = None;
    while k < ps.len()
        invariant_except_break
            found is None,
        invariant
            k <= ps@.len(),
            pv == ps@.map_values(|s: String| s@),
            spotify@ == "spotify"@,
            first_spotify(pv) == match first_spotify(pv.skip(k as int)) {
                Some(j) => Some(j + k),
                None => None::<int>,
            },
        ensures
            match found {
                Some(j) => first_spotify(pv) == Some(j as int),
                None => first_spotify(pv) is None,
            },
        decreases ps.len() - k,
    {
        assert(pv.skip(k as int)[0] == pv[k as int]);
        assert(pv.skip(k as int).drop_first() =~= pv.skip(k + 1));
        if contains_exec(&chars_of(ps[k].as_str()), &spotify) {
            found = Some(k);
            break;
        }
        k = k + 1;
    }
    proof {
        lemma_first_spotify(pv);
    }
    match found {
        Some(j) => Some(ps.remove(j)),
        None => if ps.len() > 0 {
            Some(ps.remove(0))
        } else {
            None
        },
    }
}

} // verus!

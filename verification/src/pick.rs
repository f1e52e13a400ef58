//! Picking the best-scoring candidate out of a search result list.
use vstd::prelude::*;

verus! {

/// Scores as integers.
pub open spec fn ints(s: Seq<u64>) -> Seq<int> {
    s.map_values(|x: u64| x as int)
}

/// The position of the highest score, the last one among equals, as
/// `Iterator::max_by_key` picks it.
pub open spec fn last_max(s: Seq<int>) -> Option<int>
    decreases s.len(),
{
    if s.len() == 0 {
        None
    } else {
        match last_max(s.drop_last()) {
            None => Some(s.len() - 1),
            Some(b) => if s.last() >= s[b] {
                Some(s.len() - 1)
            } else {
                Some(b)
            },
        }
    }
}

/// The position of the highest score, the first one among equals.
pub open spec fn first_max(s: Seq<int>) -> Option<int>
    decreases s.len(),
{
    if s.len() == 0 {
        None
    } else {
        match first_max(s.drop_last()) {
            None => Some(s.len() - 1),
            Some(b) => if s.last() > s[b] {
                Some(s.len() - 1)
            } else {
                Some(b)
            },
        }
    }
}

/// `last_max` finds a highest score, and nothing after it scores as high.
pub proof fn lemma_last_max(s: Seq<int>)
    ensures
        match last_max(s) {
            None => s.len() == 0,
            Some(i) => 0 <= i < s.len() && (forall|j: int| 0 <= j < s.len() ==> s[j] <= s[i])
                && (forall|j: int| i < j < s.len() ==> s[j] < s[i]),
        },
    decreases s.len(),
{
    if s.len() > 0 {
        lemma_last_max(s.drop_last());
        assert forall|j: int| 0 <= j < s.len() - 1 implies s[j] == s.drop_last()[j] by {}
    }
}

/// `first_max` finds a highest score, and nothing before it scores as high.
pub proof fn lemma_first_max(s: Seq<int>)
    ensures
        match first_max(s) {
            None => s.len() == 0,
            Some(i) => 0 <= i < s.len() && (forall|j: int| 0 <= j < s.len() ==> s[j] <= s[i])
                && (forall|j: int| 0 <= j < i ==> s[j] < s[i]),
        },
    decreases s.len(),
{
    if s.len() > 0 {
        lemma_first_max(s.drop_last());
        assert forall|j: int| 0 <= j < s.len() - 1 implies s[j] == s.drop_last()[j] by {}
    }
}

/// The position of the highest score, the last one among equals.
pub fn last_max_exec(s: &[u64]) -> (r: Option<usize>)
    ensures
        match r {
            Some(i) => last_max(ints(s@)) == Some(i as int) && i < s@.len(),
            None => last_max(ints(s@)) is None,
        },
{
    let mut best: Option<usize> = None;
    let mut i: usize = 0;
    while i < s.len()
        invariant
            i <= s@.len(),
            match best {
                Some(b) => last_max(ints(s@.take(i as int))) == Some(b as int) && b < i,
                None => last_max(ints(s@.take(i as int))) is None,
            },
        decreases s.len() - i,
    {
        assert(ints(s@.take(i + 1)).drop_last() =~= ints(s@.take(i as int)));
        best = match best {
            None => Some(i),
            Some(b) => if s[i] >= s[b] {
                Some(i)
            } else {
                Some(b)
            },
        };
        i = i + 1;
    }
    assert(ints(s@.take(s@.len() as int)) =~= ints(s@));
    best
}

/// The position of the highest score, the first one among equals.
pub fn first_max_exec(s: &[u64]) -> (r: Option<usize>)
    ensures
        match r {
            Some(i) => first_max(ints(s@)) == Some(i as int) && i < s@.len(),
            None => first_max(ints(s@)) is None,
        },
{
    let mut best: Option<usize> = None;
    let mut i: usize = 0;
    while i < s.len()
        invariant
            i <= s@.len(),
            match best {
                Some(b) => first_max(ints(s@.take(i as int))) == Some(b as int) && b < i,
                None => first_max(ints(s@.take(i as int))) is None,
            },
        decreases s.len() - i,
    {
        assert(ints(s@.take(i + 1)).drop_last() =~= ints(s@.take(i as int)));
        best = match best {
            None => Some(i),
            Some(b) => if s[i] > s[b] {
                Some(i)
            } else {
                Some(b)
            },
        };
        i = i + 1;
    }
    assert(ints(s@.take(s@.len() as int)) =~= ints(s@));
    best
}

} // verus!

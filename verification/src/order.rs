//! The comparator of the projection: lexicographic byte order on song
//! titles, numeric order on durations, backing order, and in every case a
//! backing-index tie break that makes the order total and the sort stable.

use vstd::prelude::*;
use core::cmp::Ordering;
use crate::song::{Song, SortingMethod};

verus! {

/// Strict lexicographic order on byte sequences: a proper prefix comes
/// first, otherwise the first differing byte decides.
pub open spec fn lex_lt(a: Seq<u8>, b: Seq<u8>) -> bool
    decreases a.len(),
{
    if b.len() == 0 {
        false
    } else if a.len() == 0 {
        true
    } else if a[0] < b[0] {
        true
    } else if a[0] > b[0] {
        false
    } else {
        lex_lt(a.drop_first(), b.drop_first())
    }
}

pub proof fn lemma_lex_irreflexive(a: Seq<u8>)
    ensures
        !lex_lt(a, a),
    decreases a.len(),
{
    if a.len() > 0 {
        lemma_lex_irreflexive(a.drop_first());
    }
}

pub proof fn lemma_lex_connected(a: Seq<u8>, b: Seq<u8>)
    requires
        !lex_lt(a, b),
        !lex_lt(b, a),
    ensures
        a == b,
    decreases a.len(),
{
    if a.len() == 0 || b.len() == 0 {
        assert(a =~= b);
    } else {
        lemma_lex_connected(a.drop_first(), b.drop_first());
        assert(a =~= seq![a[0]] + a.drop_first());
        assert(b =~= seq![b[0]] + b.drop_first());
        assert(a =~= b);
    }
}

pub proof fn lemma_lex_asymmetric(a: Seq<u8>, b: Seq<u8>)
    requires
        lex_lt(a, b),
    ensures
        !lex_lt(b, a),
    decreases a.len(),
{
    if a.len() > 0 && b.len() > 0 && a[0] == b[0] {
        lemma_lex_asymmetric(a.drop_first(), b.drop_first());
    }
}

pub proof fn lemma_lex_transitive(a: Seq<u8>, b: Seq<u8>, c: Seq<u8>)
    requires
        lex_lt(a, b),
        lex_lt(b, c),
    ensures
        lex_lt(a, c),
    decreases a.len(),
{
    if a.len() > 0 && b.len() > 0 && c.len() > 0 && a[0] == b[0] && b[0] == c[0] {
        lemma_lex_transitive(a.drop_first(), b.drop_first(), c.drop_first());
    }
}

/// Under a common prefix of length `k`, the lexicographic order is decided
/// by the remainders.
pub proof fn lemma_lex_skip_prefix(a: Seq<u8>, b: Seq<u8>, k: int)
    requires
        0 <= k <= a.len(),
        k <= b.len(),
        forall|t: int| 0 <= t < k ==> a[t] == b[t],
    ensures
        lex_lt(a, b) <==> lex_lt(a.skip(k), b.skip(k)),
    decreases k,
{
    if k == 0 {
        assert(a.skip(0) =~= a);
        assert(b.skip(0) =~= b);
    } else {
        assert(a[0] == b[0]);
        lemma_lex_skip_prefix(a.drop_first(), b.drop_first(), k - 1);
        assert(a.drop_first().skip(k - 1) =~= a.skip(k));
        assert(b.drop_first().skip(k - 1) =~= b.skip(k));
    }
}

/// Compare two byte strings; the result is exactly the lexicographic order.
pub fn compare_bytes(a: &Vec<u8>, b: &Vec<u8>) -> (r: Ordering)
    ensures
        r == Ordering::Less <==> lex_lt(a@, b@),
        r == Ordering::Greater <==> lex_lt(b@, a@),
        r == Ordering::Equal <==> a@ == b@,
{
    let mut k: usize = 0;
    while k < a.len() && k < b.len()
        invariant
            k <= a.len(),
            k <= b.len(),
            forall|t: int| 0 <= t < k ==> a@[t] == b@[t],
        decreases a.len() - k,
    {
        if a[k] < b[k] {
            proof {
                let ki = k as int;
                lemma_lex_skip_prefix(a@, b@, ki);
                lemma_lex_skip_prefix(b@, a@, ki);
                assert(a@.skip(ki)[0] == a@[ki]);
                assert(b@.skip(ki)[0] == b@[ki]);
                assert(lex_lt(a@.skip(ki), b@.skip(ki)));
                assert(!lex_lt(b@.skip(ki), a@.skip(ki)));
            }
            return Ordering::Less;
        }
        if a[k] > b[k] {
            proof {
                let ki = k as int;
                lemma_lex_skip_prefix(a@, b@, ki);
                lemma_lex_skip_prefix(b@, a@, ki);
                assert(a@.skip(ki)[0] == a@[ki]);
                assert(b@.skip(ki)[0] == b@[ki]);
                assert(lex_lt(b@.skip(ki), a@.skip(ki)));
                assert(!lex_lt(a@.skip(ki), b@.skip(ki)));
            }
            return Ordering::Greater;
        }
        k += 1;
    }
    if a.len() < b.len() {
        proof {
            let ki = a@.len() as int;
            lemma_lex_skip_prefix(a@, b@, ki);
            lemma_lex_skip_prefix(b@, a@, ki);
            assert(a@.skip(ki).len() == 0);
            assert(b@.skip(ki).len() > 0);
            assert(lex_lt(a@.skip(ki), b@.skip(ki)));
            assert(!lex_lt(b@.skip(ki), a@.skip(ki)));
        }
        Ordering::Less
    } else if a.len() > b.len() {
        proof {
            let ki = b@.len() as int;
            lemma_lex_skip_prefix(a@, b@, ki);
            lemma_lex_skip_prefix(b@, a@, ki);
            assert(b@.skip(ki).len() == 0);
            assert(a@.skip(ki).len() > 0);
            assert(lex_lt(b@.skip(ki), a@.skip(ki)));
            assert(!lex_lt(a@.skip(ki), b@.skip(ki)));
        }
        Ordering::Greater
    } else {
        proof {
            assert(a@ =~= b@);
            lemma_lex_irreflexive(a@);
        }
        Ordering::Equal
    }
}

/// The primary sort key of `method` orders backing index `i` strictly before
/// `j`.
pub open spec fn song_key_lt(songs: Seq<Song>, method: SortingMethod, i: int, j: int) -> bool {
    match method {
        SortingMethod::Index => i < j,
        SortingMethod::Title => lex_lt(songs[i].title@, songs[j].title@),
        SortingMethod::Duration => songs[i].duration < songs[j].duration,
    }
}

/// The primary sort key of `method` does not distinguish backing indices
/// `i` and `j`.
pub open spec fn song_key_eq(songs: Seq<Song>, method: SortingMethod, i: int, j: int) -> bool {
    match method {
        SortingMethod::Index => i == j,
        SortingMethod::Title => songs[i].title@ == songs[j].title@,
        SortingMethod::Duration => songs[i].duration == songs[j].duration,
    }
}

/// The total strict order a projection is sorted by: the primary key of the
/// active sorting method, ties broken by backing index.  Breaking ties by
/// index is what makes the projection stable.
pub open spec fn proj_lt(songs: Seq<Song>, method: SortingMethod, i: int, j: int) -> bool {
    song_key_lt(songs, method, i, j) || (song_key_eq(songs, method, i, j) && i < j)
}

pub proof fn lemma_proj_lt_total(songs: Seq<Song>, method: SortingMethod, i: int, j: int)
    requires
        0 <= i < songs.len(),
        0 <= j < songs.len(),
    ensures
        i == j ==> !proj_lt(songs, method, i, j),
        i != j ==> (proj_lt(songs, method, i, j) <==> !proj_lt(songs, method, j, i)),
{
    if method == SortingMethod::Title {
        lemma_lex_irreflexive(songs[i].title@);
        if lex_lt(songs[i].title@, songs[j].title@) {
            lemma_lex_asymmetric(songs[i].title@, songs[j].title@);
        }
        if !lex_lt(songs[i].title@, songs[j].title@) && !lex_lt(songs[j].title@, songs[i].title@) {
            lemma_lex_connected(songs[i].title@, songs[j].title@);
        }
    }
}

pub proof fn lemma_proj_lt_transitive(
    songs: Seq<Song>,
    method: SortingMethod,
    i: int,
    j: int,
    k: int,
)
    requires
        proj_lt(songs, method, i, j),
        proj_lt(songs, method, j, k),
    ensures
        proj_lt(songs, method, i, k),
{
    if method == SortingMethod::Title {
        let a = songs[i].title@;
        let b = songs[j].title@;
        let c = songs[k].title@;
        if lex_lt(a, b) && lex_lt(b, c) {
            lemma_lex_transitive(a, b, c);
        }
    }
}

/// Compare two backing indices under the given sorting method, by primary
/// key alone (no tie break): backing order, title order or duration order.
pub fn compare_songs(i: usize, j: usize, songs: &Vec<Song>, method: SortingMethod) -> (r:
    Ordering)
    requires
        i < songs@.len(),
        j < songs@.len(),
    ensures
        r == Ordering::Less <==> song_key_lt(songs@, method, i as int, j as int),
        r == Ordering::Greater <==> song_key_lt(songs@, method, j as int, i as int),
        r == Ordering::Equal <==> song_key_eq(songs@, method, i as int, j as int),
{
    match method {
        SortingMethod::Index => {
            if i < j {
                Ordering::Less
            } else if i > j {
                Ordering::Greater
            } else {
                Ordering::Equal
            }
        },
        SortingMethod::Title => compare_bytes(&songs[i].title, &songs[j].title),
        SortingMethod::Duration => {
            if songs[i].duration < songs[j].duration {
                Ordering::Less
            } else if songs[i].duration > songs[j].duration {
                Ordering::Greater
            } else {
                Ordering::Equal
            }
        },
    }
}

/// Decide the total projection order `proj_lt` between two backing indices.
pub fn proj_before(i: usize, j: usize, songs: &Vec<Song>, method: SortingMethod) -> (r: bool)
    requires
        i < songs@.len(),
        j < songs@.len(),
    ensures
        r == proj_lt(songs@, method, i as int, j as int),
{
    match compare_songs(i, j, songs, method) {
        Ordering::Less => true,
        Ordering::Equal => i < j,
        Ordering::Greater => false,
    }
}

} // verus!

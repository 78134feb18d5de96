//! The projection: the ordered sequence of backing indices a pane shows,
//! derived from the backing collection, the filter query and the sorting
//! method.

use vstd::prelude::*;
use crate::filter::{song_matches, song_matches_query};
use crate::order::{
    lemma_proj_lt_total, lemma_proj_lt_transitive, proj_before, proj_lt, song_key_eq,
};
use crate::song::{Song, SortingMethod};

verus! {

/// What a well-formed projection is.
///
/// Completeness: a backing index appears iff its song satisfies the filter
/// predicate.  Ordering: the sequence is sorted by the total order
/// `proj_lt`, whose backing-index tie break makes the order stable: songs
/// the primary key does not distinguish keep their backing order.
pub open spec fn projection_ok(
    songs: Seq<Song>,
    query: Seq<u8>,
    method: SortingMethod,
    r: Seq<usize>,
) -> bool {
    &&& forall|k: int|
        0 <= k < r.len() ==> (#[trigger] r[k]) < songs.len() && song_matches(
            songs[r[k] as int],
            query,
        )
    &&& forall|i: int|
        0 <= i < songs.len() && #[trigger] song_matches(songs[i], query) ==> r.contains(
            i as usize,
        )
    &&& forall|k1: int, k2: int|
        0 <= k1 < k2 < r.len() ==> proj_lt(songs, method, r[k1] as int, r[k2] as int)
}

/// A sequence sorted by the strict order `proj_lt` holds each backing index
/// at most once.
pub proof fn lemma_projection_distinct(
    songs: Seq<Song>,
    query: Seq<u8>,
    method: SortingMethod,
    r: Seq<usize>,
)
    requires
        projection_ok(songs, query, method, r),
    ensures
        forall|k1: int, k2: int| 0 <= k1 < k2 < r.len() ==> r[k1] != r[k2],
{
    assert forall|k1: int, k2: int| 0 <= k1 < k2 < r.len() implies r[k1] != r[k2] by {
        lemma_proj_lt_total(songs, method, r[k1] as int, r[k2] as int);
    }
}


/// Law: the projection is stable.  Two shown indices whose songs the
/// primary sort key does not distinguish appear in backing order.
pub proof fn lemma_projection_stable(
    songs: Seq<Song>,
    query: Seq<u8>,
    method: SortingMethod,
    r: Seq<usize>,
)
    requires
        projection_ok(songs, query, method, r),
    ensures
        forall|k1: int, k2: int|
            0 <= k1 < k2 < r.len() && song_key_eq(songs, method, r[k1] as int, r[k2] as int)
                ==> r[k1] < r[k2],
{
    assert forall|k1: int, k2: int|
        0 <= k1 < k2 < r.len() && song_key_eq(songs, method, r[k1] as int, r[k2] as int)
            implies r[k1] < r[k2] by {
        lemma_proj_lt_total(songs, method, r[k1] as int, r[k2] as int);
        assert(proj_lt(songs, method, r[k1] as int, r[k2] as int));
    }
}

proof fn lemma_push_contains<A>(s: Seq<A>, a: A, y: A)
    ensures
        s.push(a).contains(y) <==> (s.contains(y) || y == a),
{
    if s.contains(y) {
        let j = choose|j: int| 0 <= j < s.len() && s[j] == y;
        assert(s.push(a)[j] == y);
    }
    if y == a {
        assert(s.push(a)[s.len() as int] == y);
    }
    if s.push(a).contains(y) {
        let j = choose|j: int| 0 <= j < s.push(a).len() && s.push(a)[j] == y;
        if j < s.len() {
            assert(s[j] == y);
        }
    }
}

proof fn lemma_insert_contains<A>(s: Seq<A>, p: int, x: A, y: A)
    requires
        0 <= p <= s.len(),
    ensures
        s.insert(p, x).contains(y) <==> (s.contains(y) || y == x),
{
    s.insert_ensures(p, x);
    let t = s.insert(p, x);
    if s.contains(y) {
        let j = choose|j: int| 0 <= j < s.len() && s[j] == y;
        if j < p {
            assert(t[j] == y);
        } else {
            assert(t[j + 1] == y);
        }
    }
    if y == x {
        assert(t[p] == y);
    }
    if t.contains(y) {
        let j = choose|j: int| 0 <= j < t.len() && t[j] == y;
        if j < p {
            assert(s[j] == y);
        } else if j > p {
            assert(s[j - 1] == y);
        }
    }
}

/// Recompute the projection: keep every backing index whose song satisfies
/// the filter query, ordered by the sorting method with backing-index tie
/// break.
///
/// The postconditions are the projection laws: every satisfying index
/// appears exactly once and no other appears (completeness), and the result
/// is sorted by the total order `proj_lt` (ordering and stability).
pub fn recompute_projection(songs: &Vec<Song>, query: &Vec<u8>, method: SortingMethod) -> (r:
    Vec<usize>)
    ensures
        projection_ok(songs@, query@, method, r@),
        forall|k1: int, k2: int| 0 <= k1 < k2 < r@.len() ==> r@[k1] != r@[k2],
{
    let ghost sv = songs@;
    let ghost qv = query@;
    let n = songs.len();
    let mut keep: Vec<usize> = Vec::new();
    let mut i: usize = 0;
    while i < n
        invariant
            sv == songs@,
            qv == query@,
            n == sv.len(),
            i <= sv.len(),
            sv.len() <= usize::MAX,
            forall|k: int|
                0 <= k < keep@.len() ==> (#[trigger] keep@[k]) < i && song_matches(
                    sv[keep@[k] as int],
                    qv,
                ),
            forall|j: int|
                0 <= j < i && #[trigger] song_matches(sv[j], qv) ==> keep@.contains(j as usize),
            forall|k1: int, k2: int| 0 <= k1 < k2 < keep@.len() ==> keep@[k1] < keep@[k2],
        decreases sv.len() - i,
    {
        if song_matches_query(&songs[i], query) {
            let ghost old_keep = keep@;
            keep.push(i);
            proof {
                assert forall|j: int|
                    0 <= j < i + 1 && #[trigger] song_matches(sv[j], qv) implies keep@.contains(
                    j as usize,
                ) by {
                    lemma_push_contains(old_keep, i, j as usize);
                }
            }
        } else {
            proof {
                assert forall|j: int|
                    0 <= j < i + 1 && #[trigger] song_matches(sv[j], qv) implies keep@.contains(
                    j as usize,
                ) by {
                    assert(j != i);
                }
            }
        }
        i += 1;
    }
    let mut out: Vec<usize> = Vec::new();
    let mut t: usize = 0;
    while t < keep.len()
        invariant
            sv == songs@,
            qv == query@,
            sv.len() <= usize::MAX,
            t <= keep@.len(),
            forall|k: int|
                0 <= k < keep@.len() ==> (#[trigger] keep@[k]) < sv.len() && song_matches(
                    sv[keep@[k] as int],
                    qv,
                ),
            forall|j: int|
                0 <= j < sv.len() && #[trigger] song_matches(sv[j], qv) ==> keep@.contains(
                    j as usize,
                ),
            forall|k1: int, k2: int| 0 <= k1 < k2 < keep@.len() ==> keep@[k1] < keep@[k2],
            out@.len() == t,
            forall|k: int|
                0 <= k < out@.len() ==> (#[trigger] out@[k]) < sv.len() && song_matches(
                    sv[out@[k] as int],
                    qv,
                ),
            forall|k1: int, k2: int|
                0 <= k1 < k2 < out@.len() ==> proj_lt(sv, method, out@[k1] as int, out@[k2] as int),
            forall|y: usize| #[trigger]
                out@.contains(y) <==> keep@.subrange(0, t as int).contains(y),
        decreases keep@.len() - t,
    {
        let x = keep[t];
        proof {
            assert forall|k: int| 0 <= k < out@.len() implies out@[k] != x by {
                assert(out@.contains(out@[k]));
                let j = choose|j: int|
                    0 <= j < keep@.subrange(0, t as int).len() && keep@.subrange(0, t as int)[j]
                        == out@[k];
                assert(keep@[j] == out@[k]);
                assert(keep@[j] < keep@[t as int]);
            }
        }
        let mut p: usize = 0;
        while p < out.len() && proj_before(out[p], x, songs, method)
            invariant
                sv == songs@,
                x < sv.len(),
                p <= out@.len(),
                forall|k: int|
                    0 <= k < out@.len() ==> (#[trigger] out@[k]) < sv.len() && song_matches(
                        sv[out@[k] as int],
                        qv,
                    ),
                forall|k1: int, k2: int|
                    0 <= k1 < k2 < out@.len() ==> proj_lt(
                        sv,
                        method,
                        out@[k1] as int,
                        out@[k2] as int,
                    ),
                forall|k: int| 0 <= k < out@.len() ==> out@[k] != x,
                forall|k: int| 0 <= k < p ==> proj_lt(sv, method, out@[k] as int, x as int),
            decreases out@.len() - p,
        {
            p += 1;
        }
        proof {
            assert forall|k: int| p <= k < out@.len() implies proj_lt(
                sv,
                method,
                x as int,
                out@[k] as int,
            ) by {
                lemma_proj_lt_total(sv, method, out@[p as int] as int, x as int);
                assert(proj_lt(sv, method, x as int, out@[p as int] as int));
                if k > p {
                    lemma_proj_lt_transitive(
                        sv,
                        method,
                        x as int,
                        out@[p as int] as int,
                        out@[k] as int,
                    );
                }
            }
        }
        let ghost old_out = out@;
        out.insert(p, x);
        proof {
            old_out.insert_ensures(p as int, x);
            assert forall|k1: int, k2: int|
                0 <= k1 < k2 < out@.len() implies proj_lt(
                sv,
                method,
                out@[k1] as int,
                out@[k2] as int,
            ) by {
                if k1 < p {
                    assert(out@[k1] == old_out[k1]);
                }
                if k2 < p {
                    assert(out@[k2] == old_out[k2]);
                }
                if k1 > p {
                    assert(out@[k1] == old_out[k1 - 1]);
                }
                if k2 > p {
                    assert(out@[k2] == old_out[k2 - 1]);
                }
            }
            assert(keep@.subrange(0, t + 1) =~= keep@.subrange(0, t as int).push(keep@[t as int]));
            assert forall|y: usize| #[trigger]
                out@.contains(y) <==> keep@.subrange(0, t + 1).contains(y) by {
                lemma_insert_contains(old_out, p as int, x, y);
                lemma_push_contains(keep@.subrange(0, t as int), keep@[t as int], y);
            }
        }
        t += 1;
    }
    proof {
        assert(keep@.subrange(0, keep@.len() as int) =~= keep@);
        assert(projection_ok(sv, qv, method, out@));
        lemma_projection_distinct(sv, qv, method, out@);
    }
    out
}

} // verus!

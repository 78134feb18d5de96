//! The filter predicate of the projection: case-insensitive substring match
//! of a query against a song's title or path.  Case folding is ASCII-only;
//! other bytes match exactly.

use vstd::prelude::*;
use crate::song::Song;

verus! {

/// ASCII case folding of one byte: upper-case letters map to lower case,
/// every other byte is unchanged.
pub open spec fn lower_byte_spec(c: u8) -> u8 {
    if 65 <= c <= 90 {
        (c + 32) as u8
    } else {
        c
    }
}

/// Byte-wise ASCII case folding of a byte string.
pub open spec fn lower_seq(s: Seq<u8>) -> Seq<u8> {
    s.map_values(|c: u8| lower_byte_spec(c))
}

/// `needle` occurs contiguously inside `hay`.
pub open spec fn is_substring(hay: Seq<u8>, needle: Seq<u8>) -> bool {
    exists|k: int|
        0 <= k && k + needle.len() <= hay.len() && #[trigger] hay.subrange(k, k + needle.len())
            == needle
}

/// The filter predicate: an empty query accepts every song; a non-empty
/// query accepts a song whose title or path contains it, case-insensitively.
pub open spec fn song_matches(s: Song, query: Seq<u8>) -> bool {
    ||| query.len() == 0
    ||| is_substring(lower_seq(s.title@), lower_seq(query))
    ||| is_substring(lower_seq(s.path@), lower_seq(query))
}

/// ASCII case folding of one byte.
pub fn lower_byte(c: u8) -> (r: u8)
    ensures
        r == lower_byte_spec(c),
{
    if 65 <= c && c <= 90 {
        c + 32
    } else {
        c
    }
}

/// Decide whether `needle` occurs inside `hay` after case folding both.
pub fn contains_ci(hay: &Vec<u8>, needle: &Vec<u8>) -> (r: bool)
    ensures
        r == is_substring(lower_seq(hay@), lower_seq(needle@)),
{
    let ghost hl = lower_seq(hay@);
    let ghost nl = lower_seq(needle@);
    if needle.len() > hay.len() {
        return false;
    }
    if needle.len() == 0 {
        proof {
            assert(nl.len() == 0);
            assert(hl.subrange(0, 0 + nl.len() as int) =~= nl);
        }
        return true;
    }
    let mut k: usize = 0;
    while k <= hay.len() - needle.len()
        invariant
            hay@.len() <= usize::MAX,
            needle@.len() <= hay@.len(),
            k <= hay@.len() - needle@.len() + 1,
            hl == lower_seq(hay@),
            nl == lower_seq(needle@),
            1 <= needle@.len(),
            forall|k2: int| 0 <= k2 < k ==> #[trigger] hl.subrange(k2, k2 + nl.len()) != nl,
        decreases hay@.len() - needle@.len() + 1 - k,
    {
        let mut m: usize = 0;
        let mut mismatch = false;
        while m < needle.len() && !mismatch
            invariant
                hay@.len() <= usize::MAX,
                needle@.len() <= hay@.len(),
                k + needle@.len() <= hay@.len(),
                1 <= needle@.len(),
                m <= needle@.len(),
                hl == lower_seq(hay@),
                nl == lower_seq(needle@),
                !mismatch ==> forall|t: int| 0 <= t < m ==> hl[k + t] == nl[t],
                mismatch ==> hl.subrange(k as int, k + nl.len()) != nl,
            decreases needle@.len() - m + (if mismatch { 0int } else { 1int }),
        {
            assert(k + m < hay@.len());
            if lower_byte(hay[k + m]) != lower_byte(needle[m]) {
                proof {
                    assert(hl[k + m] == lower_byte_spec(hay@[k + m]));
                    assert(nl[m as int] == lower_byte_spec(needle@[m as int]));
                    assert(hl.subrange(k as int, k + nl.len())[m as int] == hl[k + m]);
                }
                mismatch = true;
            } else {
                proof {
                    assert(hl[k + m] == lower_byte_spec(hay@[k + m]));
                    assert(nl[m as int] == lower_byte_spec(needle@[m as int]));
                }
                m += 1;
            }
        }
        if !mismatch {
            proof {
                assert(hl.subrange(k as int, k + nl.len()) =~= nl);
            }
            return true;
        }
        k += 1;
    }
    proof {
        assert(forall|k2: int|
            0 <= k2 && k2 + nl.len() <= hl.len() ==> #[trigger] hl.subrange(k2, k2 + nl.len()) != nl);
    }
    false
}

/// Decide the filter predicate `song_matches` for one song.
pub fn song_matches_query(s: &Song, query: &Vec<u8>) -> (r: bool)
    ensures
        r == song_matches(*s, query@),
{
    if query.len() == 0 {
        true
    } else {
        contains_ci(&s.title, query) || contains_ci(&s.path, query)
    }
}

} // verus!

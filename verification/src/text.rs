//! Verified string helpers: character-exact equality of `&str` values and
//! splitting a string into the segments between its commas.

use vstd::prelude::*;
use vstd::string::*;

verus! {

/// How many commas a character sequence holds.
pub open spec fn count_commas(s: Seq<char>) -> nat
    decreases s.len(),
{
    if s.len() == 0 {
        0
    } else {
        (if s[0] == ',' {
            1nat
        } else {
            0nat
        }) + count_commas(s.skip(1))
    }
}

/// The segments of `s` between its commas, in order. An empty input yields
/// one empty segment; every empty segment between two commas is kept.
pub open spec fn split_commas(s: Seq<char>) -> Seq<Seq<char>>
    decreases s.len(),
{
    if s.len() == 0 {
        seq![Seq::<char>::empty()]
    } else if s[0] == ',' {
        seq![Seq::<char>::empty()] + split_commas(s.skip(1))
    } else {
        let rest = split_commas(s.skip(1));
        seq![seq![s[0]] + rest[0]] + rest.skip(1)
    }
}

/// A split always yields at least one segment.
pub proof fn lemma_split_commas_nonempty(s: Seq<char>)
    ensures
        split_commas(s).len() >= 1,
    decreases s.len(),
{
    if s.len() > 0 {
        lemma_split_commas_nonempty(s.skip(1));
    }
}

/// Splitting on commas yields exactly one segment more than there are
/// commas, whatever the input; in particular every empty segment counts.
pub proof fn lemma_split_commas_count(s: Seq<char>)
    ensures
        split_commas(s).len() == count_commas(s) + 1,
    decreases s.len(),
{
    if s.len() > 0 {
        lemma_split_commas_count(s.skip(1));
    }
}

/// `parts` with `head` prepended to its first segment.
spec fn glue(head: Seq<char>, parts: Seq<Seq<char>>) -> Seq<Seq<char>>
    recommends
        parts.len() >= 1,
{
    seq![head + parts[0]] + parts.skip(1)
}

/// Character-by-character equality of two string slices.
pub fn str_eq(a: &str, b: &str) -> (r: bool)
    ensures
        r == (a@ == b@),
{
    let a_len = a.unicode_len();
    let b_len = b.unicode_len();
    if a_len != b_len {
        return false;
    }
    let mut i: usize = 0;
    while i < a_len
        invariant
            a_len == a@.len(),
            b_len == b@.len(),
            a_len == b_len,
            i <= a_len,
            forall|j: int| 0 <= j < i ==> a@[j] == b@[j],
        decreases a_len - i,
    {
        if a.get_char(i) != b.get_char(i) {
            return false;
        }
        i += 1;
    }
    proof {
        assert(a@ =~= b@);
    }
    true
}

/// Split `s` at every comma, keeping empty segments, in input order.
pub fn split_on_commas(s: &str) -> (parts: Vec<String>)
    ensures
        parts.deep_view() == split_commas(s@),
{
    let n = s.unicode_len();
    let mut parts: Vec<String> = Vec::new();
    let mut start: usize = 0;
    let mut i: usize = 0;
    proof {
        lemma_split_commas_nonempty(s@);
        assert(s@.skip(0) =~= s@);
        assert(s@.subrange(0, 0) =~= Seq::<char>::empty());
        assert(glue(s@.subrange(0, 0), split_commas(s@)) =~~= split_commas(s@));
        assert(parts.deep_view() + glue(s@.subrange(0, 0), split_commas(s@)) =~~= split_commas(
            s@,
        ));
    }
    while i < n
        invariant
            n == s@.len(),
            start <= i <= n,
            split_commas(s@.skip(i as int)).len() >= 1,
            parts.deep_view() + glue(
                s@.subrange(start as int, i as int),
                split_commas(s@.skip(i as int)),
            ) == split_commas(s@),
        decreases n - i,
    {
        proof {
            assert(s@.skip(i as int) =~= seq![s@[i as int]] + s@.skip(i + 1));
            lemma_split_commas_nonempty(s@.skip(i + 1));
        }
        let ghost old_parts = parts.deep_view();
        let ghost tail = split_commas(s@.skip(i + 1));
        let c = s.get_char(i);
        if c == ',' {
            let seg = s.substring_char(start, i);
            parts.push(String::from_str(seg));
            proof {
                assert(s@.skip(i as int)[0] == s@[i as int]);
                assert(s@.skip(i as int).skip(1) =~= s@.skip(i + 1));
                assert(split_commas(s@.skip(i as int)) == seq![Seq::<char>::empty()] + tail);
                assert(parts.deep_view() =~~= old_parts + seq![s@.subrange(
                    start as int,
                    i as int,
                )]);
                assert(s@.subrange(start as int, i as int) + Seq::<char>::empty() =~= s@.subrange(
                    start as int,
                    i as int,
                ));
                assert((seq![Seq::<char>::empty()] + tail).skip(1) =~~= tail);
                assert(glue(s@.subrange(i + 1, i + 1), tail) =~~= tail);
                assert(parts.deep_view() + glue(s@.subrange(i + 1, i + 1), tail) =~~= old_parts
                    + glue(s@.subrange(start as int, i as int), split_commas(s@.skip(i as int))));
            }
            start = i + 1;
        } else {
            proof {
                assert(s@.skip(i as int)[0] == s@[i as int]);
                assert(s@.skip(i as int).skip(1) =~= s@.skip(i + 1));
                assert(split_commas(s@.skip(i as int)) == seq![seq![s@[i as int]] + tail[0]]
                    + tail.skip(1));
                assert(s@.subrange(start as int, i as int) + seq![s@[i as int]] =~= s@.subrange(
                    start as int,
                    i + 1,
                ));
                assert(glue(s@.subrange(start as int, i + 1), tail) =~~= glue(
                    s@.subrange(start as int, i as int),
                    split_commas(s@.skip(i as int)),
                ));
            }
        }
        i += 1;
    }
    let seg = s.substring_char(start, n);
    parts.push(String::from_str(seg));
    proof {
        assert(s@.skip(n as int) =~= Seq::<char>::empty());
        assert(split_commas(s@.skip(n as int)) == seq![Seq::<char>::empty()]);
        assert(s@.subrange(start as int, n as int) + Seq::<char>::empty() =~= s@.subrange(
            start as int,
            n as int,
        ));
        assert(glue(s@.subrange(start as int, n as int), seq![Seq::<char>::empty()])
            =~~= seq![s@.subrange(start as int, n as int)]);
        assert(parts.deep_view() =~~= split_commas(s@));
    }
    parts
}

} // verus!

//! Counting ASCII characters in text, the basis of the "mostly ASCII" filter.

use vstd::prelude::*;

verus! {

/// A character is ASCII when its code point is below 128.
pub open spec fn is_ascii_char(c: char) -> bool {
    (c as u32) < 128
}

/// Number of ASCII characters in `s`.
pub open spec fn ascii_count(s: Seq<char>) -> nat
    decreases s.len(),
{
    if s.len() == 0 {
        0
    } else {
        ascii_count(s.drop_last()) + if is_ascii_char(s.last()) { 1nat } else { 0nat }
    }
}

/// The ASCII count never exceeds the length of the text.
pub proof fn lemma_ascii_count_bounded(s: Seq<char>)
    ensures
        ascii_count(s) <= s.len(),
    decreases s.len(),
{
    if s.len() > 0 {
        lemma_ascii_count_bounded(s.drop_last());
    }
}

/// The ASCII count of a text is the number of its characters whose code point
/// is below 128.
pub proof fn lemma_ascii_count_is_code_points_below_128(s: Seq<char>)
    ensures
        ascii_count(s) == s.filter(|c: char| (c as u32) < 128).len(),
    decreases s.len(),
{
    reveal(Seq::filter);
    if s.len() > 0 {
        lemma_ascii_count_is_code_points_below_128(s.drop_last());
    }
}

/// Text made of ASCII characters only has all of its characters counted.
pub proof fn lemma_ascii_text_fully_counted(s: Seq<char>)
    requires
        forall|i: int| 0 <= i < s.len() ==> ((#[trigger] s[i]) as u32) < 128,
    ensures
        ascii_count(s) == s.len(),
    decreases s.len(),
{
    if s.len() > 0 {
        assert forall|i: int| 0 <= i < s.drop_last().len() implies ((#[trigger] s.drop_last()[i]) as u32)
            < 128 by {
            assert(s.drop_last()[i] == s[i]);
        }
        lemma_ascii_text_fully_counted(s.drop_last());
    }
}

/// Text whose characters are all counted is made of ASCII characters only.
pub proof fn lemma_fully_counted_text_is_ascii(s: Seq<char>)
    requires
        ascii_count(s) == s.len(),
    ensures
        forall|i: int| 0 <= i < s.len() ==> ((#[trigger] s[i]) as u32) < 128,
    decreases s.len(),
{
    if s.len() > 0 {
        lemma_ascii_count_bounded(s.drop_last());
        lemma_fully_counted_text_is_ascii(s.drop_last());
        assert forall|i: int| 0 <= i < s.len() implies ((#[trigger] s[i]) as u32) < 128 by {
            if i < s.len() - 1 {
                assert(s.drop_last()[i] == s[i]);
            }
        }
    }
}

/// Counts the ASCII characters of `s`; returns `(ascii, total)` where `total`
/// is the number of characters (not bytes).
pub fn ascii_counts(s: &str) -> (r: (usize, usize))
    ensures
        r.0 == ascii_count(s@),
        r.0 == s@.filter(|c: char| (c as u32) < 128).len(),
        r.1 == s@.len(),
{
    let total = s.unicode_len();
    let mut ascii: usize = 0;
    let mut i: usize = 0;
    while i < total
        invariant
            total == s@.len(),
            i <= total,
            ascii == ascii_count(s@.take(i as int)),
        decreases total - i,
    {
        let c = s.get_char(i);
        proof {
            assert(s@.take(i + 1).drop_last() =~= s@.take(i as int));
            lemma_ascii_count_bounded(s@.take(i as int));
        }
        if (c as u32) < 128 {
            ascii = ascii + 1;
        }
        i = i + 1;
    }
    proof {
        assert(s@.take(total as int) =~= s@);
        lemma_ascii_count_is_code_points_below_128(s@);
    }
    (ascii, total)
}

} // verus!

//! Character classes of the Bengali block and the stem-length measure built on them.
use vstd::prelude::*;

verus! {

/// First independent vowel letter, BENGALI LETTER A.
pub const VOWEL_FIRST: char = '\u{0985}';

/// Last independent vowel letter, BENGALI LETTER AU.
pub const VOWEL_LAST: char = '\u{0994}';

/// First dependent vowel sign (kar), BENGALI VOWEL SIGN AA.
pub const KAR_FIRST: char = '\u{09BE}';

/// Last dependent vowel sign (kar), BENGALI VOWEL SIGN AI.
pub const KAR_LAST: char = '\u{09C8}';

/// `c` is an independent Bengali vowel letter.
pub open spec fn is_vowel_char(c: char) -> bool {
    VOWEL_FIRST <= c && c <= VOWEL_LAST
}

/// `c` is a dependent Bengali vowel sign (a kar).
pub open spec fn is_kar_char(c: char) -> bool {
    KAR_FIRST <= c && c <= KAR_LAST
}

/// The number of characters of `s` that are not dependent vowel signs.
pub open spec fn stem_length(s: Seq<char>) -> nat
    decreases s.len(),
{
    if s.len() == 0 {
        0
    } else {
        stem_length(s.drop_last()) + if is_kar_char(s.last()) {
            0nat
        } else {
            1nat
        }
    }
}

/// Tells whether `c` is an independent Bengali vowel letter.
pub fn is_vowel(c: char) -> (r: bool)
    ensures
        r == is_vowel_char(c),
{
    VOWEL_FIRST <= c && c <= VOWEL_LAST
}

/// Tells whether `c` is a dependent Bengali vowel sign (a kar).
pub fn is_kar(c: char) -> (r: bool)
    ensures
        r == is_kar_char(c),
{
    KAR_FIRST <= c && c <= KAR_LAST
}

/// Counts the characters of `term` that are not dependent vowel signs.
pub fn stem_len(term: &str) -> (r: usize)
    ensures
        r == stem_length(term@),
{
    let n: usize = term.unicode_len();
    let mut count: usize = 0;
    for c in it: term.chars()
        invariant
            it.seq() == term@,
            term@.len() == n,
            count == stem_length(term@.subrange(0, it.index() as int)),
            count <= it.index(),
    {
        proof {
            let before = term@.subrange(0, it.index() as int);
            let after = term@.subrange(0, it.index() + 1);
            assert(after.drop_last() == before);
        }
        if !is_kar(c) {
            count = count + 1;
        }
    }
    proof {
        assert(term@.subrange(0, term@.len() as int) == term@);
    }
    count
}

} // verus!

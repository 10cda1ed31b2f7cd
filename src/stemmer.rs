//! The ordered suffix-stripping pipeline for Bengali nouns.
//!
//! The word under transformation is a prefix of the input: every stage reads
//! the prefix that the previous stage kept and keeps a possibly shorter one.
use vstd::prelude::*;

use crate::classify::{is_kar, is_kar_char, is_vowel, is_vowel_char, stem_len, stem_length};

verus! {

/// BENGALI LETTER I.
pub const LETTER_I: char = '\u{0987}';

/// BENGALI LETTER KA.
pub const KA: char = '\u{0995}';

/// BENGALI LETTER KHA.
pub const KHA: char = '\u{0996}';

/// BENGALI LETTER GA.
pub const GA: char = '\u{0997}';

/// BENGALI LETTER JA.
pub const JA: char = '\u{099C}';

/// BENGALI LETTER TTA.
pub const TTA: char = '\u{099F}';

/// BENGALI LETTER TA.
pub const TA: char = '\u{09A4}';

/// BENGALI LETTER DA.
pub const DA: char = '\u{09A6}';

/// BENGALI LETTER NA.
pub const NA: char = '\u{09A8}';

/// BENGALI LETTER RA.
pub const RA: char = '\u{09B0}';

/// BENGALI LETTER LA.
pub const LA: char = '\u{09B2}';

/// BENGALI LETTER YYA, the precomposed glide.
pub const YYA: char = '\u{09DF}';

/// BENGALI VOWEL SIGN AA.
pub const AA_KAR: char = '\u{09BE}';

/// BENGALI VOWEL SIGN I.
pub const I_KAR: char = '\u{09BF}';

/// BENGALI VOWEL SIGN U.
pub const U_KAR: char = '\u{09C1}';

/// BENGALI VOWEL SIGN E.
pub const E_KAR: char = '\u{09C7}';

/// BENGALI VOWEL SIGN O.
pub const O_KAR: char = '\u{09CB}';

/// BENGALI SIGN VIRAMA (hasanta), which fuses two consonants into a conjunct.
pub const VIRAMA: char = '\u{09CD}';

/// `w` ends with the characters of `p`.
pub open spec fn ends_with(w: Seq<char>, p: Seq<char>) -> bool {
    p.len() <= w.len() && w.subrange(w.len() - p.len(), w.len() as int) == p
}

/// `w` without its last `n` characters.
pub open spec fn drop_tail(w: Seq<char>, n: nat) -> Seq<char> {
    w.subrange(0, w.len() - n)
}

/// `w` with a trailing `p` cut off, where it ends with `p`.
pub open spec fn strip_if_ends(w: Seq<char>, p: Seq<char>) -> Seq<char> {
    if ends_with(w, p) {
        drop_tail(w, p.len())
    } else {
        w
    }
}

/// Tells whether `term`, a word with a trailing "য়ের" cut off, lets the glide go
/// too: its stem length is one, or it ends in an independent vowel.
pub open spec fn glide_removable(term: Seq<char>) -> bool {
    stem_length(term) == 1 || (term.len() > 0 && is_vowel_char(term.last()))
}

/// Stage 1: a final "ই" goes, unless the word without it has stem length one.
pub open spec fn strip_emphatic_i(w: Seq<char>) -> Seq<char> {
    if ends_with(w, seq![LETTER_I]) && stem_length(w.drop_last()) != 1 {
        w.drop_last()
    } else {
        w
    }
}

/// Stage 2: the locative "তে" or the objective "কে" goes.
pub open spec fn strip_case_marker(w: Seq<char>) -> Seq<char> {
    if ends_with(w, seq![TA, E_KAR]) || ends_with(w, seq![KA, E_KAR]) {
        drop_tail(w, 2)
    } else {
        w
    }
}

/// Stage 3: the plural "রা" goes.
pub open spec fn strip_plural_ra(w: Seq<char>) -> Seq<char> {
    strip_if_ends(w, seq![RA, AA_KAR])
}

/// Stage 4: a possessive "য়ের" goes whole where the glide may go, else only
/// its "ের" goes. The flag says whether a later final "য়" may still go.
pub open spec fn strip_glide_genitive(w: Seq<char>) -> (Seq<char>, bool) {
    if ends_with(w, seq![YYA, E_KAR, RA]) {
        if glide_removable(drop_tail(w, 3)) {
            (drop_tail(w, 3), true)
        } else {
            (drop_tail(w, 2), false)
        }
    } else {
        (w, true)
    }
}

/// Stage 5: a genitive "র" goes when a vowel sign stands right before it.
pub open spec fn strip_genitive_r(w: Seq<char>) -> Seq<char> {
    if ends_with(w, seq![RA]) && w.len() >= 2 && is_kar_char(w[w.len() - 2]) {
        w.drop_last()
    } else {
        w
    }
}

/// Stage 6: a final vowel sign "ে" goes, unless the word ends in "দে" or "কে".
pub open spec fn strip_e_kar(w: Seq<char>) -> Seq<char> {
    if ends_with(w, seq![E_KAR]) && !ends_with(w, seq![DA, E_KAR]) && !ends_with(
        w,
        seq![KA, E_KAR],
    ) {
        w.drop_last()
    } else {
        w
    }
}

/// Stage 7: a final glide "য়" goes, unless stage 4 kept it as part of the root.
pub open spec fn strip_glide(w: Seq<char>, glide_may_go: bool) -> Seq<char> {
    if ends_with(w, seq![YYA]) && glide_may_go {
        w.drop_last()
    } else {
        w
    }
}

/// Stage 8: the plural "েরা" goes.
pub open spec fn strip_plural_era(w: Seq<char>) -> Seq<char> {
    strip_if_ends(w, seq![E_KAR, RA, AA_KAR])
}

/// Stage 9: the classifier "টি" goes when a character precedes it and that
/// character is not a virama, which would make "ট" part of a conjunct.
pub open spec fn strip_classifier_ti(w: Seq<char>) -> Seq<char> {
    if ends_with(w, seq![TTA, I_KAR]) && w.len() >= 3 && w[w.len() - 3] != VIRAMA {
        drop_tail(w, 2)
    } else {
        w
    }
}

/// Stage 10: one of "দে", "কে", "কা", "টা" goes.
pub open spec fn strip_determiner(w: Seq<char>) -> Seq<char> {
    if ends_with(w, seq![DA, E_KAR]) || ends_with(w, seq![KA, E_KAR]) || ends_with(
        w,
        seq![KA, AA_KAR],
    ) || ends_with(w, seq![TTA, AA_KAR]) {
        drop_tail(w, 2)
    } else {
        w
    }
}

/// Stage 11: the collective "জন" or "লি" goes.
pub open spec fn strip_collective(w: Seq<char>) -> Seq<char> {
    if ends_with(w, seq![JA, NA]) || ends_with(w, seq![LA, I_KAR]) {
        drop_tail(w, 2)
    } else {
        w
    }
}

/// Stage 12: the plural "গুলো" or "খানা" goes.
pub open spec fn strip_plural_group(w: Seq<char>) -> Seq<char> {
    if ends_with(w, seq![GA, U_KAR, LA, O_KAR]) || ends_with(w, seq![KHA, AA_KAR, NA, AA_KAR]) {
        drop_tail(w, 4)
    } else {
        w
    }
}

/// The stem of `w`: the twelve stages applied once each, in order.
pub open spec fn stem_word(w: Seq<char>) -> Seq<char> {
    let w = strip_case_marker(strip_emphatic_i(w));
    let (w, glide_may_go) = strip_glide_genitive(strip_plural_ra(w));
    let w = strip_glide(strip_e_kar(strip_genitive_r(w)), glide_may_go);
    strip_plural_group(
        strip_collective(strip_determiner(strip_classifier_ti(strip_plural_era(w)))),
    )
}

/// Tells whether the first `end` characters of `word` end with `pat`.
fn tail_is(word: &str, end: usize, pat: &[char]) -> (r: bool)
    requires
        end <= word@.len(),
    ensures
        r == ends_with(word@.subrange(0, end as int), pat@),
{
    let ghost w = word@.subrange(0, end as int);
    let n: usize = pat.len();
    if n > end {
        return false;
    }
    let start: usize = end - n;
    let mut i: usize = 0;
    while i < n
        invariant
            n == pat@.len(),
            start + n == end,
            end <= word@.len(),
            w == word@.subrange(0, end as int),
            i <= n,
            forall|j: int| 0 <= j < i ==> word@[start + j] == pat@[j],
        decreases n - i,
    {
        if word.get_char(start + i) != pat[i] {
            assert(w.subrange(start as int, end as int)[i as int] != pat@[i as int]);
            return false;
        }
        i = i + 1;
    }
    assert(w.subrange(start as int, end as int) == pat@);
    true
}

/// Tells whether the first `end` characters of `word` end with `c`.
fn last_is(word: &str, end: usize, c: char) -> (r: bool)
    requires
        end <= word@.len(),
    ensures
        r == ends_with(word@.subrange(0, end as int), seq![c]),
{
    let ghost w = word@.subrange(0, end as int);
    if end == 0 {
        return false;
    }
    let r = word.get_char(end - 1) == c;
    if r {
        assert(w.subrange(end - 1, end as int) =~= seq![c]);
    } else {
        assert(w.subrange(end - 1, end as int)[0] != seq![c][0]);
    }
    r
}

/// Tells whether the glide "য়" of a trailing "য়ের" goes with it, where `term`
/// is the word with "য়ের" cut off.
fn noun_eliminate_y(term: &str) -> (r: bool)
    ensures
        r == glide_removable(term@),
{
    if stem_len(term) == 1 {
        return true;
    }
    let n: usize = term.unicode_len();
    n > 0 && is_vowel(term.get_char(n - 1))
}

/// Cutting `k` characters off the prefix of length `end` leaves the prefix of
/// length `end - k`.
proof fn lemma_prefix_drop(s: Seq<char>, end: int, k: int)
    requires
        0 <= k <= end <= s.len(),
    ensures
        drop_tail(s.subrange(0, end), k as nat) == s.subrange(0, end - k),
        k == 1 ==> s.subrange(0, end).drop_last() == s.subrange(0, end - 1),
{
    assert(drop_tail(s.subrange(0, end), k as nat) =~= s.subrange(0, end - k));
    if k == 1 {
        assert(s.subrange(0, end).drop_last() =~= s.subrange(0, end - 1));
    }
}

/// Stage 1 on the first `end` characters of `word`: the length it keeps.
fn emphatic_i_end(word: &str, end: usize) -> (r: usize)
    requires
        end <= word@.len(),
    ensures
        r <= end,
        word@.subrange(0, r as int) == strip_emphatic_i(word@.subrange(0, end as int)),
{
    if last_is(word, end, LETTER_I) {
        proof {
            lemma_prefix_drop(word@, end as int, 1);
        }
        if stem_len(word.substring_char(0, end - 1)) != 1 {
            return end - 1;
        }
    }
    end
}

/// Stage 2 on the first `end` characters of `word`: the length it keeps.
fn case_marker_end(word: &str, end: usize) -> (r: usize)
    requires
        end <= word@.len(),
    ensures
        r <= end,
        word@.subrange(0, r as int) == strip_case_marker(word@.subrange(0, end as int)),
{
    if tail_is(word, end, &[TA, E_KAR]) || tail_is(word, end, &[KA, E_KAR]) {
        proof {
            lemma_prefix_drop(word@, end as int, 2);
        }
        end - 2
    } else {
        end
    }
}

/// Cuts `pat` off the first `end` characters of `word` where they end with it:
/// the length kept.
fn strip_end(word: &str, end: usize, pat: &[char]) -> (r: usize)
    requires
        end <= word@.len(),
    ensures
        r <= end,
        word@.subrange(0, r as int) == strip_if_ends(word@.subrange(0, end as int), pat@),
{
    if tail_is(word, end, pat) {
        proof {
            lemma_prefix_drop(word@, end as int, pat@.len() as int);
        }
        end - pat.len()
    } else {
        end
    }
}

/// Stage 4 on the first `end` characters of `word`: the length it keeps, and
/// whether a final glide may still go.
fn glide_genitive_end(word: &str, end: usize) -> (r: (usize, bool))
    requires
        end <= word@.len(),
    ensures
        r.0 <= end,
        (word@.subrange(0, r.0 as int), r.1) == strip_glide_genitive(
            word@.subrange(0, end as int),
        ),
{
    if tail_is(word, end, &[YYA, E_KAR, RA]) {
        proof {
            lemma_prefix_drop(word@, end as int, 3);
            lemma_prefix_drop(word@, end as int, 2);
        }
        if noun_eliminate_y(word.substring_char(0, end - 3)) {
            (end - 3, true)
        } else {
            (end - 2, false)
        }
    } else {
        (end, true)
    }
}

/// Stage 5 on the first `end` characters of `word`: the length it keeps.
fn genitive_r_end(word: &str, end: usize) -> (r: usize)
    requires
        end <= word@.len(),
    ensures
        r <= end,
        word@.subrange(0, r as int) == strip_genitive_r(word@.subrange(0, end as int)),
{
    if last_is(word, end, RA) && end >= 2 && is_kar(word.get_char(end - 2)) {
        proof {
            lemma_prefix_drop(word@, end as int, 1);
        }
        end - 1
    } else {
        end
    }
}

/// Stage 6 on the first `end` characters of `word`: the length it keeps.
fn e_kar_end(word: &str, end: usize) -> (r: usize)
    requires
        end <= word@.len(),
    ensures
        r <= end,
        word@.subrange(0, r as int) == strip_e_kar(word@.subrange(0, end as int)),
{
    if last_is(word, end, E_KAR) && !tail_is(word, end, &[DA, E_KAR]) && !tail_is(
        word,
        end,
        &[KA, E_KAR],
    ) {
        proof {
            lemma_prefix_drop(word@, end as int, 1);
        }
        end - 1
    } else {
        end
    }
}

/// Stage 7 on the first `end` characters of `word`: the length it keeps.
fn glide_end(word: &str, end: usize, glide_may_go: bool) -> (r: usize)
    requires
        end <= word@.len(),
    ensures
        r <= end,
        word@.subrange(0, r as int) == strip_glide(word@.subrange(0, end as int), glide_may_go),
{
    if last_is(word, end, YYA) && glide_may_go {
        proof {
            lemma_prefix_drop(word@, end as int, 1);
        }
        end - 1
    } else {
        end
    }
}

/// Stage 9 on the first `end` characters of `word`: the length it keeps.
fn classifier_ti_end(word: &str, end: usize) -> (r: usize)
    requires
        end <= word@.len(),
    ensures
        r <= end,
        word@.subrange(0, r as int) == strip_classifier_ti(word@.subrange(0, end as int)),
{
    if tail_is(word, end, &[TTA, I_KAR]) && end >= 3 && word.get_char(end - 3) != VIRAMA {
        proof {
            lemma_prefix_drop(word@, end as int, 2);
        }
        end - 2
    } else {
        end
    }
}

/// Stage 10 on the first `end` characters of `word`: the length it keeps.
fn determiner_end(word: &str, end: usize) -> (r: usize)
    requires
        end <= word@.len(),
    ensures
        r <= end,
        word@.subrange(0, r as int) == strip_determiner(word@.subrange(0, end as int)),
{
    if tail_is(word, end, &[DA, E_KAR]) || tail_is(word, end, &[KA, E_KAR]) || tail_is(
        word,
        end,
        &[KA, AA_KAR],
    ) || tail_is(word, end, &[TTA, AA_KAR]) {
        proof {
            lemma_prefix_drop(word@, end as int, 2);
        }
        end - 2
    } else {
        end
    }
}

/// Stage 11 on the first `end` characters of `word`: the length it keeps.
fn collective_end(word: &str, end: usize) -> (r: usize)
    requires
        end <= word@.len(),
    ensures
        r <= end,
        word@.subrange(0, r as int) == strip_collective(word@.subrange(0, end as int)),
{
    if tail_is(word, end, &[JA, NA]) || tail_is(word, end, &[LA, I_KAR]) {
        proof {
            lemma_prefix_drop(word@, end as int, 2);
        }
        end - 2
    } else {
        end
    }
}

/// Stage 12 on the first `end` characters of `word`: the length it keeps.
fn plural_group_end(word: &str, end: usize) -> (r: usize)
    requires
        end <= word@.len(),
    ensures
        r <= end,
        word@.subrange(0, r as int) == strip_plural_group(word@.subrange(0, end as int)),
{
    if tail_is(word, end, &[GA, U_KAR, LA, O_KAR]) || tail_is(
        word,
        end,
        &[KHA, AA_KAR, NA, AA_KAR],
    ) {
        proof {
            lemma_prefix_drop(word@, end as int, 4);
        }
        end - 4
    } else {
        end
    }
}

/// Removes noun inflections such as "টি", "কে" and "তে" from `input` and
/// returns the stem.
pub fn noun_stemmer(input: &str) -> (r: String)
    ensures
        r@ == stem_word(input@),
        r@.len() <= input@.len(),
        r@ == input@.subrange(0, r@.len() as int),
{
    let end: usize = input.unicode_len();
    assert(input@.subrange(0, end as int) == input@);
    let end = emphatic_i_end(input, end);
    let end = case_marker_end(input, end);
    let end = strip_end(input, end, &[RA, AA_KAR]);
    let (end, glide_may_go) = glide_genitive_end(input, end);
    let end = genitive_r_end(input, end);
    let end = e_kar_end(input, end);
    let end = glide_end(input, end, glide_may_go);
    let end = strip_end(input, end, &[E_KAR, RA, AA_KAR]);
    let end = classifier_ti_end(input, end);
    let end = determiner_end(input, end);
    let end = collective_end(input, end);
    let end = plural_group_end(input, end);
    input.substring_char(0, end).to_owned()
}

/// `c` is the last character of some suffix that a stage strips.
pub open spec fn ends_some_suffix(c: char) -> bool {
    c == LETTER_I || c == E_KAR || c == AA_KAR || c == RA || c == YYA || c == I_KAR || c == NA
        || c == O_KAR
}

/// A word that ends with `p` ends with the last character of `p`.
proof fn lemma_ends_with_last(w: Seq<char>, p: Seq<char>)
    requires
        ends_with(w, p),
        p.len() > 0,
    ensures
        w.last() == p.last(),
{
    assert(w.subrange(w.len() - p.len(), w.len() as int)[p.len() - 1] == w.last());
}

/// A word that is empty, or whose last character ends none of the suffixes,
/// is its own stem: in particular a word shorter than every suffix comes back
/// unchanged.
pub proof fn lemma_no_suffix_unchanged(w: Seq<char>)
    requires
        w.len() == 0 || !ends_some_suffix(w.last()),
    ensures
        stem_word(w) == w,
{
    assert forall|p: Seq<char>| p.len() > 0 && #[trigger] ends_with(w, p) implies w.last()
        == p.last() by {
        lemma_ends_with_last(w, p);
    }
}

} // verus!

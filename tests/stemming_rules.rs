use mul::{is_kar, is_vowel, noun_stemmer, stem_len};

#[test]
fn minimal_roots_are_left_alone() {
    for root in ["বাসা", "পাথর", "শুক্র"] {
        assert_eq!(noun_stemmer(root), root);
        assert_eq!(noun_stemmer(&noun_stemmer(root)), root);
    }
}

#[test]
fn restemming_may_change_a_stem() {
    // One pass strips "কে" and then a "কা"; the "কা" left over goes on a second pass.
    let once = noun_stemmer("কাকাকে");
    assert_eq!(once, "কা");
    assert_eq!(noun_stemmer(&once), "");
}

#[test]
fn empty_word_is_unchanged() {
    assert_eq!(noun_stemmer(""), "");
}

#[test]
fn word_without_suffix_letter_is_unchanged() {
    assert_eq!(noun_stemmer("মানুষ"), "মানুষ");
    assert_eq!(noun_stemmer("গাছ"), "গাছ");
    assert_eq!(noun_stemmer("hello"), "hello");
    assert_eq!(noun_stemmer("x"), "x");
}

#[test]
fn genitive_guard() {
    assert_eq!(noun_stemmer("পাথর"), "পাথর");
    assert_eq!(noun_stemmer("বাবার"), "বাবা");
}

#[test]
fn glide_retention_guard() {
    assert_eq!(noun_stemmer("\u{0989}\u{09AD}\u{09DF}\u{09C7}\u{09B0}"), "\u{0989}\u{09AD}\u{09DF}");
    assert_eq!(noun_stemmer("\u{09AE}\u{09BE}\u{09DF}\u{09C7}\u{09B0}"), "\u{09AE}\u{09BE}");
}

#[test]
fn conjunct_guard_on_classifier() {
    assert_eq!(noun_stemmer("বৃষ্টির"), "বৃষ্টি");
    assert_eq!(noun_stemmer("বৃষ্টি"), "বৃষ্টি");
    assert_eq!(noun_stemmer("মেষটি"), "মেষ");
}

#[test]
fn several_suffixes_in_one_pass() {
    assert_eq!(noun_stemmer("মানুষদেরকে"), "মানুষ");
    assert_eq!(noun_stemmer("গাছগুলোতে"), "গাছ");
}

#[test]
fn short_roots_are_protected() {
    assert_eq!(noun_stemmer("মার"), "মা");
    assert_eq!(noun_stemmer("বই"), "বই");
    assert_eq!(noun_stemmer("লুই"), "লুই");
}

#[test]
fn sample_table() {
    assert_eq!(noun_stemmer("মানুষকে"), "মানুষ");
    assert_eq!(noun_stemmer("আজকের"), "আজ");
    assert_eq!(noun_stemmer("এখানকার"), "এখান");
    assert_eq!(noun_stemmer("মানুষেরা"), "মানুষ");
    assert_eq!(noun_stemmer("সহজেই"), "সহজ");
}

#[test]
fn final_glide_goes() {
    assert_eq!(noun_stemmer("\u{09AC}\u{09BE}\u{0982}\u{09B2}\u{09BE}\u{09DF}"), "বাংলা");
}

#[test]
fn collective_and_group_suffixes() {
    assert_eq!(noun_stemmer("মানুষজন"), "মানুষ");
    assert_eq!(noun_stemmer("গাছগুলো"), "গাছ");
    assert_eq!(noun_stemmer("বইখানা"), "বই");
    assert_eq!(noun_stemmer("কথাগুলি"), "কথাগু");
    assert_eq!(noun_stemmer("বইটা"), "বই");
}

#[test]
fn lone_suffixes_do_not_panic() {
    assert_eq!(noun_stemmer("ই"), "");
    assert_eq!(noun_stemmer("র"), "র");
    assert_eq!(noun_stemmer("টি"), "টি");
    assert_eq!(noun_stemmer("ে"), "");
    assert_eq!(noun_stemmer("\u{09DF}\u{09C7}\u{09B0}"), "\u{09DF}");
}

#[test]
fn suffix_after_other_script() {
    assert_eq!(noun_stemmer("abcকে"), "abc");
    assert_eq!(noun_stemmer("aর"), "aর");
}

#[test]
fn vowel_range() {
    assert!(is_vowel('\u{0985}'));
    assert!(is_vowel('\u{0994}'));
    assert!(!is_vowel('\u{0984}'));
    assert!(!is_vowel('\u{0995}'));
    assert!(!is_vowel('a'));
}

#[test]
fn kar_range() {
    assert!(is_kar('\u{09BE}'));
    assert!(is_kar('\u{09C8}'));
    assert!(!is_kar('\u{09BD}'));
    assert!(!is_kar('\u{09C9}'));
    assert!(!is_kar('\u{09CD}'));
}

#[test]
fn stem_length_skips_vowel_signs() {
    assert_eq!(stem_len(""), 0);
    assert_eq!(stem_len("মানুষ"), 3);
    assert_eq!(stem_len("লু"), 1);
    assert_eq!(stem_len("সমাধান"), 4);
    assert_eq!(stem_len("abc"), 3);
}

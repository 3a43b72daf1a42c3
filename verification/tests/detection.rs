//! Correction-detection behaviour, word for word against the detector.

use ttp_core::dictionary::{detect_proper_noun_correction, is_proper_noun_correction};

#[test]
fn test_detect_proper_noun_correction() {
    // Basic proper noun correction
    let result = detect_proper_noun_correction("I met john at the cafe", "I met John at the cafe");
    assert_eq!(result, Some(("john".to_string(), "John".to_string())));

    // No correction
    let result = detect_proper_noun_correction("Hello world", "Hello world");
    assert_eq!(result, None);

    // Sentence start capitalization - should ignore
    let result = detect_proper_noun_correction("hello world", "Hello world");
    assert_eq!(result, None);

    // Multiple changes - should ignore (likely unrelated text)
    let result = detect_proper_noun_correction("I met john and mary", "I met John and Mary");
    // This returns None because we only accept single corrections
    assert_eq!(result, None);
}

#[test]
fn detects_misheard_proper_noun_with_lower_threshold() {
    // "jon" -> "John": 2 of 4 positions match case-insensitively, ratio 1/2,
    // which passes only the lower threshold granted to a lower-case original.
    let result = detect_proper_noun_correction("I saw jon today", "I saw John today");
    assert_eq!(result, Some(("jon".to_string(), "John".to_string())));
}

#[test]
fn rejects_dissimilar_replacement() {
    // "abc" -> "Xyz": no positional matches, so no correction is learned.
    let result = detect_proper_noun_correction("I saw abc today", "I saw Xyz today");
    assert_eq!(result, None);
}

#[test]
fn rejects_very_different_word_counts() {
    let result = detect_proper_noun_correction(
        "I met john at the cafe",
        "Something completely different happened on an unrelated note yesterday",
    );
    assert_eq!(result, None);
}

#[test]
fn strips_punctuation_before_comparing() {
    let result =
        detect_proper_noun_correction("We visited paris, last week", "We visited Paris, last week");
    assert_eq!(result, Some(("paris,".to_string(), "Paris,".to_string())));
}

#[test]
fn learns_accented_proper_noun_corrections() {
    // Case handling covers the Latin-1 letters: a correction capitalising
    // an accented name is learned like an ASCII one.
    let result = detect_proper_noun_correction("I met \u{e9}mile at noon", "I met \u{c9}mile at noon");
    assert_eq!(result, Some(("\u{e9}mile".to_string(), "\u{c9}mile".to_string())));
    assert!(is_proper_noun_correction("\u{e9}mile", "\u{c9}mile", false));
}

#[test]
fn is_proper_noun_correction_cases() {
    // Plain capitalization of a mid-sentence word is a correction signal.
    assert!(is_proper_noun_correction("john", "John", false));
    // The same change at sentence start is ordinary capitalization.
    assert!(!is_proper_noun_correction("john", "John", true));
    // The correction must start with a capital letter.
    assert!(!is_proper_noun_correction("john", "jon", false));
    // Punctuation-only words are never corrections.
    assert!(!is_proper_noun_correction("...", "!!!", false));
    // Two capitalised spellings of similar words count as a correction.
    assert!(is_proper_noun_correction("Mikela", "Mikala", false));
    // A bare half match is not enough without the lower-case signal:
    // "Jon" and "John" share two of four positions, exactly one half.
    assert!(!is_proper_noun_correction("Jon", "John", false));
}

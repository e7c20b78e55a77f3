//! Tests of note detection and snapshot diffing.

use mml_editor::mml::MmlProcessor;

#[test]
fn main_test_contains_mml_notes_with_valid_notes() {
    assert!(MmlProcessor::contains_mml_notes("cdefgab"));
    assert!(MmlProcessor::contains_mml_notes("CDEFGAB"));
    assert!(MmlProcessor::contains_mml_notes("c"));
    assert!(MmlProcessor::contains_mml_notes("MML: c d e f g a b"));
}

#[test]
fn main_test_contains_mml_notes_without_notes() {
    assert!(!MmlProcessor::contains_mml_notes("xyz"));
    assert!(!MmlProcessor::contains_mml_notes("123"));
    assert!(!MmlProcessor::contains_mml_notes(""));
    assert!(!MmlProcessor::contains_mml_notes("hij klmn"));
}

#[test]
fn main_test_contains_mml_notes_mixed_content() {
    assert!(MmlProcessor::contains_mml_notes("The note C is important"));
    assert!(MmlProcessor::contains_mml_notes("tempo 120\nc d e"));
    assert!(MmlProcessor::contains_mml_notes("hello world"));
}

#[test]
fn mml_test_contains_mml_notes_with_valid_notes() {
    assert!(MmlProcessor::contains_mml_notes("cdefgab"));
    assert!(MmlProcessor::contains_mml_notes("CDEFGAB"));
    assert!(MmlProcessor::contains_mml_notes("c"));
    assert!(MmlProcessor::contains_mml_notes("MML: c d e f g a b"));
}

#[test]
fn mml_test_contains_mml_notes_without_notes() {
    assert!(!MmlProcessor::contains_mml_notes("xyz"));
    assert!(!MmlProcessor::contains_mml_notes("123"));
    assert!(!MmlProcessor::contains_mml_notes(""));
    assert!(!MmlProcessor::contains_mml_notes("hij klmn"));
}

#[test]
fn mml_test_contains_mml_notes_mixed_content() {
    assert!(MmlProcessor::contains_mml_notes("The note C is important"));
    assert!(MmlProcessor::contains_mml_notes("tempo 120\nc d e"));
    assert!(MmlProcessor::contains_mml_notes("hello world"));
}

#[test]
fn test_calculate_diff_append() {
    assert_eq!(MmlProcessor::calculate_diff("cde", "cdefg"), "fg");
    assert_eq!(MmlProcessor::calculate_diff("", "abc"), "abc");
    assert_eq!(MmlProcessor::calculate_diff("hello", "hello world"), " world");
}

#[test]
fn test_calculate_diff_removal() {
    assert_eq!(MmlProcessor::calculate_diff("cdefg", "cde"), "");
    assert_eq!(MmlProcessor::calculate_diff("hello world", "hello"), "");
}

#[test]
fn test_calculate_diff_complex_change() {
    assert_eq!(MmlProcessor::calculate_diff("abc", "def"), "def");
    assert_eq!(MmlProcessor::calculate_diff("cde", "cgf"), "cgf");
}

#[test]
fn test_calculate_diff_empty_inputs() {
    assert_eq!(MmlProcessor::calculate_diff("", ""), "");
    assert_eq!(MmlProcessor::calculate_diff("abc", ""), "");
}

#[test]
fn test_calculate_diff_equal_length_same_content() {
    // Equal snapshots fall into the complex-edit branch and replay in full;
    // the session layer is what suppresses playback when nothing changed.
    assert_eq!(MmlProcessor::calculate_diff("abc", "abc"), "abc");
}

#[test]
fn test_calculate_diff_insertion_in_middle() {
    // Neither snapshot is a prefix of the other: the whole current text.
    assert_eq!(MmlProcessor::calculate_diff("ce", "cde"), "cde");
}

#[test]
fn test_contains_mml_notes_multibyte_text() {
    assert!(!MmlProcessor::contains_mml_notes("こんにちは"));
    assert!(MmlProcessor::contains_mml_notes("こんにちは c"));
}

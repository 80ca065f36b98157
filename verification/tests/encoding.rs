//! The delta encoder and the span filter: exact record tuples,
//! suppression that keeps the relative baseline on emitted spans, and
//! the ordering of admitted spans.

use natural_syntax_ls::encoder::{semantic_tokens, SemanticToken};
use natural_syntax_ls::gate::{gate_tokens, process_prediction};
use natural_syntax_ls::token::{PartOfSpeech, POSToken};
use natural_syntax_ls::token_mapping::TokenMap;

fn tok(word: &str, tag: PartOfSpeech, begin: u32, end: u32) -> POSToken {
    POSToken { word: word.into(), tag, offset_begin: begin, offset_end: end }
}

fn rec(dl: u32, ds: u32, len: u32, tt: u32, bits: u32) -> SemanticToken {
    SemanticToken {
        delta_line: dl,
        delta_start: ds,
        length: len,
        token_type: tt,
        token_modifiers_bitset: bits,
    }
}

#[test]
fn delta_encoding_exact_tuples() {
    // Three spans of known structure across two lines:
    //   "One two\nthree four"
    // "One" (NN -> parameter=7), "two" (VB -> function=12),
    // "three" (JJ -> type=1), all with empty modifier sets.
    let text = "One two\nthree four";
    let tokens = vec![
        tok("One", PartOfSpeech::NN, 0, 3),
        tok("two", PartOfSpeech::VB, 4, 7),
        tok("three", PartOfSpeech::JJ, 8, 13),
    ];
    let map = TokenMap::default();
    let records = semantic_tokens(text, &tokens, &map);
    assert_eq!(
        records,
        vec![rec(0, 0, 3, 7, 0), rec(0, 4, 3, 12, 0), rec(1, 0, 5, 1, 0)]
    );
}

#[test]
fn delta_encoding_counts_code_points() {
    // Offsets are Unicode code points, not bytes: the two-byte "é"
    // counts as one position.
    let text = "é x\nyz";
    let tokens = vec![tok("x", PartOfSpeech::NN, 2, 3), tok("yz", PartOfSpeech::VB, 4, 6)];
    let map = TokenMap::default();
    let records = semantic_tokens(text, &tokens, &map);
    assert_eq!(records, vec![rec(0, 2, 1, 7, 0), rec(1, 0, 2, 12, 0)]);
}

#[test]
fn label_suppression_round_trip() {
    // Suppressing a category removes its record and re-bases the next
    // record on the previous *emitted* span, not the suppressed one.
    let text = "aa bb cc";
    let tokens = vec![
        tok("aa", PartOfSpeech::NN, 0, 2),
        tok("bb", PartOfSpeech::VB, 3, 5),
        tok("cc", PartOfSpeech::JJ, 6, 8),
    ];
    let full = TokenMap::default();
    let all = semantic_tokens(text, &tokens, &full);
    assert_eq!(
        all,
        vec![rec(0, 0, 2, 7, 0), rec(0, 3, 2, 12, 0), rec(0, 3, 2, 1, 0)]
    );
    let mut suppressed = TokenMap::default();
    suppressed.extend(vec![(PartOfSpeech::VB, None)]);
    let some = semantic_tokens(text, &tokens, &suppressed);
    // No record for "bb"; "cc" is now relative to "aa" (6 - 0), not to
    // the suppressed "bb".
    assert_eq!(some, vec![rec(0, 0, 2, 7, 0), rec(0, 6, 2, 1, 0)]);
}

#[test]
fn empty_text_and_no_spans_encode_to_nothing() {
    let map = TokenMap::default();
    assert_eq!(semantic_tokens("", &vec![], &map), vec![]);
    assert_eq!(semantic_tokens("some text", &vec![], &map), vec![]);
}

#[test]
fn gate_filters_and_sorts() {
    let text = "one two three";
    // Arrival order is not offset order; one span is unconfident, one
    // is pure punctuation, one runs past the text.
    let raw = vec![
        (tok("three", PartOfSpeech::JJ, 8, 13), true),
        (tok("one", PartOfSpeech::NN, 0, 3), true),
        (tok("two", PartOfSpeech::VB, 4, 7), false),
        (tok(",", PartOfSpeech::O, 3, 4), true),
        (tok("oops", PartOfSpeech::NN, 10, 99), true),
    ];
    let gated = gate_tokens(text, raw);
    assert_eq!(gated.len(), 2);
    assert_eq!(gated[0].word, "one");
    assert_eq!(gated[1].word, "three");
}

#[test]
fn process_prediction_builds_a_snapshot() {
    let raw = vec![
        (tok("b", PartOfSpeech::VB, 2, 3), true),
        (tok("a", PartOfSpeech::NN, 0, 1), true),
    ];
    let doc = process_prediction("a b".into(), 7, raw);
    assert_eq!(doc.version, 7);
    assert_eq!(doc.text, "a b");
    assert_eq!(doc.tokens.len(), 2);
    assert_eq!(doc.tokens[0].word, "a");
    assert_eq!(doc.tokens[1].word, "b");
}

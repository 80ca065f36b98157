//! Label parsing, token assembly from raw classifier parts, and the
//! gate's policy filter.

use natural_syntax_ls::gate::filter_token;
use natural_syntax_ls::token::{PartOfSpeech, PartOfSpeechError, POSToken};

fn dummy_token(word: &str) -> POSToken {
    POSToken { word: word.into(), tag: PartOfSpeech::NN, offset_begin: 0, offset_end: 0 }
}

const TOKEN_SCORE_THRESHOLD: f64 = 1. / 3.;

fn passes_threshold(score: f64) -> bool {
    score > TOKEN_SCORE_THRESHOLD
}

#[test]
fn filtering_tokens() {
    assert!(filter_token(&dummy_token("word"), passes_threshold(1.)));
    assert!(filter_token(&dummy_token("word,"), passes_threshold(0.4)));
    assert!(!filter_token(&dummy_token("word"), passes_threshold(0.3)));
    assert!(!filter_token(&dummy_token(","), passes_threshold(0.3)));
    assert!(!filter_token(&dummy_token(","), passes_threshold(1.)));
    assert!(!filter_token(&dummy_token("]"), passes_threshold(1.)));
    assert!(!filter_token(&dummy_token("("), passes_threshold(1.)));
}

#[test]
fn filtering_non_ascii_words() {
    // A non-ASCII character is not ASCII punctuation.
    assert!(filter_token(&dummy_token("é"), true));
    assert!(!filter_token(&dummy_token("!?."), true));
}

#[test]
fn every_label_parses_to_its_category() {
    let cases: Vec<(&str, PartOfSpeech)> = vec![
        ("CC", PartOfSpeech::CC),
        ("CD", PartOfSpeech::CD),
        ("DT", PartOfSpeech::DT),
        ("EX", PartOfSpeech::EX),
        ("FW", PartOfSpeech::FW),
        ("IN", PartOfSpeech::IN),
        ("JJ", PartOfSpeech::JJ),
        ("JJR", PartOfSpeech::JJR),
        ("JJS", PartOfSpeech::JJS),
        ("MD", PartOfSpeech::MD),
        ("NN", PartOfSpeech::NN),
        ("NNP", PartOfSpeech::NNP),
        ("NNPS", PartOfSpeech::NNPS),
        ("NNS", PartOfSpeech::NNS),
        ("O", PartOfSpeech::O),
        ("PDT", PartOfSpeech::PDT),
        ("POS", PartOfSpeech::POS),
        ("PRP", PartOfSpeech::PRP),
        ("RB", PartOfSpeech::RB),
        ("RBR", PartOfSpeech::RBR),
        ("RBS", PartOfSpeech::RBS),
        ("RP", PartOfSpeech::RP),
        ("SYM", PartOfSpeech::SYM),
        ("TO", PartOfSpeech::TO),
        ("UH", PartOfSpeech::UH),
        ("VB", PartOfSpeech::VB),
        ("VBD", PartOfSpeech::VBD),
        ("VBG", PartOfSpeech::VBG),
        ("VBN", PartOfSpeech::VBN),
        ("VBP", PartOfSpeech::VBP),
        ("VBZ", PartOfSpeech::VBZ),
        ("WDT", PartOfSpeech::WDT),
        ("WP", PartOfSpeech::WP),
        ("WRB", PartOfSpeech::WRB),
    ];
    assert_eq!(cases.len(), 34);
    for (label, expected) in cases {
        match PartOfSpeech::from_label(label) {
            Ok(pos) => assert_eq!(pos, expected),
            Err(_) => panic!("label {} did not parse", label),
        }
    }
}

#[test]
fn unknown_label_is_rejected_with_the_label() {
    match PartOfSpeech::from_label("XYZ") {
        Err(PartOfSpeechError::UnknownLabel(s)) => assert_eq!(s, "XYZ"),
        _ => panic!("unknown label was not rejected"),
    }
    // Parsing is exact: case and whitespace matter.
    assert!(PartOfSpeech::from_label("nn").is_err());
    assert!(PartOfSpeech::from_label("NN ").is_err());
    assert!(PartOfSpeech::from_label("").is_err());
}

#[test]
fn from_str_matches_from_label() {
    let parsed: PartOfSpeech = "VBZ".parse().unwrap();
    assert_eq!(parsed, PartOfSpeech::VBZ);
    assert!("???".parse::<PartOfSpeech>().is_err());
}

#[test]
fn token_from_parts_happy_path() {
    let t = POSToken::try_from_parts("cats".into(), "NNS", Some((10, 14))).unwrap();
    assert_eq!(t.word, "cats");
    assert_eq!(t.tag, PartOfSpeech::NNS);
    assert_eq!(t.offset_begin, 10);
    assert_eq!(t.offset_end, 14);
}

#[test]
fn token_without_offset_is_rejected_first() {
    // A missing offset wins over an unknown label, carrying the text.
    match POSToken::try_from_parts("stray".into(), "???", None) {
        Err(PartOfSpeechError::MissingOffset(w)) => assert_eq!(w, "stray"),
        _ => panic!("missing offset was not reported"),
    }
}

#[test]
fn token_with_unknown_label_is_rejected() {
    match POSToken::try_from_parts("word".into(), "QQ", Some((0, 4))) {
        Err(PartOfSpeechError::UnknownLabel(l)) => assert_eq!(l, "QQ"),
        _ => panic!("unknown label was not reported"),
    }
}

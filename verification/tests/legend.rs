//! The output legend and the built-in category table: exact positions,
//! exact bitmaps, exact descriptors.

use natural_syntax_ls::semantic_tokens::{
    modifiers_to_bitmap, pos2token_bits, semantic_token_modifiers, semantic_token_types,
    TokenBits, TokenModifier, TokenType, N_TOKEN_MODIFIERS, N_TOKEN_TYPES,
};
use natural_syntax_ls::token::PartOfSpeech;

#[test]
fn token_types() {
    let types = semantic_token_types();
    let expected = vec![
        TokenType::Namespace,
        TokenType::Type,
        TokenType::Class,
        TokenType::Enum,
        TokenType::Interface,
        TokenType::Struct,
        TokenType::TypeParameter,
        TokenType::Parameter,
        TokenType::Variable,
        TokenType::Property,
        TokenType::EnumMember,
        TokenType::Event,
        TokenType::Function,
        TokenType::Method,
        TokenType::Macro,
        TokenType::Keyword,
        TokenType::Modifier,
        TokenType::Comment,
        TokenType::String,
        TokenType::Number,
        TokenType::Regexp,
        TokenType::Operator,
        TokenType::Decorator,
    ];
    assert_eq!(types, expected);
    assert_eq!(types.len(), N_TOKEN_TYPES as usize);
}

#[test]
fn token_modifiers() {
    let modifiers = semantic_token_modifiers();
    let expected = vec![
        TokenModifier::Declaration,
        TokenModifier::Definition,
        TokenModifier::Readonly,
        TokenModifier::Static,
        TokenModifier::Deprecated,
        TokenModifier::Abstract,
        TokenModifier::Async,
        TokenModifier::Modification,
        TokenModifier::Documentation,
        TokenModifier::DefaultLibrary,
    ];
    assert_eq!(modifiers, expected);
    assert_eq!(modifiers.len(), N_TOKEN_MODIFIERS as usize);
}

#[test]
fn legend_positions_are_the_wire_encoding() {
    assert_eq!(TokenType::Namespace.index(), 0);
    assert_eq!(TokenType::Keyword.index(), 15);
    assert_eq!(TokenType::Decorator.index(), 22);
    assert_eq!(TokenModifier::Declaration.index(), 0);
    assert_eq!(TokenModifier::DefaultLibrary.index(), 9);
}

#[test]
fn bitmap_of_modifiers() {
    assert_eq!(modifiers_to_bitmap(&[]), 0);
    assert_eq!(modifiers_to_bitmap(&[TokenModifier::Declaration]), 1);
    assert_eq!(modifiers_to_bitmap(&[TokenModifier::Readonly]), 1 << 2);
    assert_eq!(
        modifiers_to_bitmap(&[TokenModifier::Declaration, TokenModifier::Modification]),
        (1 << 0) | (1 << 7)
    );
    // A repeated modifier sets its bit once; order makes no difference.
    assert_eq!(
        modifiers_to_bitmap(&[TokenModifier::Modification, TokenModifier::Declaration]),
        0b1000_0001
    );
    assert_eq!(
        modifiers_to_bitmap(&[TokenModifier::Async, TokenModifier::Async]),
        1 << 6
    );
}

#[test]
fn default_descriptors_exact_values() {
    assert_eq!(
        pos2token_bits(PartOfSpeech::CC),
        TokenBits { token_type: 15, token_modifiers_bitset: 0 }
    );
    assert_eq!(
        pos2token_bits(PartOfSpeech::DT),
        TokenBits { token_type: 18, token_modifiers_bitset: 1 << 8 }
    );
    assert_eq!(
        pos2token_bits(PartOfSpeech::NNPS),
        TokenBits { token_type: 7, token_modifiers_bitset: (1 << 0) | (1 << 7) }
    );
    assert_eq!(
        pos2token_bits(PartOfSpeech::VBZ),
        TokenBits { token_type: 13, token_modifiers_bitset: 1 << 3 }
    );
    assert_eq!(
        pos2token_bits(PartOfSpeech::O),
        TokenBits { token_type: 17, token_modifiers_bitset: 1 << 4 }
    );
    assert_eq!(
        pos2token_bits(PartOfSpeech::WRB),
        TokenBits { token_type: 15, token_modifiers_bitset: 1 << 6 }
    );
}

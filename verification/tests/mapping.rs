//! The category-to-descriptor map: the built-in default, key-wise
//! merging, and suppression entries.

use natural_syntax_ls::semantic_tokens::{TokenBits, TokenModifier, TokenType};
use natural_syntax_ls::token::PartOfSpeech;
use natural_syntax_ls::token_mapping::{TokenMap, TokenTypeNModifiers};

#[test]
fn default_covers_every_category() {
    let map = TokenMap::default();
    for i in 0..34u8 {
        let pos = PartOfSpeech::from_index(i);
        assert_eq!(
            map.get(pos),
            Some(natural_syntax_ls::semantic_tokens::pos2token_bits(pos))
        );
    }
}

#[test]
fn extend_default() {
    let mut actual = TokenMap::default();
    // category -> override: CC gets `modifier` + `readonly`, TO gets
    // `enumMember` with no modifiers, IN is suppressed.
    let update = vec![
        (
            PartOfSpeech::CC,
            Some(TokenTypeNModifiers {
                token_type: TokenType::Modifier,
                modifiers: vec![TokenModifier::Readonly],
            }),
        ),
        (
            PartOfSpeech::TO,
            Some(TokenTypeNModifiers { token_type: TokenType::EnumMember, modifiers: vec![] }),
        ),
        (PartOfSpeech::IN, None),
    ];
    actual.extend(update);
    for i in 0..34u8 {
        let pos = PartOfSpeech::from_index(i);
        let expected = match pos {
            PartOfSpeech::CC => {
                Some(TokenBits { token_type: 16, token_modifiers_bitset: 1 << 2 })
            }
            PartOfSpeech::TO => Some(TokenBits { token_type: 10, token_modifiers_bitset: 0 }),
            PartOfSpeech::IN => None,
            other => Some(natural_syntax_ls::semantic_tokens::pos2token_bits(other)),
        };
        assert_eq!(actual.get(pos), expected);
    }
}

#[test]
fn later_updates_overwrite_earlier_ones() {
    let mut map = TokenMap::default();
    map.extend(vec![
        (PartOfSpeech::NN, None),
        (
            PartOfSpeech::NN,
            Some(TokenTypeNModifiers { token_type: TokenType::Variable, modifiers: vec![] }),
        ),
    ]);
    assert_eq!(
        map.get(PartOfSpeech::NN),
        Some(TokenBits { token_type: 8, token_modifiers_bitset: 0 })
    );
    // A suppression arriving last wins.
    map.extend(vec![(PartOfSpeech::NN, None)]);
    assert_eq!(map.get(PartOfSpeech::NN), None);
}

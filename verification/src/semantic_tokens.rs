//! Output-side token vocabulary: the token types and modifiers of the
//! caller-facing protocol, their positions in the advertised legend, the
//! modifier bitmap encoding, and the built-in mapping from part-of-speech
//! categories to output descriptors.

use vstd::prelude::*;

use crate::token::PartOfSpeech;

verus! {

/// Output token types, in legend order: the position of each variant in
/// [`semantic_token_types`] is its wire encoding.
#[derive(Copy, Clone, Debug, Eq, Hash, PartialEq, Structural)]
pub enum TokenType {
    /// `namespace`
    Namespace,
    /// `type`
    Type,
    /// `class`
    Class,
    /// `enum`
    Enum,
    /// `interface`
    Interface,
    /// `struct`
    Struct,
    /// `typeParameter`
    TypeParameter,
    /// `parameter`
    Parameter,
    /// `variable`
    Variable,
    /// `property`
    Property,
    /// `enumMember`
    EnumMember,
    /// `event`
    Event,
    /// `function`
    Function,
    /// `method`
    Method,
    /// `macro`
    Macro,
    /// `keyword`
    Keyword,
    /// `modifier`
    Modifier,
    /// `comment`
    Comment,
    /// `string`
    String,
    /// `number`
    Number,
    /// `regexp`
    Regexp,
    /// `operator`
    Operator,
    /// `decorator`
    Decorator,
}

/// The number of output token types.
pub const N_TOKEN_TYPES: u8 = 23;

/// The position of a token type in the legend.
pub open spec fn spec_token_type_index(t: TokenType) -> int {
    match t {
        TokenType::Namespace => 0,
        TokenType::Type => 1,
        TokenType::Class => 2,
        TokenType::Enum => 3,
        TokenType::Interface => 4,
        TokenType::Struct => 5,
        TokenType::TypeParameter => 6,
        TokenType::Parameter => 7,
        TokenType::Variable => 8,
        TokenType::Property => 9,
        TokenType::EnumMember => 10,
        TokenType::Event => 11,
        TokenType::Function => 12,
        TokenType::Method => 13,
        TokenType::Macro => 14,
        TokenType::Keyword => 15,
        TokenType::Modifier => 16,
        TokenType::Comment => 17,
        TokenType::String => 18,
        TokenType::Number => 19,
        TokenType::Regexp => 20,
        TokenType::Operator => 21,
        TokenType::Decorator => 22,
    }
}

impl TokenType {
    /// The position of this token type in the legend, which is its wire
    /// encoding.
    pub fn index(self) -> (i: u32)
        ensures
            i == spec_token_type_index(self),
            i < N_TOKEN_TYPES,
    {
        match self {
            TokenType::Namespace => 0,
            TokenType::Type => 1,
            TokenType::Class => 2,
            TokenType::Enum => 3,
            TokenType::Interface => 4,
            TokenType::Struct => 5,
            TokenType::TypeParameter => 6,
            TokenType::Parameter => 7,
            TokenType::Variable => 8,
            TokenType::Property => 9,
            TokenType::EnumMember => 10,
            TokenType::Event => 11,
            TokenType::Function => 12,
            TokenType::Method => 13,
            TokenType::Macro => 14,
            TokenType::Keyword => 15,
            TokenType::Modifier => 16,
            TokenType::Comment => 17,
            TokenType::String => 18,
            TokenType::Number => 19,
            TokenType::Regexp => 20,
            TokenType::Operator => 21,
            TokenType::Decorator => 22,
        }
    }

    /// The token type at a given position of the legend.
    pub fn from_index(i: u8) -> (t: TokenType)
        requires
            i < N_TOKEN_TYPES,
        ensures
            spec_token_type_index(t) == i,
    {
        if i == 0 {
            TokenType::Namespace
        } else if i == 1 {
            TokenType::Type
        } else if i == 2 {
            TokenType::Class
        } else if i == 3 {
            TokenType::Enum
        } else if i == 4 {
            TokenType::Interface
        } else if i == 5 {
            TokenType::Struct
        } else if i == 6 {
            TokenType::TypeParameter
        } else if i == 7 {
            TokenType::Parameter
        } else if i == 8 {
            TokenType::Variable
        } else if i == 9 {
            TokenType::Property
        } else if i == 10 {
            TokenType::EnumMember
        } else if i == 11 {
            TokenType::Event
        } else if i == 12 {
            TokenType::Function
        } else if i == 13 {
            TokenType::Method
        } else if i == 14 {
            TokenType::Macro
        } else if i == 15 {
            TokenType::Keyword
        } else if i == 16 {
            TokenType::Modifier
        } else if i == 17 {
            TokenType::Comment
        } else if i == 18 {
            TokenType::String
        } else if i == 19 {
            TokenType::Number
        } else if i == 20 {
            TokenType::Regexp
        } else if i == 21 {
            TokenType::Operator
        } else {
            TokenType::Decorator
        }
    }
}

/// All token types in legend order, for advertising the legend to callers.
pub fn semantic_token_types() -> (r: Vec<TokenType>)
    ensures
        r@.len() == N_TOKEN_TYPES,
        forall|i: int| 0 <= i < r@.len() ==> spec_token_type_index(#[trigger] r@[i]) == i,
{
    let mut r: Vec<TokenType> = Vec::new();
    let mut i: u8 = 0;
    while i < N_TOKEN_TYPES
        invariant
            i <= N_TOKEN_TYPES,
            r@.len() == i,
            forall|j: int| 0 <= j < r@.len() ==> spec_token_type_index(#[trigger] r@[j]) == j,
        decreases N_TOKEN_TYPES - i,
    {
        r.push(TokenType::from_index(i));
        i = i + 1;
    }
    r
}

/// Output token modifiers, in legend order: the position of each variant
/// in [`semantic_token_modifiers`] is its bit position in the modifier
/// bitmap.
#[derive(Copy, Clone, Debug, Eq, Hash, PartialEq, Structural)]
pub enum TokenModifier {
    /// `declaration`
    Declaration,
    /// `definition`
    Definition,
    /// `readonly`
    Readonly,
    /// `static`
    Static,
    /// `deprecated`
    Deprecated,
    /// `abstract`
    Abstract,
    /// `async`
    Async,
    /// `modification`
    Modification,
    /// `documentation`
    Documentation,
    /// `defaultLibrary`
    DefaultLibrary,
}

/// The number of output token modifiers.
pub const N_TOKEN_MODIFIERS: u8 = 10;

/// The bit position of a modifier in the modifier bitmap.
pub open spec fn spec_modifier_index(m: TokenModifier) -> int {
    match m {
        TokenModifier::Declaration => 0,
        TokenModifier::Definition => 1,
        TokenModifier::Readonly => 2,
        TokenModifier::Static => 3,
        TokenModifier::Deprecated => 4,
        TokenModifier::Abstract => 5,
        TokenModifier::Async => 6,
        TokenModifier::Modification => 7,
        TokenModifier::Documentation => 8,
        TokenModifier::DefaultLibrary => 9,
    }
}

impl TokenModifier {
    /// The bit position of this modifier in the modifier bitmap.
    pub fn index(self) -> (i: u32)
        ensures
            i == spec_modifier_index(self),
            i < N_TOKEN_MODIFIERS,
    {
        match self {
            TokenModifier::Declaration => 0,
            TokenModifier::Definition => 1,
            TokenModifier::Readonly => 2,
            TokenModifier::Static => 3,
            TokenModifier::Deprecated => 4,
            TokenModifier::Abstract => 5,
            TokenModifier::Async => 6,
            TokenModifier::Modification => 7,
            TokenModifier::Documentation => 8,
            TokenModifier::DefaultLibrary => 9,
        }
    }

    /// The modifier at a given position of the legend.
    pub fn from_index(i: u8) -> (m: TokenModifier)
        requires
            i < N_TOKEN_MODIFIERS,
        ensures
            spec_modifier_index(m) == i,
    {
        if i == 0 {
            TokenModifier::Declaration
        } else if i == 1 {
            TokenModifier::Definition
        } else if i == 2 {
            TokenModifier::Readonly
        } else if i == 3 {
            TokenModifier::Static
        } else if i == 4 {
            TokenModifier::Deprecated
        } else if i == 5 {
            TokenModifier::Abstract
        } else if i == 6 {
            TokenModifier::Async
        } else if i == 7 {
            TokenModifier::Modification
        } else if i == 8 {
            TokenModifier::Documentation
        } else {
            TokenModifier::DefaultLibrary
        }
    }
}

/// All token modifiers in legend order, for advertising the legend to
/// callers.
pub fn semantic_token_modifiers() -> (r: Vec<TokenModifier>)
    ensures
        r@.len() == N_TOKEN_MODIFIERS,
        forall|i: int| 0 <= i < r@.len() ==> spec_modifier_index(#[trigger] r@[i]) == i,
{
    let mut r: Vec<TokenModifier> = Vec::new();
    let mut i: u8 = 0;
    while i < N_TOKEN_MODIFIERS
        invariant
            i <= N_TOKEN_MODIFIERS,
            r@.len() == i,
            forall|j: int| 0 <= j < r@.len() ==> spec_modifier_index(#[trigger] r@[j]) == j,
        decreases N_TOKEN_MODIFIERS - i,
    {
        r.push(TokenModifier::from_index(i));
        i = i + 1;
    }
    r
}

/// A set of modifiers encoded as a bitmap: one bit per modifier, at the
/// modifier's legend position.
pub open spec fn spec_modifiers_bitmap(ms: Seq<TokenModifier>) -> u32
    decreases ms.len(),
{
    if ms.len() == 0 {
        0u32
    } else {
        spec_modifiers_bitmap(ms.drop_last()) | (1u32 << (spec_modifier_index(ms.last()) as u32))
    }
}

/// Encode a set of modifiers as a bitmap, one bit per modifier.
pub fn modifiers_to_bitmap(modifiers: &[TokenModifier]) -> (bitmap: u32)
    ensures
        bitmap == spec_modifiers_bitmap(modifiers@),
{
    let mut bitmap: u32 = 0;
    let mut index: usize = 0;
    while index < modifiers.len()
        invariant
            index <= modifiers@.len(),
            bitmap == spec_modifiers_bitmap(modifiers@.take(index as int)),
        decreases modifiers@.len() - index,
    {
        let m = modifiers[index];
        bitmap = bitmap | (1u32 << m.index());
        index = index + 1;
        proof {
            assert(modifiers@.take(index as int).drop_last() =~= modifiers@.take(index - 1));
            assert(modifiers@.take(index as int).last() == m);
        }
    }
    proof {
        assert(modifiers@.take(modifiers@.len() as int) =~= modifiers@);
    }
    bitmap
}

/// An output descriptor: a token type's wire encoding paired with a
/// modifier bitmap.
#[derive(Copy, Clone, Debug, Eq, PartialEq, Structural)]
pub struct TokenBits {
    /// The token type, as its position in the type legend.
    pub token_type: u32,
    /// The modifiers, as a bitmap over the modifier legend.
    pub token_modifiers_bitset: u32,
}

/// The built-in default descriptor of each part-of-speech category.
pub open spec fn spec_pos2token_bits(pos: PartOfSpeech) -> TokenBits {
    match pos {
        PartOfSpeech::CC => TokenBits {
            token_type: spec_token_type_index(TokenType::Keyword) as u32,
            token_modifiers_bitset: spec_modifiers_bitmap(seq![]),
        },
        PartOfSpeech::CD => TokenBits {
            token_type: spec_token_type_index(TokenType::Number) as u32,
            token_modifiers_bitset: spec_modifiers_bitmap(seq![]),
        },
        PartOfSpeech::DT => TokenBits {
            token_type: spec_token_type_index(TokenType::String) as u32,
            token_modifiers_bitset: spec_modifiers_bitmap(seq![TokenModifier::Documentation]),
        },
        PartOfSpeech::EX => TokenBits {
            token_type: spec_token_type_index(TokenType::Keyword) as u32,
            token_modifiers_bitset: spec_modifiers_bitmap(seq![TokenModifier::Definition]),
        },
        PartOfSpeech::FW => TokenBits {
            token_type: spec_token_type_index(TokenType::String) as u32,
            token_modifiers_bitset: spec_modifiers_bitmap(seq![]),
        },
        PartOfSpeech::IN => TokenBits {
            token_type: spec_token_type_index(TokenType::Comment) as u32,
            token_modifiers_bitset: spec_modifiers_bitmap(seq![TokenModifier::Async]),
        },
        PartOfSpeech::JJ => TokenBits {
            token_type: spec_token_type_index(TokenType::Type) as u32,
            token_modifiers_bitset: spec_modifiers_bitmap(seq![]),
        },
        PartOfSpeech::JJR => TokenBits {
            token_type: spec_token_type_index(TokenType::Struct) as u32,
            token_modifiers_bitset: spec_modifiers_bitmap(seq![TokenModifier::Modification]),
        },
        PartOfSpeech::JJS => TokenBits {
            token_type: spec_token_type_index(TokenType::Interface) as u32,
            token_modifiers_bitset: spec_modifiers_bitmap(seq![TokenModifier::DefaultLibrary]),
        },
        PartOfSpeech::MD => TokenBits {
            token_type: spec_token_type_index(TokenType::Keyword) as u32,
            token_modifiers_bitset: spec_modifiers_bitmap(seq![TokenModifier::Readonly]),
        },
        PartOfSpeech::NN => TokenBits {
            token_type: spec_token_type_index(TokenType::Parameter) as u32,
            token_modifiers_bitset: spec_modifiers_bitmap(seq![]),
        },
        PartOfSpeech::NNP => TokenBits {
            token_type: spec_token_type_index(TokenType::Parameter) as u32,
            token_modifiers_bitset: spec_modifiers_bitmap(seq![TokenModifier::Declaration]),
        },
        PartOfSpeech::NNPS => TokenBits {
            token_type: spec_token_type_index(TokenType::Parameter) as u32,
            token_modifiers_bitset: spec_modifiers_bitmap(
                seq![TokenModifier::Declaration, TokenModifier::Modification],
            ),
        },
        PartOfSpeech::NNS => TokenBits {
            token_type: spec_token_type_index(TokenType::Parameter) as u32,
            token_modifiers_bitset: spec_modifiers_bitmap(seq![TokenModifier::Modification]),
        },
        PartOfSpeech::O => TokenBits {
            token_type: spec_token_type_index(TokenType::Comment) as u32,
            token_modifiers_bitset: spec_modifiers_bitmap(seq![TokenModifier::Deprecated]),
        },
        PartOfSpeech::PDT => TokenBits {
            token_type: spec_token_type_index(TokenType::String) as u32,
            token_modifiers_bitset: spec_modifiers_bitmap(seq![TokenModifier::Abstract]),
        },
        PartOfSpeech::POS => TokenBits {
            token_type: spec_token_type_index(TokenType::Property) as u32,
            token_modifiers_bitset: spec_modifiers_bitmap(seq![TokenModifier::Declaration]),
        },
        PartOfSpeech::PRP => TokenBits {
            token_type: spec_token_type_index(TokenType::Property) as u32,
            token_modifiers_bitset: spec_modifiers_bitmap(seq![]),
        },
        PartOfSpeech::RB => TokenBits {
            token_type: spec_token_type_index(TokenType::EnumMember) as u32,
            token_modifiers_bitset: spec_modifiers_bitmap(seq![]),
        },
        PartOfSpeech::RBR => TokenBits {
            token_type: spec_token_type_index(TokenType::EnumMember) as u32,
            token_modifiers_bitset: spec_modifiers_bitmap(seq![TokenModifier::Async]),
        },
        PartOfSpeech::RBS => TokenBits {
            token_type: spec_token_type_index(TokenType::EnumMember) as u32,
            token_modifiers_bitset: spec_modifiers_bitmap(seq![TokenModifier::DefaultLibrary]),
        },
        PartOfSpeech::RP => TokenBits {
            token_type: spec_token_type_index(TokenType::Operator) as u32,
            token_modifiers_bitset: spec_modifiers_bitmap(seq![]),
        },
        PartOfSpeech::SYM => TokenBits {
            token_type: spec_token_type_index(TokenType::Operator) as u32,
            token_modifiers_bitset: spec_modifiers_bitmap(seq![TokenModifier::Documentation]),
        },
        PartOfSpeech::TO => TokenBits {
            token_type: spec_token_type_index(TokenType::Keyword) as u32,
            token_modifiers_bitset: spec_modifiers_bitmap(seq![TokenModifier::Static]),
        },
        PartOfSpeech::UH => TokenBits {
            token_type: spec_token_type_index(TokenType::Keyword) as u32,
            token_modifiers_bitset: spec_modifiers_bitmap(seq![TokenModifier::Modification]),
        },
        PartOfSpeech::VB => TokenBits {
            token_type: spec_token_type_index(TokenType::Function) as u32,
            token_modifiers_bitset: spec_modifiers_bitmap(seq![]),
        },
        PartOfSpeech::VBD => TokenBits {
            token_type: spec_token_type_index(TokenType::Function) as u32,
            token_modifiers_bitset: spec_modifiers_bitmap(seq![TokenModifier::Modification]),
        },
        PartOfSpeech::VBG => TokenBits {
            token_type: spec_token_type_index(TokenType::Function) as u32,
            token_modifiers_bitset: spec_modifiers_bitmap(seq![TokenModifier::Async]),
        },
        PartOfSpeech::VBN => TokenBits {
            token_type: spec_token_type_index(TokenType::Method) as u32,
            token_modifiers_bitset: spec_modifiers_bitmap(seq![TokenModifier::DefaultLibrary]),
        },
        PartOfSpeech::VBP => TokenBits {
            token_type: spec_token_type_index(TokenType::Function) as u32,
            token_modifiers_bitset: spec_modifiers_bitmap(seq![TokenModifier::Readonly]),
        },
        PartOfSpeech::VBZ => TokenBits {
            token_type: spec_token_type_index(TokenType::Method) as u32,
            token_modifiers_bitset: spec_modifiers_bitmap(seq![TokenModifier::Static]),
        },
        PartOfSpeech::WDT => TokenBits {
            token_type: spec_token_type_index(TokenType::Keyword) as u32,
            token_modifiers_bitset: spec_modifiers_bitmap(seq![TokenModifier::Documentation]),
        },
        PartOfSpeech::WP => TokenBits {
            token_type: spec_token_type_index(TokenType::Keyword) as u32,
            token_modifiers_bitset: spec_modifiers_bitmap(seq![TokenModifier::DefaultLibrary]),
        },
        PartOfSpeech::WRB => TokenBits {
            token_type: spec_token_type_index(TokenType::Keyword) as u32,
            token_modifiers_bitset: spec_modifiers_bitmap(seq![TokenModifier::Async]),
        },
    }
}

/// The built-in default mapping from part-of-speech category to output
/// descriptor.
#[verifier::rlimit(50)]
pub fn pos2token_bits(pos: PartOfSpeech) -> (r: TokenBits)
    ensures
        r == spec_pos2token_bits(pos),
{
    match pos {
        PartOfSpeech::CC => {
            // Coordinating conjunctions
            let ms: &[TokenModifier] = &[];
            proof {
                assert(ms@ =~= Seq::<TokenModifier>::empty());
            }
            TokenBits {
                token_type: TokenType::Keyword.index(),
                token_modifiers_bitset: modifiers_to_bitmap(ms),
            }
        },
        PartOfSpeech::CD => {
            // Cardinal numbers
            let ms: &[TokenModifier] = &[];
            proof {
                assert(ms@ =~= Seq::<TokenModifier>::empty());
            }
            TokenBits {
                token_type: TokenType::Number.index(),
                token_modifiers_bitset: modifiers_to_bitmap(ms),
            }
        },
        PartOfSpeech::DT => {
            // Determiners
            let ms: &[TokenModifier] = &[TokenModifier::Documentation];
            proof {
                assert(ms@ =~= seq![TokenModifier::Documentation]);
            }
            TokenBits {
                token_type: TokenType::String.index(),
                token_modifiers_bitset: modifiers_to_bitmap(ms),
            }
        },
        PartOfSpeech::EX => {
            // Existential "there"
            let ms: &[TokenModifier] = &[TokenModifier::Definition];
            proof {
                assert(ms@ =~= seq![TokenModifier::Definition]);
            }
            TokenBits {
                token_type: TokenType::Keyword.index(),
                token_modifiers_bitset: modifiers_to_bitmap(ms),
            }
        },
        PartOfSpeech::FW => {
            // Foreign words
            let ms: &[TokenModifier] = &[];
            proof {
                assert(ms@ =~= Seq::<TokenModifier>::empty());
            }
            TokenBits {
                token_type: TokenType::String.index(),
                token_modifiers_bitset: modifiers_to_bitmap(ms),
            }
        },
        PartOfSpeech::IN => {
            // Prepositions
            let ms: &[TokenModifier] = &[TokenModifier::Async];
            proof {
                assert(ms@ =~= seq![TokenModifier::Async]);
            }
            TokenBits {
                token_type: TokenType::Comment.index(),
                token_modifiers_bitset: modifiers_to_bitmap(ms),
            }
        },
        PartOfSpeech::JJ => {
            // Adjectives
            let ms: &[TokenModifier] = &[];
            proof {
                assert(ms@ =~= Seq::<TokenModifier>::empty());
            }
            TokenBits {
                token_type: TokenType::Type.index(),
                token_modifiers_bitset: modifiers_to_bitmap(ms),
            }
        },
        PartOfSpeech::JJR => {
            // Comparative adjectives
            let ms: &[TokenModifier] = &[TokenModifier::Modification];
            proof {
                assert(ms@ =~= seq![TokenModifier::Modification]);
            }
            TokenBits {
                token_type: TokenType::Struct.index(),
                token_modifiers_bitset: modifiers_to_bitmap(ms),
            }
        },
        PartOfSpeech::JJS => {
            // Superlative adjectives
            let ms: &[TokenModifier] = &[TokenModifier::DefaultLibrary];
            proof {
                assert(ms@ =~= seq![TokenModifier::DefaultLibrary]);
            }
            TokenBits {
                token_type: TokenType::Interface.index(),
                token_modifiers_bitset: modifiers_to_bitmap(ms),
            }
        },
        PartOfSpeech::MD => {
            // Modals
            let ms: &[TokenModifier] = &[TokenModifier::Readonly];
            proof {
                assert(ms@ =~= seq![TokenModifier::Readonly]);
            }
            TokenBits {
                token_type: TokenType::Keyword.index(),
                token_modifiers_bitset: modifiers_to_bitmap(ms),
            }
        },
        PartOfSpeech::NN => {
            // Nouns (singular or mass)
            let ms: &[TokenModifier] = &[];
            proof {
                assert(ms@ =~= Seq::<TokenModifier>::empty());
            }
            TokenBits {
                token_type: TokenType::Parameter.index(),
                token_modifiers_bitset: modifiers_to_bitmap(ms),
            }
        },
        PartOfSpeech::NNP => {
            // Proper nouns (singular)
            let ms: &[TokenModifier] = &[TokenModifier::Declaration];
            proof {
                assert(ms@ =~= seq![TokenModifier::Declaration]);
            }
            TokenBits {
                token_type: TokenType::Parameter.index(),
                token_modifiers_bitset: modifiers_to_bitmap(ms),
            }
        },
        PartOfSpeech::NNPS => {
            // Proper nouns (plural)
            let ms: &[TokenModifier] = &[TokenModifier::Declaration, TokenModifier::Modification];
            proof {
                assert(ms@ =~= seq![TokenModifier::Declaration, TokenModifier::Modification]);
            }
            TokenBits {
                token_type: TokenType::Parameter.index(),
                token_modifiers_bitset: modifiers_to_bitmap(ms),
            }
        },
        PartOfSpeech::NNS => {
            // Nouns (plural)
            let ms: &[TokenModifier] = &[TokenModifier::Modification];
            proof {
                assert(ms@ =~= seq![TokenModifier::Modification]);
            }
            TokenBits {
                token_type: TokenType::Parameter.index(),
                token_modifiers_bitset: modifiers_to_bitmap(ms),
            }
        },
        PartOfSpeech::O => {
            // Other (not a part of speech)
            let ms: &[TokenModifier] = &[TokenModifier::Deprecated];
            proof {
                assert(ms@ =~= seq![TokenModifier::Deprecated]);
            }
            TokenBits {
                token_type: TokenType::Comment.index(),
                token_modifiers_bitset: modifiers_to_bitmap(ms),
            }
        },
        PartOfSpeech::PDT => {
            // Predeterminers
            let ms: &[TokenModifier] = &[TokenModifier::Abstract];
            proof {
                assert(ms@ =~= seq![TokenModifier::Abstract]);
            }
            TokenBits {
                token_type: TokenType::String.index(),
                token_modifiers_bitset: modifiers_to_bitmap(ms),
            }
        },
        PartOfSpeech::POS => {
            // Possessive endings
            let ms: &[TokenModifier] = &[TokenModifier::Declaration];
            proof {
                assert(ms@ =~= seq![TokenModifier::Declaration]);
            }
            TokenBits {
                token_type: TokenType::Property.index(),
                token_modifiers_bitset: modifiers_to_bitmap(ms),
            }
        },
        PartOfSpeech::PRP => {
            // Personal pronouns
            let ms: &[TokenModifier] = &[];
            proof {
                assert(ms@ =~= Seq::<TokenModifier>::empty());
            }
            TokenBits {
                token_type: TokenType::Property.index(),
                token_modifiers_bitset: modifiers_to_bitmap(ms),
            }
        },
        PartOfSpeech::RB => {
            // Adverbs
            let ms: &[TokenModifier] = &[];
            proof {
                assert(ms@ =~= Seq::<TokenModifier>::empty());
            }
            TokenBits {
                token_type: TokenType::EnumMember.index(),
                token_modifiers_bitset: modifiers_to_bitmap(ms),
            }
        },
        PartOfSpeech::RBR => {
            // Comparative adverbs
            let ms: &[TokenModifier] = &[TokenModifier::Async];
            proof {
                assert(ms@ =~= seq![TokenModifier::Async]);
            }
            TokenBits {
                token_type: TokenType::EnumMember.index(),
                token_modifiers_bitset: modifiers_to_bitmap(ms),
            }
        },
        PartOfSpeech::RBS => {
            // Superlative adverbs
            let ms: &[TokenModifier] = &[TokenModifier::DefaultLibrary];
            proof {
                assert(ms@ =~= seq![TokenModifier::DefaultLibrary]);
            }
            TokenBits {
                token_type: TokenType::EnumMember.index(),
                token_modifiers_bitset: modifiers_to_bitmap(ms),
            }
        },
        PartOfSpeech::RP => {
            // Particles
            let ms: &[TokenModifier] = &[];
            proof {
                assert(ms@ =~= Seq::<TokenModifier>::empty());
            }
            TokenBits {
                token_type: TokenType::Operator.index(),
                token_modifiers_bitset: modifiers_to_bitmap(ms),
            }
        },
        PartOfSpeech::SYM => {
            // Symbols
            let ms: &[TokenModifier] = &[TokenModifier::Documentation];
            proof {
                assert(ms@ =~= seq![TokenModifier::Documentation]);
            }
            TokenBits {
                token_type: TokenType::Operator.index(),
                token_modifiers_bitset: modifiers_to_bitmap(ms),
            }
        },
        PartOfSpeech::TO => {
            // "To"
            let ms: &[TokenModifier] = &[TokenModifier::Static];
            proof {
                assert(ms@ =~= seq![TokenModifier::Static]);
            }
            TokenBits {
                token_type: TokenType::Keyword.index(),
                token_modifiers_bitset: modifiers_to_bitmap(ms),
            }
        },
        PartOfSpeech::UH => {
            // Interjections
            let ms: &[TokenModifier] = &[TokenModifier::Modification];
            proof {
                assert(ms@ =~= seq![TokenModifier::Modification]);
            }
            TokenBits {
                token_type: TokenType::Keyword.index(),
                token_modifiers_bitset: modifiers_to_bitmap(ms),
            }
        },
        PartOfSpeech::VB => {
            // Base form verbs
            let ms: &[TokenModifier] = &[];
            proof {
                assert(ms@ =~= Seq::<TokenModifier>::empty());
            }
            TokenBits {
                token_type: TokenType::Function.index(),
                token_modifiers_bitset: modifiers_to_bitmap(ms),
            }
        },
        PartOfSpeech::VBD => {
            // Past tense verbs
            let ms: &[TokenModifier] = &[TokenModifier::Modification];
            proof {
                assert(ms@ =~= seq![TokenModifier::Modification]);
            }
            TokenBits {
                token_type: TokenType::Function.index(),
                token_modifiers_bitset: modifiers_to_bitmap(ms),
            }
        },
        PartOfSpeech::VBG => {
            // Gerund or present participle verbs
            let ms: &[TokenModifier] = &[TokenModifier::Async];
            proof {
                assert(ms@ =~= seq![TokenModifier::Async]);
            }
            TokenBits {
                token_type: TokenType::Function.index(),
                token_modifiers_bitset: modifiers_to_bitmap(ms),
            }
        },
        PartOfSpeech::VBN => {
            // Past participle verbs
            let ms: &[TokenModifier] = &[TokenModifier::DefaultLibrary];
            proof {
                assert(ms@ =~= seq![TokenModifier::DefaultLibrary]);
            }
            TokenBits {
                token_type: TokenType::Method.index(),
                token_modifiers_bitset: modifiers_to_bitmap(ms),
            }
        },
        PartOfSpeech::VBP => {
            // Non-3rd person singular present verbs
            let ms: &[TokenModifier] = &[TokenModifier::Readonly];
            proof {
                assert(ms@ =~= seq![TokenModifier::Readonly]);
            }
            TokenBits {
                token_type: TokenType::Function.index(),
                token_modifiers_bitset: modifiers_to_bitmap(ms),
            }
        },
        PartOfSpeech::VBZ => {
            // 3rd person singular present verbs
            let ms: &[TokenModifier] = &[TokenModifier::Static];
            proof {
                assert(ms@ =~= seq![TokenModifier::Static]);
            }
            TokenBits {
                token_type: TokenType::Method.index(),
                token_modifiers_bitset: modifiers_to_bitmap(ms),
            }
        },
        PartOfSpeech::WDT => {
            // Wh-determiners
            let ms: &[TokenModifier] = &[TokenModifier::Documentation];
            proof {
                assert(ms@ =~= seq![TokenModifier::Documentation]);
            }
            TokenBits {
                token_type: TokenType::Keyword.index(),
                token_modifiers_bitset: modifiers_to_bitmap(ms),
            }
        },
        PartOfSpeech::WP => {
            // Wh-pronouns
            let ms: &[TokenModifier] = &[TokenModifier::DefaultLibrary];
            proof {
                assert(ms@ =~= seq![TokenModifier::DefaultLibrary]);
            }
            TokenBits {
                token_type: TokenType::Keyword.index(),
                token_modifiers_bitset: modifiers_to_bitmap(ms),
            }
        },
        PartOfSpeech::WRB => {
            // Wh-adverbs
            let ms: &[TokenModifier] = &[TokenModifier::Async];
            proof {
                assert(ms@ =~= seq![TokenModifier::Async]);
            }
            TokenBits {
                token_type: TokenType::Keyword.index(),
                token_modifiers_bitset: modifiers_to_bitmap(ms),
            }
        },
    }
}

} // verus!

//! Part-of-speech categories, classified tokens, and the parsing of raw
//! classifier labels into categories.

use vstd::prelude::*;

use std::str::FromStr;

verus! {

/// The number of part-of-speech categories.
pub const N_PART_OF_SPEECH: u8 = 34;

/// Part-of-speech label categories assigned by the external classifier to
/// spans of text (the Penn Treebank tag set, plus `O` for "other").
#[derive(Copy, Clone, Debug, Eq, Hash, PartialEq, Structural)]
pub enum PartOfSpeech {
    /// Coordinating conjunction
    CC,
    /// Cardinal number
    CD,
    /// Determiner
    DT,
    /// Existential there
    EX,
    /// Foreign word
    FW,
    /// Preposition or subordinating conjunction
    IN,
    /// Adjective
    JJ,
    /// Adjective, comparative
    JJR,
    /// Adjective, superlative
    JJS,
    /// Modal
    MD,
    /// Noun, singular or mass
    NN,
    /// Proper noun, singular
    NNP,
    /// Proper noun, plural
    NNPS,
    /// Noun, plural
    NNS,
    /// Other (not a part of speech)
    O,
    /// Predeterminer
    PDT,
    /// Possessive ending
    POS,
    /// Personal pronoun
    PRP,
    /// Adverb
    RB,
    /// Adverb, comparative
    RBR,
    /// Adverb, superlative
    RBS,
    /// Particle
    RP,
    /// Symbol
    SYM,
    /// to
    TO,
    /// Interjection
    UH,
    /// Verb, base form
    VB,
    /// Verb, past tense
    VBD,
    /// Verb, gerund or present participle
    VBG,
    /// Verb, past participle
    VBN,
    /// Verb, non-3rd person singular present
    VBP,
    /// Verb, 3rd person singular present
    VBZ,
    /// Wh-determiner
    WDT,
    /// Wh-pronoun
    WP,
    /// Wh-adverb
    WRB,
}

/// The position of a category in the fixed enumeration of all categories.
pub open spec fn spec_pos_index(pos: PartOfSpeech) -> int {
    match pos {
        PartOfSpeech::CC => 0,
        PartOfSpeech::CD => 1,
        PartOfSpeech::DT => 2,
        PartOfSpeech::EX => 3,
        PartOfSpeech::FW => 4,
        PartOfSpeech::IN => 5,
        PartOfSpeech::JJ => 6,
        PartOfSpeech::JJR => 7,
        PartOfSpeech::JJS => 8,
        PartOfSpeech::MD => 9,
        PartOfSpeech::NN => 10,
        PartOfSpeech::NNP => 11,
        PartOfSpeech::NNPS => 12,
        PartOfSpeech::NNS => 13,
        PartOfSpeech::O => 14,
        PartOfSpeech::PDT => 15,
        PartOfSpeech::POS => 16,
        PartOfSpeech::PRP => 17,
        PartOfSpeech::RB => 18,
        PartOfSpeech::RBR => 19,
        PartOfSpeech::RBS => 20,
        PartOfSpeech::RP => 21,
        PartOfSpeech::SYM => 22,
        PartOfSpeech::TO => 23,
        PartOfSpeech::UH => 24,
        PartOfSpeech::VB => 25,
        PartOfSpeech::VBD => 26,
        PartOfSpeech::VBG => 27,
        PartOfSpeech::VBN => 28,
        PartOfSpeech::VBP => 29,
        PartOfSpeech::VBZ => 30,
        PartOfSpeech::WDT => 31,
        PartOfSpeech::WP => 32,
        PartOfSpeech::WRB => 33,
    }
}

impl PartOfSpeech {
    /// The position of this category in the fixed enumeration.
    pub fn index(self) -> (i: u8)
        ensures
            i == spec_pos_index(self),
            i < N_PART_OF_SPEECH,
    {
        match self {
            PartOfSpeech::CC => 0,
            PartOfSpeech::CD => 1,
            PartOfSpeech::DT => 2,
            PartOfSpeech::EX => 3,
            PartOfSpeech::FW => 4,
            PartOfSpeech::IN => 5,
            PartOfSpeech::JJ => 6,
            PartOfSpeech::JJR => 7,
            PartOfSpeech::JJS => 8,
            PartOfSpeech::MD => 9,
            PartOfSpeech::NN => 10,
            PartOfSpeech::NNP => 11,
            PartOfSpeech::NNPS => 12,
            PartOfSpeech::NNS => 13,
            PartOfSpeech::O => 14,
            PartOfSpeech::PDT => 15,
            PartOfSpeech::POS => 16,
            PartOfSpeech::PRP => 17,
            PartOfSpeech::RB => 18,
            PartOfSpeech::RBR => 19,
            PartOfSpeech::RBS => 20,
            PartOfSpeech::RP => 21,
            PartOfSpeech::SYM => 22,
            PartOfSpeech::TO => 23,
            PartOfSpeech::UH => 24,
            PartOfSpeech::VB => 25,
            PartOfSpeech::VBD => 26,
            PartOfSpeech::VBG => 27,
            PartOfSpeech::VBN => 28,
            PartOfSpeech::VBP => 29,
            PartOfSpeech::VBZ => 30,
            PartOfSpeech::WDT => 31,
            PartOfSpeech::WP => 32,
            PartOfSpeech::WRB => 33,
        }
    }

    /// The category at a given position of the fixed enumeration.
    pub fn from_index(i: u8) -> (pos: PartOfSpeech)
        requires
            i < N_PART_OF_SPEECH,
        ensures
            spec_pos_index(pos) == i,
    {
        if i == 0 {
            PartOfSpeech::CC
        } else if i == 1 {
            PartOfSpeech::CD
        } else if i == 2 {
            PartOfSpeech::DT
        } else if i == 3 {
            PartOfSpeech::EX
        } else if i == 4 {
            PartOfSpeech::FW
        } else if i == 5 {
            PartOfSpeech::IN
        } else if i == 6 {
            PartOfSpeech::JJ
        } else if i == 7 {
            PartOfSpeech::JJR
        } else if i == 8 {
            PartOfSpeech::JJS
        } else if i == 9 {
            PartOfSpeech::MD
        } else if i == 10 {
            PartOfSpeech::NN
        } else if i == 11 {
            PartOfSpeech::NNP
        } else if i == 12 {
            PartOfSpeech::NNPS
        } else if i == 13 {
            PartOfSpeech::NNS
        } else if i == 14 {
            PartOfSpeech::O
        } else if i == 15 {
            PartOfSpeech::PDT
        } else if i == 16 {
            PartOfSpeech::POS
        } else if i == 17 {
            PartOfSpeech::PRP
        } else if i == 18 {
            PartOfSpeech::RB
        } else if i == 19 {
            PartOfSpeech::RBR
        } else if i == 20 {
            PartOfSpeech::RBS
        } else if i == 21 {
            PartOfSpeech::RP
        } else if i == 22 {
            PartOfSpeech::SYM
        } else if i == 23 {
            PartOfSpeech::TO
        } else if i == 24 {
            PartOfSpeech::UH
        } else if i == 25 {
            PartOfSpeech::VB
        } else if i == 26 {
            PartOfSpeech::VBD
        } else if i == 27 {
            PartOfSpeech::VBG
        } else if i == 28 {
            PartOfSpeech::VBN
        } else if i == 29 {
            PartOfSpeech::VBP
        } else if i == 30 {
            PartOfSpeech::VBZ
        } else if i == 31 {
            PartOfSpeech::WDT
        } else if i == 32 {
            PartOfSpeech::WP
        } else {
            PartOfSpeech::WRB
        }
    }
}

/// Errors of the classification pipeline. Each is handled locally: a span
/// that produces one is dropped from the result set, never failing the
/// whole computation.
#[derive(Clone, Debug)]
pub enum PartOfSpeechError {
    /// The classifier emitted a label outside the known category set;
    /// carries the offending label.
    UnknownLabel(String),
    /// The classifier emitted a token without position information;
    /// carries the token's text.
    MissingOffset(String),
}

/// The category a raw classifier label denotes, or `None` for a label
/// outside the known set.
pub open spec fn pos_of_label(s: Seq<char>) -> Option<PartOfSpeech> {
    if s == "CC"@ {
        Some(PartOfSpeech::CC)
    } else if s == "CD"@ {
        Some(PartOfSpeech::CD)
    } else if s == "DT"@ {
        Some(PartOfSpeech::DT)
    } else if s == "EX"@ {
        Some(PartOfSpeech::EX)
    } else if s == "FW"@ {
        Some(PartOfSpeech::FW)
    } else if s == "IN"@ {
        Some(PartOfSpeech::IN)
    } else if s == "JJ"@ {
        Some(PartOfSpeech::JJ)
    } else if s == "JJR"@ {
        Some(PartOfSpeech::JJR)
    } else if s == "JJS"@ {
        Some(PartOfSpeech::JJS)
    } else if s == "MD"@ {
        Some(PartOfSpeech::MD)
    } else if s == "NN"@ {
        Some(PartOfSpeech::NN)
    } else if s == "NNP"@ {
        Some(PartOfSpeech::NNP)
    } else if s == "NNPS"@ {
        Some(PartOfSpeech::NNPS)
    } else if s == "NNS"@ {
        Some(PartOfSpeech::NNS)
    } else if s == "O"@ {
        Some(PartOfSpeech::O)
    } else if s == "PDT"@ {
        Some(PartOfSpeech::PDT)
    } else if s == "POS"@ {
        Some(PartOfSpeech::POS)
    } else if s == "PRP"@ {
        Some(PartOfSpeech::PRP)
    } else if s == "RB"@ {
        Some(PartOfSpeech::RB)
    } else if s == "RBR"@ {
        Some(PartOfSpeech::RBR)
    } else if s == "RBS"@ {
        Some(PartOfSpeech::RBS)
    } else if s == "RP"@ {
        Some(PartOfSpeech::RP)
    } else if s == "SYM"@ {
        Some(PartOfSpeech::SYM)
    } else if s == "TO"@ {
        Some(PartOfSpeech::TO)
    } else if s == "UH"@ {
        Some(PartOfSpeech::UH)
    } else if s == "VB"@ {
        Some(PartOfSpeech::VB)
    } else if s == "VBD"@ {
        Some(PartOfSpeech::VBD)
    } else if s == "VBG"@ {
        Some(PartOfSpeech::VBG)
    } else if s == "VBN"@ {
        Some(PartOfSpeech::VBN)
    } else if s == "VBP"@ {
        Some(PartOfSpeech::VBP)
    } else if s == "VBZ"@ {
        Some(PartOfSpeech::VBZ)
    } else if s == "WDT"@ {
        Some(PartOfSpeech::WDT)
    } else if s == "WP"@ {
        Some(PartOfSpeech::WP)
    } else if s == "WRB"@ {
        Some(PartOfSpeech::WRB)
    } else {
        None
    }
}

/// Compare two string slices by their character sequences.
pub(crate) fn str_eq(a: &str, b: &str) -> (r: bool)
    ensures
        r == (a@ == b@),
{
    let a_owned: String = a.to_owned();
    let b_owned: String = b.to_owned();
    a_owned == b_owned
}

impl PartOfSpeech {
    /// Parse a raw classifier label into its category; a label outside the
    /// known set is rejected, carried back inside the error.
    pub fn from_label(label: &str) -> (r: Result<PartOfSpeech, PartOfSpeechError>)
        ensures
            pos_of_label(label@) is Some ==> r == Ok::<PartOfSpeech, PartOfSpeechError>(
                pos_of_label(label@)->0,
            ),
            pos_of_label(label@) is None ==> (r matches Err(PartOfSpeechError::UnknownLabel(w))
                && w@ == label@),
    {
        if str_eq(label, "CC") {
            Ok(PartOfSpeech::CC)
        } else if str_eq(label, "CD") {
            Ok(PartOfSpeech::CD)
        } else if str_eq(label, "DT") {
            Ok(PartOfSpeech::DT)
        } else if str_eq(label, "EX") {
            Ok(PartOfSpeech::EX)
        } else if str_eq(label, "FW") {
            Ok(PartOfSpeech::FW)
        } else if str_eq(label, "IN") {
            Ok(PartOfSpeech::IN)
        } else if str_eq(label, "JJ") {
            Ok(PartOfSpeech::JJ)
        } else if str_eq(label, "JJR") {
            Ok(PartOfSpeech::JJR)
        } else if str_eq(label, "JJS") {
            Ok(PartOfSpeech::JJS)
        } else if str_eq(label, "MD") {
            Ok(PartOfSpeech::MD)
        } else if str_eq(label, "NN") {
            Ok(PartOfSpeech::NN)
        } else if str_eq(label, "NNP") {
            Ok(PartOfSpeech::NNP)
        } else if str_eq(label, "NNPS") {
            Ok(PartOfSpeech::NNPS)
        } else if str_eq(label, "NNS") {
            Ok(PartOfSpeech::NNS)
        } else if str_eq(label, "O") {
            Ok(PartOfSpeech::O)
        } else if str_eq(label, "PDT") {
            Ok(PartOfSpeech::PDT)
        } else if str_eq(label, "POS") {
            Ok(PartOfSpeech::POS)
        } else if str_eq(label, "PRP") {
            Ok(PartOfSpeech::PRP)
        } else if str_eq(label, "RB") {
            Ok(PartOfSpeech::RB)
        } else if str_eq(label, "RBR") {
            Ok(PartOfSpeech::RBR)
        } else if str_eq(label, "RBS") {
            Ok(PartOfSpeech::RBS)
        } else if str_eq(label, "RP") {
            Ok(PartOfSpeech::RP)
        } else if str_eq(label, "SYM") {
            Ok(PartOfSpeech::SYM)
        } else if str_eq(label, "TO") {
            Ok(PartOfSpeech::TO)
        } else if str_eq(label, "UH") {
            Ok(PartOfSpeech::UH)
        } else if str_eq(label, "VB") {
            Ok(PartOfSpeech::VB)
        } else if str_eq(label, "VBD") {
            Ok(PartOfSpeech::VBD)
        } else if str_eq(label, "VBG") {
            Ok(PartOfSpeech::VBG)
        } else if str_eq(label, "VBN") {
            Ok(PartOfSpeech::VBN)
        } else if str_eq(label, "VBP") {
            Ok(PartOfSpeech::VBP)
        } else if str_eq(label, "VBZ") {
            Ok(PartOfSpeech::VBZ)
        } else if str_eq(label, "WDT") {
            Ok(PartOfSpeech::WDT)
        } else if str_eq(label, "WP") {
            Ok(PartOfSpeech::WP)
        } else if str_eq(label, "WRB") {
            Ok(PartOfSpeech::WRB)
        } else {
            Err(PartOfSpeechError::UnknownLabel(label.to_owned()))
        }
    }
}

impl FromStr for PartOfSpeech {
    type Err = PartOfSpeechError;

    fn from_str(input: &str) -> Result<Self, Self::Err> {
        PartOfSpeech::from_label(input)
    }
}

/// One classified span of a text: the span's characters, its category, and
/// its code-point offsets into the revision it was classified against.
#[derive(Clone, Debug, PartialEq)]
pub struct POSToken {
    /// The characters the span covers.
    pub word: String,
    /// The category the classifier assigned.
    pub tag: PartOfSpeech,
    /// Code-point offset of the span's first character.
    pub offset_begin: u32,
    /// Code-point offset one past the span's last character.
    pub offset_end: u32,
}

impl POSToken {
    /// Assemble a token from the parts the classifier reports: the span's
    /// text, its raw label, and its offsets if it has any. A token without
    /// offsets or with an unknown label is rejected.
    pub fn try_from_parts(word: String, label: &str, offset: Option<(u32, u32)>) -> (r: Result<
        POSToken,
        PartOfSpeechError,
    >)
        ensures
            offset is None ==> (r matches Err(PartOfSpeechError::MissingOffset(w)) && w@
                == word@),
            (offset is Some && pos_of_label(label@) is Some) ==> (r matches Ok(t) && t
                == (POSToken {
                word: word,
                tag: pos_of_label(label@)->0,
                offset_begin: (offset->0).0,
                offset_end: (offset->0).1,
            })),
            offset is Some && pos_of_label(label@) is None ==> (r matches Err(
                PartOfSpeechError::UnknownLabel(w),
            ) && w@ == label@),
    {
        match offset {
            Some((begin, end)) => match PartOfSpeech::from_label(label) {
                Ok(tag) => Ok(POSToken { word, tag, offset_begin: begin, offset_end: end }),
                Err(e) => Err(e),
            },
            None => Err(PartOfSpeechError::MissingOffset(word)),
        }
    }
}

/// Classified spans in the shape the encoder relies on: each span's
/// offsets are ordered and within the text, and the spans are sorted
/// ascending by start offset.
pub open spec fn spans_well_formed(tokens: Seq<POSToken>, text_len: int) -> bool {
    &&& forall|i: int| 0 <= i < tokens.len() ==> (#[trigger] tokens[i]).offset_begin
        <= tokens[i].offset_end <= text_len
    &&& forall|i: int, j: int| 0 <= i <= j < tokens.len() ==> (#[trigger] tokens[i]).offset_begin
        <= (#[trigger] tokens[j]).offset_begin
}

} // verus!

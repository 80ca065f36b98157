//! The extensible mapping from part-of-speech category to output
//! descriptor, shared by every document.
//!
//! Each category maps to `Some` descriptor or to `None`, which suppresses
//! output for that category entirely. The map starts as the built-in
//! default table and is only ever merged key-wise, never replaced.

use vstd::prelude::*;

use crate::semantic_tokens::{
    modifiers_to_bitmap, spec_modifiers_bitmap, spec_pos2token_bits, spec_token_type_index,
    TokenBits, TokenModifier, TokenType,
};
use crate::token::{spec_pos_index, PartOfSpeech, N_PART_OF_SPEECH};

verus! {

/// A requested override for one category: a token type and a set of
/// modifiers, still in legend vocabulary rather than wire encoding.
#[derive(Clone, Debug)]
pub struct TokenTypeNModifiers {
    /// The output token type.
    pub token_type: TokenType,
    /// The output modifiers.
    pub modifiers: Vec<TokenModifier>,
}

/// The wire descriptor a requested override denotes.
pub open spec fn spec_descriptor(t: TokenTypeNModifiers) -> TokenBits {
    TokenBits {
        token_type: spec_token_type_index(t.token_type) as u32,
        token_modifiers_bitset: spec_modifiers_bitmap(t.modifiers@),
    }
}

/// Distinct categories sit at distinct positions of the enumeration.
pub proof fn lemma_pos_index_injective(a: PartOfSpeech, b: PartOfSpeech)
    requires
        spec_pos_index(a) == spec_pos_index(b),
    ensures
        a == b,
{
}

/// The category-to-descriptor table, stored densely: the entry of a
/// category sits at the category's position in the enumeration.
#[derive(Clone, Debug, PartialEq)]
pub struct TokenMap {
    bits: Vec<Option<TokenBits>>,
}

/// The result of merging a sequence of updates into a table, first to
/// last: each update overwrites its category's entry.
pub open spec fn spec_extend(
    m: Seq<Option<TokenBits>>,
    up: Seq<(PartOfSpeech, Option<TokenTypeNModifiers>)>,
) -> Seq<Option<TokenBits>>
    decreases up.len(),
{
    if up.len() == 0 {
        m
    } else {
        let entry = match up[0].1 {
            Some(t) => Some(spec_descriptor(t)),
            None => None,
        };
        spec_extend(m.update(spec_pos_index(up[0].0), entry), up.drop_first())
    }
}

impl View for TokenMap {
    type V = Seq<Option<TokenBits>>;

    closed spec fn view(&self) -> Seq<Option<TokenBits>> {
        self.bits@
    }
}

impl TokenMap {
    /// The table holds exactly one entry per category.
    pub open spec fn wf(&self) -> bool {
        self@.len() == N_PART_OF_SPEECH
    }

    /// The descriptor of a category, or `None` if the category's output
    /// is suppressed.
    pub fn get(&self, pos: PartOfSpeech) -> (r: Option<TokenBits>)
        requires
            self.wf(),
        ensures
            r == self@[spec_pos_index(pos)],
    {
        self.bits[pos.index() as usize]
    }

    /// Merge updates into the table key-wise, in order: a `Some` entry
    /// overrides the category's descriptor, a `None` entry suppresses the
    /// category.
    pub fn extend(&mut self, update: Vec<(PartOfSpeech, Option<TokenTypeNModifiers>)>)
        requires
            old(self).wf(),
        ensures
            final(self).wf(),
            final(self)@ == spec_extend(old(self)@, update@),
    {
        proof {
            assert(update@.skip(0) =~= update@);
        }
        let mut i: usize = 0;
        while i < update.len()
            invariant
                i <= update@.len(),
                self.wf(),
                spec_extend(self@, update@.skip(i as int)) == spec_extend(
                    old(self)@,
                    update@,
                ),
            decreases update@.len() - i,
        {
            let pair = &update[i];
            let entry: Option<TokenBits> = match &pair.1 {
                Some(t) => Some(
                    TokenBits {
                        token_type: t.token_type.index(),
                        token_modifiers_bitset: modifiers_to_bitmap(t.modifiers.as_slice()),
                    },
                ),
                None => None,
            };
            let idx = pair.0.index();
            self.bits[idx as usize] = entry;
            proof {
                assert(update@.skip(i as int).drop_first() =~= update@.skip(i + 1));
            }
            i = i + 1;
        }
    }
}

/// Merging a suppression entry for a category leaves that category
/// suppressed: afterwards [`TokenMap::get`] returns `None` for it, so
/// its spans produce no output records.
pub proof fn lemma_extend_suppresses(m: Seq<Option<TokenBits>>, pos: PartOfSpeech)
    requires
        m.len() == N_PART_OF_SPEECH,
    ensures
        spec_extend(m, seq![(pos, Option::<TokenTypeNModifiers>::None)])[spec_pos_index(pos)]
            is None,
{
    let up = seq![(pos, Option::<TokenTypeNModifiers>::None)];
    let m2 = m.update(spec_pos_index(pos), Option::<TokenBits>::None);
    assert(up.drop_first() =~= Seq::<(PartOfSpeech, Option<TokenTypeNModifiers>)>::empty());
    assert(spec_extend(m, up) == spec_extend(m2, up.drop_first()));
    assert(spec_extend(m2, Seq::<(PartOfSpeech, Option<TokenTypeNModifiers>)>::empty()) == m2);
}

impl Default for TokenMap {
    /// The built-in default table: every category maps to its default
    /// descriptor.
    fn default() -> (r: TokenMap)
        ensures
            r.wf(),
            forall|pos: PartOfSpeech| r@[spec_pos_index(pos)] == Some(
                #[trigger] spec_pos2token_bits(pos),
            ),
    {
        let mut bits: Vec<Option<TokenBits>> = Vec::new();
        let mut i: u8 = 0;
        while i < N_PART_OF_SPEECH
            invariant
                i <= N_PART_OF_SPEECH,
                bits@.len() == i,
                forall|pos: PartOfSpeech| spec_pos_index(pos) < i ==> bits@[spec_pos_index(pos)]
                    == Some(#[trigger] spec_pos2token_bits(pos)),
            decreases N_PART_OF_SPEECH - i,
        {
            let pos = PartOfSpeech::from_index(i);
            bits.push(Some(crate::semantic_tokens::pos2token_bits(pos)));
            proof {
                assert forall|p: PartOfSpeech| spec_pos_index(p) < i + 1 implies bits@[spec_pos_index(
                    p,
                )] == Some(#[trigger] spec_pos2token_bits(p)) by {
                    if spec_pos_index(p) == i {
                        lemma_pos_index_injective(p, pos);
                    }
                }
            }
            i = i + 1;
        }
        TokenMap { bits }
    }
}

} // verus!

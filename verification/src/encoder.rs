//! The delta encoder: turns ascending, offset-sorted classified spans and
//! the category-to-descriptor map into the caller-facing incremental
//! representation.
//!
//! Each record's position is expressed relative to the previous *emitted*
//! record's start (or to the document start for the first): a span whose
//! category is suppressed produces no record and does not disturb the
//! baseline of the records around it. The text is walked once, the cursor
//! only ever moving forward.

use vstd::prelude::*;

use crate::semantic_tokens::TokenBits;
use crate::text_pos::{
    lemma_line_col_bounds, lemma_line_monotonic, spec_col_of, spec_line_of, str_to_chars,
};
use crate::token::{spans_well_formed, spec_pos_index, POSToken};
use crate::token_mapping::TokenMap;

verus! {

/// One delta-encoded output record: a span's position relative to the
/// previous emitted record, its length, and its descriptor.
#[derive(Copy, Clone, Debug, Eq, PartialEq, Structural)]
pub struct SemanticToken {
    /// Lines between this record's start and the previous emitted
    /// record's start.
    pub delta_line: u32,
    /// Columns between this record's start and the previous emitted
    /// record's start if both share a line, else this record's column.
    pub delta_start: u32,
    /// The span's length in code points.
    pub length: u32,
    /// The token type, as its position in the type legend.
    pub token_type: u32,
    /// The modifiers, as a bitmap over the modifier legend.
    pub token_modifiers_bitset: u32,
}

/// Whether a span's category produces output under a given map.
pub open spec fn spec_emits(map: Seq<Option<TokenBits>>, t: POSToken) -> bool {
    map[spec_pos_index(t.tag)] is Some
}

/// The spans that produce output, in input order.
pub open spec fn spec_emitted(tokens: Seq<POSToken>, map: Seq<Option<TokenBits>>) -> Seq<
    POSToken,
> {
    tokens.filter(|t: POSToken| spec_emits(map, t))
}

/// The record of one emitted span, relative to the previous emitted
/// span's start position `prev`.
pub open spec fn spec_record(
    text: Seq<char>,
    map: Seq<Option<TokenBits>>,
    prev: int,
    t: POSToken,
) -> SemanticToken {
    let begin = t.offset_begin as int;
    let line = spec_line_of(text, begin);
    let prev_line = spec_line_of(text, prev);
    let bits = map[spec_pos_index(t.tag)]->0;
    SemanticToken {
        delta_line: (line - prev_line) as u32,
        delta_start: if line == prev_line {
            (begin - prev) as u32
        } else {
            spec_col_of(text, begin) as u32
        },
        length: (t.offset_end - t.offset_begin) as u32,
        token_type: bits.token_type,
        token_modifiers_bitset: bits.token_modifiers_bitset,
    }
}

/// The records of a sequence of emitted spans, the first relative to
/// position `prev`, each further one relative to its predecessor's start.
pub open spec fn spec_records_from(
    text: Seq<char>,
    map: Seq<Option<TokenBits>>,
    toks: Seq<POSToken>,
    prev: int,
) -> Seq<SemanticToken>
    decreases toks.len(),
{
    if toks.len() == 0 {
        Seq::empty()
    } else {
        seq![spec_record(text, map, prev, toks[0])] + spec_records_from(
            text,
            map,
            toks.drop_first(),
            toks[0].offset_begin as int,
        )
    }
}

/// The full encoding of a text's classified spans under a map: the
/// records of the emitted spans, the first relative to the document
/// start.
pub open spec fn spec_semantic_tokens(
    text: Seq<char>,
    tokens: Seq<POSToken>,
    map: Seq<Option<TokenBits>>,
) -> Seq<SemanticToken> {
    spec_records_from(text, map, spec_emitted(tokens, map), 0)
}

/// Filtering a one-element sequence keeps or drops that element.
pub proof fn lemma_filter_single<A>(t: A, pred: spec_fn(A) -> bool)
    ensures
        seq![t].filter(pred) == if pred(t) {
            seq![t]
        } else {
            Seq::<A>::empty()
        },
{
    reveal_with_fuel(Seq::filter, 2);
    assert(seq![t].drop_last() =~= Seq::<A>::empty());
    if pred(t) {
        assert(Seq::<A>::empty().push(t) =~= seq![t]);
    }
}

/// Filtering an empty sequence yields an empty sequence.
pub proof fn lemma_filter_empty<A>(pred: spec_fn(A) -> bool)
    ensures
        Seq::<A>::empty().filter(pred) == Seq::<A>::empty(),
{
    reveal_with_fuel(Seq::filter, 1);
}

/// A span whose category is suppressed is invisible to the encoding: the
/// records of every other span, including the relative position of the
/// record after it, are those of the sequence without it.
pub proof fn lemma_suppressed_span_invisible(
    text: Seq<char>,
    tokens: Seq<POSToken>,
    map: Seq<Option<TokenBits>>,
    i: int,
    t: POSToken,
)
    requires
        0 <= i <= tokens.len(),
        !spec_emits(map, t),
    ensures
        spec_semantic_tokens(text, tokens.insert(i, t), map) == spec_semantic_tokens(
            text,
            tokens,
            map,
        ),
{
    let pred = |tk: POSToken| spec_emits(map, tk);
    let a = tokens.take(i);
    let b = tokens.skip(i);
    assert(tokens.insert(i, t) =~= a + seq![t] + b);
    assert(tokens =~= a + b);
    Seq::filter_distributes_over_add(a + seq![t], b, pred);
    Seq::filter_distributes_over_add(a, seq![t], pred);
    Seq::filter_distributes_over_add(a, b, pred);
    lemma_filter_single(t, pred);
    assert(a.filter(pred) + Seq::<POSToken>::empty() =~= a.filter(pred));
}

/// Label suppression round trip: after merging a suppression entry for
/// a category into a map, a span of that category anywhere in the input
/// produces no output record, and every other span's record — including
/// the relative position of the record after the suppressed span — is
/// exactly what it would be had the span never arrived.
pub proof fn lemma_label_suppression_round_trip(
    text: Seq<char>,
    tokens: Seq<POSToken>,
    m: Seq<Option<TokenBits>>,
    i: int,
    t: POSToken,
)
    requires
        m.len() == crate::token::N_PART_OF_SPEECH,
        0 <= i <= tokens.len(),
    ensures
        ({
            let m2 = crate::token_mapping::spec_extend(
                m,
                seq![(t.tag, Option::<crate::token_mapping::TokenTypeNModifiers>::None)],
            );
            spec_semantic_tokens(text, tokens.insert(i, t), m2) == spec_semantic_tokens(
                text,
                tokens,
                m2,
            )
        }),
{
    let m2 = crate::token_mapping::spec_extend(
        m,
        seq![(t.tag, Option::<crate::token_mapping::TokenTypeNModifiers>::None)],
    );
    crate::token_mapping::lemma_extend_suppresses(m, t.tag);
    assert(!spec_emits(m2, t));
    lemma_suppressed_span_invisible(text, tokens, m2, i, t);
}

/// Delta-encode a text's classified spans: one record per span whose
/// category the map does not suppress, each relative to the emitted
/// record before it.
pub fn semantic_tokens(text: &str, tokens: &Vec<POSToken>, token_map: &TokenMap) -> (r: Vec<
    SemanticToken,
>)
    requires
        token_map.wf(),
        spans_well_formed(tokens@, text@.len() as int),
    ensures
        r@ == spec_semantic_tokens(text@, tokens@, token_map@),
{
    let ghost map = token_map@;
    let chars = str_to_chars(text);
    let mut out: Vec<SemanticToken> = Vec::new();
    let mut pos: u32 = 0;
    let mut line: u32 = 0;
    let mut col: u32 = 0;
    let mut k: usize = 0;
    proof {
        assert(tokens@.skip(0) =~= tokens@);
    }
    while k < tokens.len()
        invariant
            token_map.wf(),
            map == token_map@,
            spans_well_formed(tokens@, text@.len() as int),
            chars@ == text@,
            k <= tokens@.len(),
            line == spec_line_of(chars@, pos as int),
            col == spec_col_of(chars@, pos as int),
            pos <= chars@.len(),
            forall|j: int| k <= j < tokens@.len() ==> pos <= (#[trigger] tokens@[j]).offset_begin,
            out@ + spec_records_from(text@, map, spec_emitted(tokens@.skip(k as int), map), pos as int)
                == spec_semantic_tokens(text@, tokens@, map),
        decreases tokens@.len() - k,
    {
        let ghost rest = tokens@.skip(k as int);
        let ghost rest_next = tokens@.skip(k as int + 1);
        proof {
            assert(rest =~= seq![tokens@[k as int]] + rest_next);
            Seq::filter_distributes_over_add(
                seq![tokens@[k as int]],
                rest_next,
                |tk: POSToken| spec_emits(map, tk),
            );
            lemma_filter_single::<POSToken>(tokens@[k as int], |tk: POSToken| spec_emits(map, tk));
        }
        let begin = tokens[k].offset_begin;
        let end = tokens[k].offset_end;
        match token_map.get(tokens[k].tag) {
            Some(bits) => {
                let prev_pos = pos;
                let prev_line = line;
                while pos < begin
                    invariant
                        chars@ == text@,
                        pos <= begin,
                        begin <= chars@.len(),
                        line == spec_line_of(chars@, pos as int),
                        col == spec_col_of(chars@, pos as int),
                    decreases begin - pos,
                {
                    proof {
                        lemma_line_col_bounds(chars@, pos as int);
                    }
                    let c = chars[pos as usize];
                    if c == '\n' {
                        line = line + 1;
                        col = 0;
                    } else {
                        col = col + 1;
                    }
                    pos = pos + 1;
                }
                proof {
                    lemma_line_monotonic(chars@, prev_pos as int, pos as int);
                }
                let delta_line = line - prev_line;
                let delta_start = if delta_line == 0 {
                    begin - prev_pos
                } else {
                    col
                };
                let record = SemanticToken {
                    delta_line,
                    delta_start,
                    length: end - begin,
                    token_type: bits.token_type,
                    token_modifiers_bitset: bits.token_modifiers_bitset,
                };
                let ghost out_before = out@;
                out.push(record);
                proof {
                    assert(record == spec_record(text@, map, prev_pos as int, tokens@[k as int]));
                    assert((seq![tokens@[k as int]] + spec_emitted(rest_next, map)).drop_first()
                        =~= spec_emitted(rest_next, map));
                    assert(out_before + (seq![record] + spec_records_from(
                        text@,
                        map,
                        spec_emitted(rest_next, map),
                        begin as int,
                    )) =~= out@ + spec_records_from(
                        text@,
                        map,
                        spec_emitted(rest_next, map),
                        begin as int,
                    ));
                    assert forall|j: int| k + 1 <= j < tokens@.len() implies pos <= (
                    #[trigger] tokens@[j]).offset_begin by {
                        assert(tokens@[k as int].offset_begin <= tokens@[j].offset_begin);
                    }
                }
            },
            None => {
                proof {
                    assert(Seq::<POSToken>::empty() + spec_emitted(rest_next, map) =~= spec_emitted(
                        rest_next,
                        map,
                    ));
                }
            },
        }
        k = k + 1;
    }
    proof {
        assert(tokens@.skip(tokens@.len() as int) =~= Seq::<POSToken>::empty());
        lemma_filter_empty::<POSToken>(|tk: POSToken| spec_emits(map, tk));
        assert(out@ + Seq::<SemanticToken>::empty() =~= out@);
    }
    out
}

} // verus!

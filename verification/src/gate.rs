//! The classification gate: the policy filter and ordering step between
//! the external classifier's raw output and the coordinator.
//!
//! A raw span enters the registry only if its confidence cleared the
//! caller's threshold, it covers at least one character that is not ASCII
//! punctuation, and its offsets lie within the text. What passes is
//! sorted ascending by start offset, the shape the delta encoder relies
//! on.

use vstd::prelude::*;

use vstd::multiset::Multiset;

use crate::document::Document;
use crate::text_pos::str_to_chars;
use crate::token::{spans_well_formed, POSToken};

verus! {

/// Whether a character is ASCII punctuation.
pub open spec fn spec_is_ascii_punctuation(c: char) -> bool {
    ||| 33 <= c as u32 <= 47
    ||| 58 <= c as u32 <= 64
    ||| 91 <= c as u32 <= 96
    ||| 123 <= c as u32 <= 126
}

/// Whether a word has at least one character that is not ASCII
/// punctuation.
pub open spec fn spec_has_substantive_char(word: Seq<char>) -> bool {
    exists|i: int| 0 <= i < word.len() && !spec_is_ascii_punctuation(word[i])
}

/// Whether a span survives the policy filter: its confidence cleared
/// the threshold and its word is not pure punctuation.
pub open spec fn spec_keeps_token(word: Seq<char>, confident: bool) -> bool {
    confident && spec_has_substantive_char(word)
}

fn is_ascii_punctuation_char(c: char) -> (r: bool)
    ensures
        r == spec_is_ascii_punctuation(c),
{
    let u = c as u32;
    (33 <= u && u <= 47) || (58 <= u && u <= 64) || (91 <= u && u <= 96) || (123 <= u && u <= 126)
}

/// Whether to keep a classified span: its confidence must have cleared
/// the threshold, and its word must hold some character that is not
/// ASCII punctuation.
pub fn filter_token(token: &POSToken, confident: bool) -> (keep: bool)
    ensures
        keep == spec_keeps_token(token.word@, confident),
{
    if !confident {
        return false;
    }
    let chars = str_to_chars(token.word.as_str());
    let mut i: usize = 0;
    while i < chars.len()
        invariant
            confident,
            i <= chars@.len(),
            chars@ == token.word@,
            forall|j: int| 0 <= j < i ==> spec_is_ascii_punctuation(#[trigger] chars@[j]),
        decreases chars@.len() - i,
    {
        if !is_ascii_punctuation_char(chars[i]) {
            proof {
                assert(!spec_is_ascii_punctuation(token.word@[i as int]));
            }
            return true;
        }
        i = i + 1;
    }
    false
}

/// Whether a raw classifier span is admitted into the registry: it
/// passes the policy filter and its offsets lie within the text.
pub open spec fn spec_admits(text_len: int, p: (POSToken, bool)) -> bool {
    &&& spec_keeps_token(p.0.word@, p.1)
    &&& p.0.offset_begin <= p.0.offset_end <= text_len
}

/// The spans a raw classifier output contributes, in arrival order,
/// before sorting.
pub open spec fn spec_admitted(raw: Seq<(POSToken, bool)>, text_len: int) -> Seq<POSToken> {
    raw.filter(|p: (POSToken, bool)| spec_admits(text_len, p)).map_values(
        |p: (POSToken, bool)| p.0,
    )
}

/// Inserting an element anywhere adds exactly it to the sequence's
/// multiset of elements.
proof fn lemma_to_multiset_insert<A>(s: Seq<A>, i: int, t: A)
    requires
        0 <= i <= s.len(),
    ensures
        s.insert(i, t).to_multiset() =~= s.to_multiset().insert(t),
{
    broadcast use vstd::seq_lib::group_to_multiset_ensures;

    let u = s.insert(i, t);
    assert(u.remove(i) =~= s);
    assert(u[i] == t);
    assert(s.to_multiset() =~= u.to_multiset().remove(t));
    assert(u.to_multiset().contains(t));
}

/// Keep the raw spans that survive the policy filter and lie within
/// the text, sorted ascending by start offset.
pub fn gate_tokens(text: &str, raw: Vec<(POSToken, bool)>) -> (r: Vec<POSToken>)
    ensures
        spans_well_formed(r@, text@.len() as int),
        r@.to_multiset() == spec_admitted(raw@, text@.len() as int).to_multiset(),
{
    broadcast use vstd::seq_lib::group_to_multiset_ensures;

    let ghost text_len = text@.len() as int;
    let ghost raw0 = raw@;
    let ghost pred = |p: (POSToken, bool)| spec_admits(text_len, p);
    let ghost project = |p: (POSToken, bool)| p.0;
    let n_chars = str_to_chars(text).len();
    let mut raw = raw;
    let n_raw = raw.len();
    let mut kept: Vec<POSToken> = Vec::new();
    let mut k: usize = 0;
    proof {
        assert(raw0.skip(0) =~= raw0);
        assert(raw0.take(0) =~= Seq::<(POSToken, bool)>::empty());
        crate::encoder::lemma_filter_empty::<(POSToken, bool)>(pred);
        assert(Seq::<(POSToken, bool)>::empty().map_values(project) =~= Seq::<POSToken>::empty());
    }
    while raw.len() > 0
        invariant
            k + raw@.len() == n_raw,
            raw0.len() == n_raw,
            raw@ == raw0.skip(k as int),
            n_chars == text@.len(),
            text_len == text@.len() as int,
            pred == (|p: (POSToken, bool)| spec_admits(text_len, p)),
            project == (|p: (POSToken, bool)| p.0),
            kept@ == raw0.take(k as int).filter(pred).map_values(project),
            forall|i: int| 0 <= i < kept@.len() ==> (#[trigger] kept@[i]).offset_begin
                <= kept@[i].offset_end <= text_len,
        decreases raw@.len(),
    {
        let (tok, confident) = raw.remove(0);
        proof {
            reveal_with_fuel(Seq::filter, 2);
            assert(raw0.skip(k as int).remove(0) =~= raw0.skip(k + 1));
            assert(raw0.take(k + 1).drop_last() =~= raw0.take(k as int));
            assert(raw0.take(k + 1).last() == raw0[k as int]);
        }
        let keep = filter_token(&tok, confident) && tok.offset_begin <= tok.offset_end && (
        tok.offset_end as usize) <= n_chars;
        if keep {
            kept.push(tok);
        }
        proof {
            if pred(raw0[k as int]) {
                assert(raw0.take(k + 1).filter(pred) == raw0.take(k as int).filter(pred).push(
                    raw0[k as int],
                ));
                assert(raw0.take(k + 1).filter(pred).map_values(project) =~= raw0.take(
                    k as int,
                ).filter(pred).map_values(project).push(raw0[k as int].0));
            } else {
                assert(raw0.take(k + 1).filter(pred) == raw0.take(k as int).filter(pred));
            }
        }
        k = k + 1;
    }
    proof {
        assert(raw0.take(raw0.len() as int) =~= raw0);
    }
    // Insertion sort by start offset: what the encoder's single forward
    // pass relies on.
    let mut sorted: Vec<POSToken> = Vec::new();
    while kept.len() > 0
        invariant
            text_len == text@.len() as int,
            sorted@.to_multiset().add(kept@.to_multiset()) == spec_admitted(
                raw0,
                text_len,
            ).to_multiset(),
            forall|i: int, j: int| 0 <= i <= j < sorted@.len() ==> (
            #[trigger] sorted@[i]).offset_begin <= (#[trigger] sorted@[j]).offset_begin,
            forall|i: int| 0 <= i < sorted@.len() ==> (#[trigger] sorted@[i]).offset_begin
                <= sorted@[i].offset_end <= text_len,
            forall|i: int| 0 <= i < kept@.len() ==> (#[trigger] kept@[i]).offset_begin
                <= kept@[i].offset_end <= text_len,
        decreases kept@.len(),
    {
        let ghost kept_before = kept@;
        let t = kept.pop().unwrap();
        proof {
            broadcast use vstd::seq_lib::group_to_multiset_ensures;

            assert(kept_before =~= kept@.push(t));
            assert((kept@.push(t)).to_multiset() =~= kept@.to_multiset().insert(t));
            assert(kept_before.to_multiset() =~= kept@.to_multiset().insert(t));
        }
        let mut idx = sorted.len();
        while idx > 0 && sorted[idx - 1].offset_begin > t.offset_begin
            invariant
                idx <= sorted@.len(),
                forall|j: int| idx <= j < sorted@.len() ==> (#[trigger] sorted@[j]).offset_begin
                    > t.offset_begin,
            decreases idx,
        {
            idx = idx - 1;
        }
        let ghost sorted_before = sorted@;
        sorted.insert(idx, t);
        proof {
            broadcast use vstd::seq_lib::group_to_multiset_ensures;

            lemma_to_multiset_insert(sorted_before, idx as int, t);
            assert(sorted_before.to_multiset().insert(t).add(kept@.to_multiset())
                =~= sorted_before.to_multiset().add(kept@.to_multiset().insert(t)));
            assert forall|i: int, j: int| 0 <= i <= j < sorted@.len() implies (
            #[trigger] sorted@[i]).offset_begin <= (#[trigger] sorted@[j]).offset_begin by {
                if i < idx {
                    assert(sorted@[i] == sorted_before[i]);
                } else if i > idx {
                    assert(sorted@[i] == sorted_before[i - 1]);
                }
                if j < idx {
                    assert(sorted@[j] == sorted_before[j]);
                } else if j > idx {
                    assert(sorted@[j] == sorted_before[j - 1]);
                }
            }
        }
    }
    proof {
        assert(kept@.to_multiset() =~= Multiset::<POSToken>::empty());
        assert(sorted@.to_multiset().add(Multiset::<POSToken>::empty()) =~= sorted@.to_multiset());
    }
    sorted
}

/// Assemble the processed snapshot of one revision from the classifier's
/// raw output: gate the spans against the revision's text, and pair what
/// passes with the text and version.
pub fn process_prediction(text: String, version: i32, raw: Vec<(POSToken, bool)>) -> (doc:
    Document)
    ensures
        doc.wf(),
        doc.text == text,
        doc.version == version,
        doc.tokens@.to_multiset() == spec_admitted(raw@, text@.len() as int).to_multiset(),
{
    let tokens = gate_tokens(text.as_str(), raw);
    Document { text, tokens, version }
}

} // verus!

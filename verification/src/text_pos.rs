//! Line and column bookkeeping over a text, counted in Unicode code
//! points: the positions the delta encoder expresses its records in.

use vstd::prelude::*;

use vstd::std_specs::iter::IteratorSpec;

verus! {

/// The line a position sits on: the number of newline characters strictly
/// before it.
pub open spec fn spec_line_of(text: Seq<char>, i: int) -> int
    decreases i,
{
    if i <= 0 {
        0
    } else {
        spec_line_of(text, i - 1) + if text[i - 1] == '\n' {
            1int
        } else {
            0int
        }
    }
}

/// The column a position sits on: the number of characters between it and
/// the closest newline (or the start of the text) before it.
pub open spec fn spec_col_of(text: Seq<char>, i: int) -> int
    decreases i,
{
    if i <= 0 {
        0
    } else if text[i - 1] == '\n' {
        0
    } else {
        spec_col_of(text, i - 1) + 1
    }
}

/// A position's line and column never exceed the position itself.
pub proof fn lemma_line_col_bounds(text: Seq<char>, i: int)
    requires
        0 <= i,
    ensures
        0 <= spec_line_of(text, i) <= i,
        0 <= spec_col_of(text, i) <= i,
    decreases i,
{
    if i > 0 {
        lemma_line_col_bounds(text, i - 1);
    }
}

/// Lines never decrease as the position moves forward.
pub proof fn lemma_line_monotonic(text: Seq<char>, i: int, j: int)
    requires
        i <= j,
    ensures
        spec_line_of(text, i) <= spec_line_of(text, j),
    decreases j - i,
{
    if i < j {
        lemma_line_monotonic(text, i, j - 1);
        if j <= 0 {
            lemma_line_monotonic_neg(text, i, j);
        }
    }
}

proof fn lemma_line_monotonic_neg(text: Seq<char>, i: int, j: int)
    requires
        i <= j <= 0,
    ensures
        spec_line_of(text, i) == 0,
{
}

/// The characters of a string slice, as a vector indexable by code-point
/// position.
pub fn str_to_chars(s: &str) -> (r: Vec<char>)
    ensures
        r@ == s@,
{
    broadcast use vstd::string::next_postcondition;
    broadcast use vstd::string::axiom_spec_iter;

    let mut r: Vec<char> = Vec::new();
    let mut iter = s.chars();
    loop
        invariant
            iter.obeys_prophetic_iter_laws(),
            iter.decrease() is Some,
            r@ + iter.remaining() == s@,
        ensures
            r@ == s@,
        decreases iter.decrease()->0,
    {
        match iter.next() {
            Some(c) => {
                r.push(c);
                proof {
                    assert(r@ + iter.remaining() =~= s@);
                }
            },
            None => {
                proof {
                    assert(r@ + iter.remaining() =~= r@);
                }
                break ;
            },
        }
    }
    r
}

} // verus!

//! The values that flow through the coordinator: one revision of a
//! document's text, and the immutable snapshot produced by classifying
//! one revision.

use vstd::prelude::*;

use crate::token::{spans_well_formed, POSToken};

verus! {

/// One edit of a document's full text, carrying the caller-assigned
/// version number. Versions are not guaranteed to arrive in order;
/// duplicates and regressions are rejected by the coordinator.
#[derive(Clone, Debug)]
pub struct TextItem {
    /// The opaque key of the document this revision belongs to.
    pub uri: String,
    /// The revision's full text.
    pub text: String,
    /// The caller-assigned version number.
    pub version: i32,
}

/// The immutable result of classifying one revision: the text, its
/// classified spans sorted ascending by start offset, and the revision's
/// version. Never mutated after construction.
#[derive(Clone, Debug)]
pub struct Document {
    /// The classified revision's full text.
    pub text: String,
    /// The classified spans, sorted ascending by start offset and within
    /// the text.
    pub tokens: Vec<POSToken>,
    /// The version of the classified revision.
    pub version: i32,
}

impl Document {
    /// The snapshot's spans are ordered and within its text: what the
    /// delta encoder relies on.
    pub open spec fn wf(&self) -> bool {
        spans_well_formed(self.tokens@, self.text@.len() as int)
    }
}

} // verus!

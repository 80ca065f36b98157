//! The per-document coordinator: a state machine that schedules at most
//! one classification at a time per document, keeps only the newest
//! not-yet-scheduled revision, rejects stale revisions, and answers
//! pending readers under the bounded reply-buffer policy.
//!
//! The registry itself performs no transport and spawns no work: each
//! handler returns what must happen next — a reply channel to answer
//! with freshly encoded tokens, and possibly a revision to hand to the
//! external classifier. The surrounding runtime performs those actions
//! and feeds the classifier's result back in as another message.

use vstd::prelude::*;

use crate::document::{Document, TextItem};
use crate::encoder::{semantic_tokens, spec_semantic_tokens, SemanticToken};
use crate::semantic_tokens::TokenBits;
use crate::token::{str_eq, PartOfSpeech};
use crate::token_mapping::{spec_extend, TokenMap, TokenTypeNModifiers};
use crate::two::Two;

verus! {

broadcast use crate::two::lemma_two_view_bounded;

/// The coordination state of one document key.
#[derive(Debug)]
pub struct DocumentStore<R> {
    /// The newest revision not yet scheduled, waiting for the in-flight
    /// computation to complete.
    pub queued: Option<TextItem>,
    /// Whether a classification is currently running for this key.
    pub processing: bool,
    /// The most recent processed snapshot, if any.
    pub document: Option<Document>,
    /// Reply channels waiting for a fresh snapshot.
    pub delayed_replies: Two<R>,
    /// Watermark of the newest revision version seen; starts below any
    /// real version.
    pub latest_version: i32,
}

impl<R> DocumentStore<R> {
    /// A revision only ever waits while a computation is in flight, and
    /// a stored snapshot is fit for the encoder.
    pub open spec fn wf(&self) -> bool {
        &&& self.queued is Some ==> self.processing
        &&& self.document matches Some(doc) ==> doc.wf()
    }

    /// A store as it is before any revision has been seen.
    pub open spec fn is_fresh(&self) -> bool {
        &&& !self.processing
        &&& self.queued is None
        &&& self.document is None
        &&& self.delayed_replies@ == Seq::<R>::empty()
        &&& self.latest_version == i32::MIN
    }

    /// The state of a document key before any revision has been seen.
    pub fn new() -> (r: Self)
        ensures
            r.is_fresh(),
            r.wf(),
    {
        DocumentStore {
            queued: None,
            processing: false,
            document: None,
            delayed_replies: Two::new(),
            latest_version: i32::MIN,
        }
    }
}

impl<R> Default for DocumentStore<R> {
    /// Same as [`DocumentStore::new`].
    fn default() -> (r: Self)
        ensures
            r.is_fresh(),
            r.wf(),
    {
        DocumentStore::new()
    }
}

/// The messages the coordinator is driven by, besides read requests.
#[derive(Debug)]
pub enum DocumentInfo {
    /// A revision of a document from the caller.
    Item(TextItem),
    /// The classifier's processed snapshot for a document.
    Predicted(String, Document),
    /// Forget about a document.
    Discard(String),
    /// Merge updates into the shared category-to-descriptor map.
    TokenMapUpdate(Vec<(PartOfSpeech, Option<TokenTypeNModifiers>)>),
}

/// What the runtime must do after one coordinator step: answer a parked
/// reply channel with encoded tokens, and start classifying a revision.
pub struct CastOutcome<R> {
    /// A previously parked reply channel to answer now, with the tokens
    /// to send it.
    pub reply: Option<(R, Vec<SemanticToken>)>,
    /// A revision to hand to the external classifier; its result must
    /// come back as a [`DocumentInfo::Predicted`] message.
    pub dispatch: Option<TextItem>,
}

/// How one revision changes a document's state: accepted only above the
/// watermark; scheduled at once when idle, else parked as the single
/// queued revision, replacing any older one.
pub open spec fn spec_revise_transition<R>(
    s: DocumentStore<R>,
    s2: DocumentStore<R>,
    item: TextItem,
    dispatch: Option<TextItem>,
) -> bool {
    if item.version > s.latest_version {
        if s.processing {
            &&& s2.processing
            &&& s2.queued == Some(item)
            &&& s2.document == s.document
            &&& s2.delayed_replies == s.delayed_replies
            &&& s2.latest_version == item.version
            &&& dispatch is None
        } else {
            &&& s2.processing
            &&& s2.queued is None
            &&& s2.document == s.document
            &&& s2.delayed_replies == s.delayed_replies
            &&& s2.latest_version == item.version
            &&& dispatch == Some(item)
        }
    } else {
        &&& s2 == s
        &&& dispatch is None
    }
}

/// How one revision changes a document key never seen before: the fresh
/// watermark sits below any real version, so the revision is accepted
/// and dispatched at once (unless its version is the watermark's own
/// floor value, which can never exceed it).
pub open spec fn spec_revise_fresh<R>(
    s2: DocumentStore<R>,
    item: TextItem,
    dispatch: Option<TextItem>,
) -> bool {
    if item.version > i32::MIN {
        &&& s2.processing
        &&& s2.queued is None
        &&& s2.document is None
        &&& s2.delayed_replies@ == Seq::<R>::empty()
        &&& s2.latest_version == item.version
        &&& dispatch == Some(item)
    } else {
        &&& s2.is_fresh()
        &&& dispatch is None
    }
}

/// How a completed classification changes a document's state: the
/// snapshot is stored, the reply buffer is flushed under the policy
/// that a still-queued (fresher) revision leaves the newest reply
/// waiting for the fresher result, and a queued revision is dispatched
/// at once.
pub open spec fn spec_completed_transition<R>(
    s: DocumentStore<R>,
    s2: DocumentStore<R>,
    doc: Document,
    reply: Option<(R, Vec<SemanticToken>)>,
    dispatch: Option<TextItem>,
    map: Seq<Option<TokenBits>>,
) -> bool {
    let b = s.delayed_replies@;
    let toks = spec_semantic_tokens(doc.text@, doc.tokens@, map);
    &&& s2.processing == (s.queued is Some)
    &&& s2.queued is None
    &&& s2.document == Some(doc)
    &&& s2.latest_version == s.latest_version
    &&& dispatch == s.queued
    &&& if s.queued is Some {
        // A fresher computation starts right away: answer only the
        // older waiting reader; the newer one waits for the fresher
        // result.
        if b.len() == 2 {
            &&& reply matches Some(p) && p.0 == b[0] && p.1@ == toks
            &&& s2.delayed_replies@ == seq![b[1]]
        } else {
            &&& reply is None
            &&& s2.delayed_replies@ == b
        }
    } else {
        // This is the freshest obtainable result: answer only the
        // newest waiting reader; an older one is dropped unanswered.
        &&& s2.delayed_replies@ == Seq::<R>::empty()
        &&& if b.len() > 0 {
            reply matches Some(p) && p.0 == b.last() && p.1@ == toks
        } else {
            reply is None
        }
    }
}

/// How a read request changes a document's state: answered at once from
/// the stored snapshot when no computation is in flight, else parked in
/// the bounded reply buffer, evicting the oldest waiting reader if the
/// buffer is full.
pub open spec fn spec_fetch_transition<R>(
    s: DocumentStore<R>,
    s2: DocumentStore<R>,
    reply_ch: R,
    r: Option<(R, Vec<SemanticToken>)>,
    map: Seq<Option<TokenBits>>,
) -> bool {
    if !s.processing && s.document is Some {
        &&& s2 == s
        &&& r matches Some(p) && p.0 == reply_ch && p.1@ == spec_semantic_tokens(
            (s.document->0).text@,
            (s.document->0).tokens@,
            map,
        )
    } else {
        &&& r is None
        &&& s2.processing == s.processing
        &&& s2.queued == s.queued
        &&& s2.document == s.document
        &&& s2.latest_version == s.latest_version
        &&& s2.delayed_replies@ == if s.delayed_replies@.len() < 2 {
            s.delayed_replies@.push(reply_ch)
        } else {
            seq![s.delayed_replies@[1], reply_ch]
        }
    }
}

/// How a read request lands on a document key never seen before: no
/// snapshot exists, so the reader is parked in an otherwise fresh store.
pub open spec fn spec_fetch_fresh<R>(s2: DocumentStore<R>, reply_ch: R) -> bool {
    &&& !s2.processing
    &&& s2.queued is None
    &&& s2.document is None
    &&& s2.latest_version == i32::MIN
    &&& s2.delayed_replies@ == seq![reply_ch]
}

/// The association of document keys to their coordination state, as the
/// contracts speak of it.
pub open spec fn spec_doc_map<R>(docs: Seq<(String, DocumentStore<R>)>) -> Map<
    Seq<char>,
    DocumentStore<R>,
>
    decreases docs.len(),
{
    if docs.len() == 0 {
        Map::empty()
    } else {
        spec_doc_map(docs.drop_last()).insert(docs.last().0@, docs.last().1)
    }
}

/// No two entries share a document key.
pub open spec fn spec_keys_unique<R>(docs: Seq<(String, DocumentStore<R>)>) -> bool {
    forall|i: int, j: int| 0 <= i < j < docs.len() ==> (#[trigger] docs[i]).0@ != (
    #[trigger] docs[j]).0@
}

proof fn lemma_doc_map_push<R>(docs: Seq<(String, DocumentStore<R>)>, k: String, s: DocumentStore<
    R,
>)
    ensures
        spec_doc_map(docs.push((k, s))) == spec_doc_map(docs).insert(k@, s),
{
    assert(docs.push((k, s)).drop_last() =~= docs);
    assert(docs.push((k, s)).last() == (k, s));
}

proof fn lemma_doc_map_contains<R>(docs: Seq<(String, DocumentStore<R>)>, u: Seq<char>)
    ensures
        spec_doc_map(docs).contains_key(u) <==> exists|i: int|
            0 <= i < docs.len() && (#[trigger] docs[i]).0@ == u,
    decreases docs.len(),
{
    if docs.len() > 0 {
        lemma_doc_map_contains(docs.drop_last(), u);
        if docs.last().0@ == u {
            assert(docs[docs.len() - 1].0@ == u);
        } else {
            assert forall|i: int| 0 <= i < docs.len() && (#[trigger] docs[i]).0@ == u implies 0 <= i
                < docs.len() - 1 && docs.drop_last()[i].0@ == u by {}
            assert forall|i: int|
                0 <= i < docs.len() - 1 && (#[trigger] docs.drop_last()[i]).0@
                    == u implies docs[i].0@ == u by {}
        }
    }
}

proof fn lemma_doc_map_lookup<R>(docs: Seq<(String, DocumentStore<R>)>, i: int)
    requires
        spec_keys_unique(docs),
        0 <= i < docs.len(),
    ensures
        spec_doc_map(docs).contains_key(docs[i].0@),
        spec_doc_map(docs)[docs[i].0@] == docs[i].1,
    decreases docs.len(),
{
    if i == docs.len() - 1 {
    } else {
        assert(spec_keys_unique(docs.drop_last()));
        assert(docs.drop_last()[i] == docs[i]);
        lemma_doc_map_lookup(docs.drop_last(), i);
        assert(docs.last().0@ != docs[i].0@);
    }
}

proof fn lemma_doc_map_update<R>(
    docs: Seq<(String, DocumentStore<R>)>,
    i: int,
    k: String,
    s2: DocumentStore<R>,
)
    requires
        spec_keys_unique(docs),
        0 <= i < docs.len(),
        k@ == docs[i].0@,
    ensures
        spec_doc_map(docs.update(i, (k, s2))) == spec_doc_map(docs).insert(k@, s2),
    decreases docs.len(),
{
    let u = docs.update(i, (k, s2));
    if i == docs.len() - 1 {
        assert(u.drop_last() =~= docs.drop_last());
        assert(u.last() == (k, s2));
        assert(spec_doc_map(docs.drop_last()).insert(docs.last().0@, docs.last().1).insert(k@, s2)
            =~= spec_doc_map(docs.drop_last()).insert(k@, s2));
    } else {
        assert(spec_keys_unique(docs.drop_last()));
        assert(docs.drop_last()[i] == docs[i]);
        lemma_doc_map_update(docs.drop_last(), i, k, s2);
        assert(u.drop_last() =~= docs.drop_last().update(i, (k, s2)));
        assert(u.last() == docs.last());
        assert(docs.last().0@ != k@);
        assert(spec_doc_map(docs.drop_last()).insert(k@, s2).insert(docs.last().0@, docs.last().1)
            =~= spec_doc_map(docs.drop_last()).insert(docs.last().0@, docs.last().1).insert(
            k@,
            s2,
        ));
    }
}

proof fn lemma_doc_map_remove<R>(docs: Seq<(String, DocumentStore<R>)>, i: int)
    requires
        spec_keys_unique(docs),
        0 <= i < docs.len(),
    ensures
        spec_doc_map(docs.remove(i)) == spec_doc_map(docs).remove(docs[i].0@),
    decreases docs.len(),
{
    if i == docs.len() - 1 {
        assert(docs.remove(i) =~= docs.drop_last());
        lemma_doc_map_contains(docs.drop_last(), docs[i].0@);
        assert forall|j: int|
            0 <= j < docs.drop_last().len() implies (#[trigger] docs.drop_last()[j]).0@
            != docs[i].0@ by {
            assert(docs[j].0@ != docs[i].0@);
        }
        assert(!spec_doc_map(docs.drop_last()).contains_key(docs[i].0@));
        assert(spec_doc_map(docs.drop_last()).insert(docs.last().0@, docs.last().1).remove(
            docs[i].0@,
        ) =~= spec_doc_map(docs.drop_last()));
    } else {
        assert(spec_keys_unique(docs.drop_last()));
        assert(docs.drop_last()[i] == docs[i]);
        lemma_doc_map_remove(docs.drop_last(), i);
        assert(docs.remove(i).drop_last() =~= docs.drop_last().remove(i));
        assert(docs.remove(i).last() == docs.last());
        assert(docs.last().0@ != docs[i].0@);
        assert(spec_doc_map(docs.drop_last()).remove(docs[i].0@).insert(
            docs.last().0@,
            docs.last().1,
        ) =~= spec_doc_map(docs.drop_last()).insert(docs.last().0@, docs.last().1).remove(
            docs[i].0@,
        ));
    }
}

/// The index of a document key's entry, if one exists.
fn find_index<R>(docs: &Vec<(String, DocumentStore<R>)>, uri: &str) -> (r: Option<usize>)
    ensures
        r matches Some(i) ==> i < docs@.len() && docs@[i as int].0@ == uri@,
        r is None ==> forall|j: int| 0 <= j < docs@.len() ==> (#[trigger] docs@[j]).0@ != uri@,
{
    let mut j: usize = 0;
    while j < docs.len()
        invariant
            j <= docs@.len(),
            forall|i: int| 0 <= i < j ==> (#[trigger] docs@[i]).0@ != uri@,
        decreases docs@.len() - j,
    {
        if str_eq(docs[j].0.as_str(), uri) {
            return Some(j);
        }
        j = j + 1;
    }
    None
}

/// The per-document coordinator: the state of every known document key
/// and the shared category-to-descriptor map. Generic over the reply
/// channel type `R`, which it only ever stores, returns, or drops.
pub struct DocumentRegistry<R> {
    /// One coordination state per known document key.
    pub documents: Vec<(String, DocumentStore<R>)>,
    /// The shared category-to-descriptor map.
    pub token_map: TokenMap,
}

impl<R> View for DocumentRegistry<R> {
    type V = Map<Seq<char>, DocumentStore<R>>;

    open spec fn view(&self) -> Map<Seq<char>, DocumentStore<R>> {
        spec_doc_map(self.documents@)
    }
}

impl<R> DocumentRegistry<R> {
    /// Every key appears once, every store is well formed, and the
    /// category map holds one entry per category.
    pub open spec fn wf(&self) -> bool {
        &&& self.token_map.wf()
        &&& spec_keys_unique(self.documents@)
        &&& forall|i: int| 0 <= i < self.documents@.len() ==> (#[trigger] self.documents@[i]).1.wf()
    }

    /// An empty registry over the built-in default category map.
    pub fn new() -> (r: Self)
        ensures
            r.wf(),
            r@ == Map::<Seq<char>, DocumentStore<R>>::empty(),
            forall|pos: PartOfSpeech| r.token_map@[crate::token::spec_pos_index(pos)] == Some(
                #[trigger] crate::semantic_tokens::spec_pos2token_bits(pos),
            ),
    {
        DocumentRegistry { documents: Vec::new(), token_map: TokenMap::default() }
    }

    /// Apply one fire-and-forget message: a revision, a completed
    /// classification, a request to forget a key, or a category-map
    /// update. Returns what the runtime must do next.
    pub fn handle_cast(&mut self, msg: DocumentInfo) -> (outcome: CastOutcome<R>)
        requires
            old(self).wf(),
            msg matches DocumentInfo::Predicted(_, doc) ==> doc.wf(),
        ensures
            final(self).wf(),
            msg matches DocumentInfo::Item(item) ==> {
                &&& final(self).token_map == old(self).token_map
                &&& outcome.reply is None
                &&& final(self)@ == old(self)@.insert(item.uri@, final(self)@[item.uri@])
                &&& old(self)@.contains_key(item.uri@) ==> spec_revise_transition(
                    old(self)@[item.uri@],
                    final(self)@[item.uri@],
                    item,
                    outcome.dispatch,
                )
                &&& !old(self)@.contains_key(item.uri@) ==> spec_revise_fresh(
                    final(self)@[item.uri@],
                    item,
                    outcome.dispatch,
                )
            },
            msg matches DocumentInfo::Predicted(uri, doc) ==> {
                &&& final(self).token_map == old(self).token_map
                &&& old(self)@.contains_key(uri@) ==> {
                    &&& final(self)@ == old(self)@.insert(uri@, final(self)@[uri@])
                    &&& spec_completed_transition(
                        old(self)@[uri@],
                        final(self)@[uri@],
                        doc,
                        outcome.reply,
                        outcome.dispatch,
                        old(self).token_map@,
                    )
                }
                &&& !old(self)@.contains_key(uri@) ==> {
                    &&& final(self)@ == old(self)@
                    &&& outcome.reply is None
                    &&& outcome.dispatch is None
                }
            },
            msg matches DocumentInfo::Discard(uri) ==> {
                &&& final(self).token_map == old(self).token_map
                &&& final(self)@ == old(self)@.remove(uri@)
                &&& outcome.reply is None
                &&& outcome.dispatch is None
            },
            msg matches DocumentInfo::TokenMapUpdate(up) ==> {
                &&& final(self)@ == old(self)@
                &&& final(self).token_map@ == spec_extend(old(self).token_map@, up@)
                &&& outcome.reply is None
                &&& outcome.dispatch is None
            },
    {
        match msg {
            DocumentInfo::Item(item) => {
                let ghost docs0 = self.documents@;
                match find_index(&self.documents, item.uri.as_str()) {
                    Some(i) => {
                        proof {
                            lemma_doc_map_lookup(docs0, i as int);
                        }
                        let (key, mut store) = self.documents.remove(i);
                        let ghost s0 = store;
                        let dispatch = if item.version > store.latest_version {
                            store.latest_version = item.version;
                            schedule_document_processing(&mut store, item)
                        } else {
                            None
                        };
                        let ghost s2 = store;
                        self.documents.insert(i, (key, store));
                        proof {
                            assert(self.documents@ =~= docs0.update(
                                i as int,
                                self.documents@[i as int],
                            ));
                            assert(self.documents@[i as int].1 == s2);
                            lemma_doc_map_update(
                                docs0,
                                i as int,
                                self.documents@[i as int].0,
                                s2,
                            );
                            assert(spec_keys_unique(self.documents@));
                            assert(spec_revise_transition(s0, s2, item, dispatch));
                        }
                        CastOutcome { reply: None, dispatch }
                    },
                    None => {
                        proof {
                            lemma_doc_map_contains(docs0, item.uri@);
                        }
                        let key = item.uri.clone();
                        let mut store = DocumentStore::new();
                        let dispatch = if item.version > store.latest_version {
                            store.latest_version = item.version;
                            schedule_document_processing(&mut store, item)
                        } else {
                            None
                        };
                        let ghost s2 = store;
                        self.documents.push((key, store));
                        proof {
                            lemma_doc_map_push(docs0, self.documents@.last().0, s2);
                            assert(self.documents@.last().1 == s2);
                            assert(spec_keys_unique(self.documents@));
                            assert(spec_revise_fresh(s2, item, dispatch));
                        }
                        CastOutcome { reply: None, dispatch }
                    },
                }
            },
            DocumentInfo::Predicted(uri, doc) => {
                let ghost docs0 = self.documents@;
                match find_index(&self.documents, uri.as_str()) {
                    Some(i) => {
                        proof {
                            lemma_doc_map_lookup(docs0, i as int);
                        }
                        let (key, mut store) = self.documents.remove(i);
                        let ghost s0 = store;
                        store.processing = false;
                        let maybe_reply = if store.queued.is_some() {
                            // Leave one reply for after the queued revision
                            // is processed.
                            store.delayed_replies.take_older()
                        } else {
                            store.delayed_replies.take_newer_n_clear()
                        };
                        let reply = match maybe_reply {
                            Some(ch) => {
                                let toks = semantic_tokens(
                                    doc.text.as_str(),
                                    &doc.tokens,
                                    &self.token_map,
                                );
                                Some((ch, toks))
                            },
                            None => None,
                        };
                        store.document = Some(doc);
                        let queued = store.queued.take();
                        let dispatch = match queued {
                            Some(q) => schedule_document_processing(&mut store, q),
                            None => None,
                        };
                        let ghost s2 = store;
                        self.documents.insert(i, (key, store));
                        proof {
                            assert(self.documents@ =~= docs0.update(
                                i as int,
                                self.documents@[i as int],
                            ));
                            assert(self.documents@[i as int].1 == s2);
                            lemma_doc_map_update(
                                docs0,
                                i as int,
                                self.documents@[i as int].0,
                                s2,
                            );
                            assert(spec_keys_unique(self.documents@));
                        }
                        CastOutcome { reply, dispatch }
                    },
                    None => {
                        proof {
                            lemma_doc_map_contains(docs0, uri@);
                        }
                        CastOutcome { reply: None, dispatch: None }
                    },
                }
            },
            DocumentInfo::Discard(uri) => {
                let ghost docs0 = self.documents@;
                match find_index(&self.documents, uri.as_str()) {
                    Some(i) => {
                        proof {
                            lemma_doc_map_remove(docs0, i as int);
                        }
                        let _ = self.documents.remove(i);
                        proof {
                            assert(spec_keys_unique(self.documents@));
                        }
                    },
                    None => {
                        proof {
                            lemma_doc_map_contains(docs0, uri@);
                            assert(spec_doc_map(docs0).remove(uri@) =~= spec_doc_map(docs0));
                        }
                    },
                }
                CastOutcome { reply: None, dispatch: None }
            },
            DocumentInfo::TokenMapUpdate(up) => {
                self.token_map.extend(up);
                CastOutcome { reply: None, dispatch: None }
            },
        }
    }

    /// Apply one read request: answer at once from the stored snapshot
    /// when nothing is in flight, else park the reply channel in the
    /// bounded buffer. The returned pair, if any, is the channel to
    /// answer and the tokens to send it.
    pub fn handle_call(&mut self, uri: String, reply: R) -> (r: Option<(R, Vec<SemanticToken>)>)
        requires
            old(self).wf(),
        ensures
            final(self).wf(),
            final(self).token_map == old(self).token_map,
            final(self)@ == old(self)@.insert(uri@, final(self)@[uri@]),
            old(self)@.contains_key(uri@) ==> spec_fetch_transition(
                old(self)@[uri@],
                final(self)@[uri@],
                reply,
                r,
                old(self).token_map@,
            ),
            !old(self)@.contains_key(uri@) ==> r is None && spec_fetch_fresh(
                final(self)@[uri@],
                reply,
            ),
    {
        let ghost docs0 = self.documents@;
        match find_index(&self.documents, uri.as_str()) {
            Some(i) => {
                proof {
                    lemma_doc_map_lookup(docs0, i as int);
                }
                let (key, mut store) = self.documents.remove(i);
                let r_out: Option<(R, Vec<SemanticToken>)>;
                if !store.processing {
                    match &store.document {
                        Some(doc) => {
                            let toks = semantic_tokens(
                                doc.text.as_str(),
                                &doc.tokens,
                                &self.token_map,
                            );
                            r_out = Some((reply, toks));
                        },
                        None => {
                            let _evicted = store.delayed_replies.push(reply);
                            r_out = None;
                        },
                    }
                } else {
                    let _evicted = store.delayed_replies.push(reply);
                    r_out = None;
                }
                let ghost s2 = store;
                self.documents.insert(i, (key, store));
                proof {
                    assert(self.documents@ =~= docs0.update(i as int, self.documents@[i as int]));
                    assert(self.documents@[i as int].1 == s2);
                    lemma_doc_map_update(docs0, i as int, self.documents@[i as int].0, s2);
                    assert(spec_keys_unique(self.documents@));
                }
                r_out
            },
            None => {
                proof {
                    lemma_doc_map_contains(docs0, uri@);
                }
                let mut store = DocumentStore::new();
                let _evicted = store.delayed_replies.push(reply);
                let ghost s2 = store;
                self.documents.push((uri, store));
                proof {
                    lemma_doc_map_push(docs0, self.documents@.last().0, s2);
                    assert(self.documents@.last().1 == s2);
                    assert(spec_keys_unique(self.documents@));
                    assert(Seq::<R>::empty().push(reply) =~= seq![reply]);
                }
                None
            },
        }
    }
}

/// At most one classification is ever in flight per key, part one: a
/// revision triggers a dispatch only from a state with no computation
/// outstanding, and every dispatch marks one outstanding. While one is
/// outstanding a revision is only parked, never dispatched.
pub proof fn lemma_dispatch_only_when_idle<R>(
    s: DocumentStore<R>,
    s2: DocumentStore<R>,
    item: TextItem,
    dispatch: Option<TextItem>,
)
    requires
        spec_revise_transition(s, s2, item, dispatch),
    ensures
        dispatch is Some ==> !s.processing && s2.processing,
        s.processing ==> dispatch is None && s2.processing,
{
}

/// At most one classification is ever in flight per key, part two: a
/// completed classification is the only step that clears the in-flight
/// mark, and it dispatches a new computation exactly when a revision was
/// queued, leaving the mark set exactly in that case. Together with
/// [`lemma_dispatch_only_when_idle`], the number of outstanding
/// computations always equals the in-flight mark, so it never exceeds
/// one.
pub proof fn lemma_completed_balance<R>(
    s: DocumentStore<R>,
    s2: DocumentStore<R>,
    doc: Document,
    reply: Option<(R, Vec<SemanticToken>)>,
    dispatch: Option<TextItem>,
    map: Seq<Option<TokenBits>>,
)
    requires
        spec_completed_transition(s, s2, doc, reply, dispatch, map),
    ensures
        dispatch is Some <==> s.queued is Some,
        s2.processing <==> dispatch is Some,
        dispatch == s.queued,
{
}

/// A run of revisions against one document key: each step takes the
/// state from `states[k]` to `states[k + 1]` by applying `items[k]`,
/// returning `dispatches[k]`.
pub open spec fn spec_revise_chain<R>(
    states: Seq<DocumentStore<R>>,
    items: Seq<TextItem>,
    dispatches: Seq<Option<TextItem>>,
) -> bool {
    &&& states.len() == items.len() + 1
    &&& dispatches.len() == items.len()
    &&& forall|k: int| 0 <= k < items.len() ==> spec_revise_transition(
        states[k],
        states[k + 1],
        #[trigger] items[k],
        dispatches[k],
    )
}

/// A revision never clears the in-flight mark: once set, it stays set
/// through any further revisions (only a completed classification
/// clears it).
pub proof fn lemma_processing_persists<R>(
    states: Seq<DocumentStore<R>>,
    items: Seq<TextItem>,
    dispatches: Seq<Option<TextItem>>,
    k1: int,
    k2: int,
)
    requires
        spec_revise_chain(states, items, dispatches),
        0 <= k1 <= k2 < states.len(),
        states[k1].processing,
    ensures
        states[k2].processing,
    decreases k2 - k1,
{
    if k1 < k2 {
        assert(spec_revise_transition(states[k1], states[k1 + 1], items[k1], dispatches[k1]));
        lemma_processing_persists(states, items, dispatches, k1 + 1, k2);
    }
}

/// At most one classification is ever in flight per key, over any
/// sequence of revisions: a revision dispatches only from a state with
/// nothing in flight, and every dispatch leaves the in-flight mark set
/// until a completion clears it — so between completions, at most one
/// revision in the whole run dispatches anything.
pub proof fn lemma_at_most_one_in_flight<R>(
    states: Seq<DocumentStore<R>>,
    items: Seq<TextItem>,
    dispatches: Seq<Option<TextItem>>,
    k1: int,
    k2: int,
)
    requires
        spec_revise_chain(states, items, dispatches),
        0 <= k1 < k2 < dispatches.len(),
        dispatches[k1] is Some,
    ensures
        dispatches[k2] is None,
{
    assert(spec_revise_transition(states[k1], states[k1 + 1], items[k1], dispatches[k1]));
    lemma_dispatch_only_when_idle(states[k1], states[k1 + 1], items[k1], dispatches[k1]);
    lemma_processing_persists(states, items, dispatches, k1 + 1, k2);
    assert(spec_revise_transition(states[k2], states[k2 + 1], items[k2], dispatches[k2]));
    lemma_dispatch_only_when_idle(states[k2], states[k2 + 1], items[k2], dispatches[k2]);
}

/// Latest-wins queueing: three revisions of increasing version arriving
/// while a computation is in flight dispatch nothing themselves; the
/// completion that follows dispatches exactly one computation, over the
/// newest of the three, never an earlier one.
pub proof fn lemma_latest_wins<R>(
    s0: DocumentStore<R>,
    s1: DocumentStore<R>,
    s2: DocumentStore<R>,
    s3: DocumentStore<R>,
    s4: DocumentStore<R>,
    i1: TextItem,
    i2: TextItem,
    i3: TextItem,
    d1: Option<TextItem>,
    d2: Option<TextItem>,
    d3: Option<TextItem>,
    doc: Document,
    reply: Option<(R, Vec<SemanticToken>)>,
    d4: Option<TextItem>,
    map: Seq<Option<TokenBits>>,
)
    requires
        s0.processing,
        i1.version > s0.latest_version,
        i2.version > i1.version,
        i3.version > i2.version,
        spec_revise_transition(s0, s1, i1, d1),
        spec_revise_transition(s1, s2, i2, d2),
        spec_revise_transition(s2, s3, i3, d3),
        spec_completed_transition(s3, s4, doc, reply, d4, map),
    ensures
        d1 is None,
        d2 is None,
        d3 is None,
        d4 == Some(i3),
{
}

/// Stale rejection: once a revision's version has set the watermark, a
/// revision at or below that version changes nothing and dispatches
/// nothing; the watermark stays where it was.
pub proof fn lemma_stale_rejection<R>(
    s0: DocumentStore<R>,
    s1: DocumentStore<R>,
    s2: DocumentStore<R>,
    a: TextItem,
    b: TextItem,
    d1: Option<TextItem>,
    d2: Option<TextItem>,
)
    requires
        a.version > s0.latest_version,
        spec_revise_transition(s0, s1, a, d1),
        b.version <= a.version,
        spec_revise_transition(s1, s2, b, d2),
    ensures
        s1.latest_version == a.version,
        s2 == s1,
        d2 is None,
{
}

/// Flush with a queue: when a completion arrives while a revision is
/// still queued and two replies are pending, the older reply receives
/// the just-computed tokens, the newer reply stays parked for the
/// upcoming fresher result, and the queued revision is dispatched.
pub proof fn lemma_flush_with_queue<R>(
    s: DocumentStore<R>,
    s2: DocumentStore<R>,
    doc: Document,
    reply: Option<(R, Vec<SemanticToken>)>,
    dispatch: Option<TextItem>,
    map: Seq<Option<TokenBits>>,
)
    requires
        spec_completed_transition(s, s2, doc, reply, dispatch, map),
        s.queued is Some,
        s.delayed_replies@.len() == 2,
    ensures
        reply matches Some(p) && p.0 == s.delayed_replies@[0] && p.1@ == spec_semantic_tokens(
            doc.text@,
            doc.tokens@,
            map,
        ),
        s2.delayed_replies@ == seq![s.delayed_replies@[1]],
        s2.processing,
        dispatch == s.queued,
{
}

/// Flush without a queue: when a completion arrives with no revision
/// queued and two replies are pending, only the newest reply receives
/// the tokens; the older reply leaves the buffer without ever being
/// answered, and nothing further is dispatched.
pub proof fn lemma_flush_without_queue<R>(
    s: DocumentStore<R>,
    s2: DocumentStore<R>,
    doc: Document,
    reply: Option<(R, Vec<SemanticToken>)>,
    dispatch: Option<TextItem>,
    map: Seq<Option<TokenBits>>,
)
    requires
        spec_completed_transition(s, s2, doc, reply, dispatch, map),
        s.queued is None,
        s.delayed_replies@.len() == 2,
    ensures
        reply matches Some(p) && p.0 == s.delayed_replies@[1] && p.1@ == spec_semantic_tokens(
            doc.text@,
            doc.tokens@,
            map,
        ),
        s2.delayed_replies@ == Seq::<R>::empty(),
        !s2.processing,
        dispatch is None,
{
}

/// Record a revision in a document's state: while a computation is in
/// flight the revision is parked as the single queued one (replacing any
/// older queued revision), otherwise it must be dispatched now and the
/// state marks a computation in flight.
fn schedule_document_processing<R>(store: &mut DocumentStore<R>, item: TextItem) -> (dispatch:
    Option<TextItem>)
    ensures
        final(store).document == old(store).document,
        final(store).delayed_replies == old(store).delayed_replies,
        final(store).latest_version == old(store).latest_version,
        final(store).processing,
        old(store).processing ==> final(store).queued == Some(item) && dispatch is None,
        !old(store).processing ==> final(store).queued is None && dispatch == Some(item),
{
    if store.processing {
        store.queued = Some(item);
        None
    } else {
        store.processing = true;
        store.queued = None;
        Some(item)
    }
}

} // verus!

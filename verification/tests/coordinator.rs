//! The per-document coordinator: scheduling, latest-wins queueing,
//! stale rejection, the flush policies, and forgotten keys.

use natural_syntax_ls::document::{Document, TextItem};
use natural_syntax_ls::gate::process_prediction;
use natural_syntax_ls::registry::{DocumentInfo, DocumentRegistry};
use natural_syntax_ls::token::{PartOfSpeech, POSToken};

fn item(uri: &str, text: &str, version: i32) -> TextItem {
    TextItem { uri: uri.into(), text: text.into(), version }
}

fn snapshot(text: &str, version: i32) -> Document {
    let raw = vec![(
        POSToken {
            word: text.into(),
            tag: PartOfSpeech::NN,
            offset_begin: 0,
            offset_end: text.chars().count() as u32,
        },
        true,
    )];
    process_prediction(text.into(), version, raw)
}

#[test]
fn at_most_one_in_flight() {
    let mut reg: DocumentRegistry<u32> = DocumentRegistry::new();
    let out1 = reg.handle_cast(DocumentInfo::Item(item("doc", "a", 1)));
    // Idle: the first revision is dispatched at once.
    assert!(out1.dispatch.is_some());
    // Busy: further revisions are only parked, never dispatched.
    let out2 = reg.handle_cast(DocumentInfo::Item(item("doc", "b", 2)));
    assert!(out2.dispatch.is_none());
    let out3 = reg.handle_cast(DocumentInfo::Item(item("doc", "c", 3)));
    assert!(out3.dispatch.is_none());
    // Completion hands back exactly one new dispatch (the queued one).
    let out4 = reg.handle_cast(DocumentInfo::Predicted("doc".into(), snapshot("a", 1)));
    assert!(out4.dispatch.is_some());
    // And the registry is busy again: nothing else dispatches.
    let out5 = reg.handle_cast(DocumentInfo::Item(item("doc", "d", 4)));
    assert!(out5.dispatch.is_none());
}

#[test]
fn latest_wins_queueing() {
    let mut reg: DocumentRegistry<u32> = DocumentRegistry::new();
    let out0 = reg.handle_cast(DocumentInfo::Item(item("doc", "v0", 0)));
    assert!(out0.dispatch.is_some());
    // Three revisions while busy: none dispatches...
    assert!(reg.handle_cast(DocumentInfo::Item(item("doc", "v1", 1))).dispatch.is_none());
    assert!(reg.handle_cast(DocumentInfo::Item(item("doc", "v2", 2))).dispatch.is_none());
    assert!(reg.handle_cast(DocumentInfo::Item(item("doc", "v3", 3))).dispatch.is_none());
    // ...and the completion dispatches exactly one: the newest, v3.
    let out = reg.handle_cast(DocumentInfo::Predicted("doc".into(), snapshot("v0", 0)));
    let dispatched = out.dispatch.expect("the queued revision must be dispatched");
    assert_eq!(dispatched.version, 3);
    assert_eq!(dispatched.text, "v3");
    // The intermediate v2 is never computed: the next completion
    // dispatches nothing.
    let out = reg.handle_cast(DocumentInfo::Predicted("doc".into(), snapshot("v3", 3)));
    assert!(out.dispatch.is_none());
}

#[test]
fn stale_rejection() {
    let mut reg: DocumentRegistry<u32> = DocumentRegistry::new();
    assert!(reg.handle_cast(DocumentInfo::Item(item("doc", "v5", 5))).dispatch.is_some());
    let _ = reg.handle_cast(DocumentInfo::Predicted("doc".into(), snapshot("v5", 5)));
    // The watermark sits at 5: an older revision is silently discarded.
    assert!(reg.handle_cast(DocumentInfo::Item(item("doc", "v3", 3))).dispatch.is_none());
    assert!(reg.handle_cast(DocumentInfo::Item(item("doc", "v5b", 5))).dispatch.is_none());
    // A genuinely newer revision is computed.
    assert!(reg.handle_cast(DocumentInfo::Item(item("doc", "v6", 6))).dispatch.is_some());
}

#[test]
fn flush_with_queue_answers_the_older_reply() {
    let mut reg: DocumentRegistry<u32> = DocumentRegistry::new();
    assert!(reg.handle_cast(DocumentInfo::Item(item("doc", "v1", 1))).dispatch.is_some());
    // Two readers arrive while busy: both are parked.
    assert!(reg.handle_call("doc".into(), 10).is_none());
    assert!(reg.handle_call("doc".into(), 11).is_none());
    // A fresher revision is queued behind the running computation.
    assert!(reg.handle_cast(DocumentInfo::Item(item("doc", "v2", 2))).dispatch.is_none());
    // Completion with a queue: the older reader gets these tokens; the
    // newer keeps waiting for the fresher result.
    let out = reg.handle_cast(DocumentInfo::Predicted("doc".into(), snapshot("v1", 1)));
    let (channel, tokens) = out.reply.expect("the older reply must be answered");
    assert_eq!(channel, 10);
    assert_eq!(tokens.len(), 1);
    assert!(out.dispatch.is_some());
    // The next completion answers the reader that stayed parked.
    let out = reg.handle_cast(DocumentInfo::Predicted("doc".into(), snapshot("v2", 2)));
    let (channel, _tokens) = out.reply.expect("the newer reply is answered by the next result");
    assert_eq!(channel, 11);
    assert!(out.dispatch.is_none());
}

#[test]
fn flush_without_queue_answers_only_the_newest_reply() {
    let mut reg: DocumentRegistry<u32> = DocumentRegistry::new();
    assert!(reg.handle_cast(DocumentInfo::Item(item("doc", "v1", 1))).dispatch.is_some());
    assert!(reg.handle_call("doc".into(), 20).is_none());
    assert!(reg.handle_call("doc".into(), 21).is_none());
    // Completion with no queue: only the newest reader is answered; the
    // older is dropped without a value.
    let out = reg.handle_cast(DocumentInfo::Predicted("doc".into(), snapshot("v1", 1)));
    let (channel, _tokens) = out.reply.expect("the newest reply must be answered");
    assert_eq!(channel, 21);
    assert!(out.dispatch.is_none());
    // Nothing is left waiting: a later completion answers nobody.
    assert!(reg.handle_cast(DocumentInfo::Item(item("doc", "v2", 2))).dispatch.is_some());
    let out = reg.handle_cast(DocumentInfo::Predicted("doc".into(), snapshot("v2", 2)));
    assert!(out.reply.is_none());
}

#[test]
fn reader_pressure_evicts_the_oldest() {
    let mut reg: DocumentRegistry<u32> = DocumentRegistry::new();
    assert!(reg.handle_cast(DocumentInfo::Item(item("doc", "v1", 1))).dispatch.is_some());
    // Three readers park while busy: the first is evicted unanswered.
    assert!(reg.handle_call("doc".into(), 30).is_none());
    assert!(reg.handle_call("doc".into(), 31).is_none());
    assert!(reg.handle_call("doc".into(), 32).is_none());
    // Completion without a queue answers the newest retained reader.
    let out = reg.handle_cast(DocumentInfo::Predicted("doc".into(), snapshot("v1", 1)));
    let (channel, _tokens) = out.reply.expect("the newest retained reply is answered");
    assert_eq!(channel, 32);
}

#[test]
fn fetch_replies_immediately_once_idle() {
    let mut reg: DocumentRegistry<u32> = DocumentRegistry::new();
    assert!(reg.handle_cast(DocumentInfo::Item(item("doc", "hello", 1))).dispatch.is_some());
    let _ = reg.handle_cast(DocumentInfo::Predicted("doc".into(), snapshot("hello", 1)));
    // Idle with a stored snapshot: the reader is answered at once.
    let (channel, tokens) = reg.handle_call("doc".into(), 40).expect("an idle key replies now");
    assert_eq!(channel, 40);
    assert_eq!(tokens.len(), 1);
    assert_eq!(tokens[0].length, 5);
}

#[test]
fn fetch_on_unknown_key_parks_instead_of_failing() {
    let mut reg: DocumentRegistry<u32> = DocumentRegistry::new();
    // No document yet: the reader is parked, not refused.
    assert!(reg.handle_call("nowhere".into(), 50).is_none());
}

#[test]
fn discard_forgets_the_key_and_drops_late_results() {
    let mut reg: DocumentRegistry<u32> = DocumentRegistry::new();
    assert!(reg.handle_cast(DocumentInfo::Item(item("doc", "v1", 1))).dispatch.is_some());
    let out = reg.handle_cast(DocumentInfo::Discard("doc".into()));
    assert!(out.reply.is_none() && out.dispatch.is_none());
    // The in-flight result arrives for a forgotten key: dropped.
    let out = reg.handle_cast(DocumentInfo::Predicted("doc".into(), snapshot("v1", 1)));
    assert!(out.reply.is_none() && out.dispatch.is_none());
    // The key starts over: even an old version is accepted again.
    assert!(reg.handle_cast(DocumentInfo::Item(item("doc", "v1", 1))).dispatch.is_some());
}

#[test]
fn version_floor_is_never_accepted() {
    // The watermark starts at the version floor, and acceptance is
    // strict: a revision carrying the floor value itself can never
    // exceed it, so it is discarded even on a fresh key.
    let mut reg: DocumentRegistry<u32> = DocumentRegistry::new();
    let out = reg.handle_cast(DocumentInfo::Item(item("doc", "x", i32::MIN)));
    assert!(out.dispatch.is_none());
    let out = reg.handle_cast(DocumentInfo::Item(item("doc", "x", i32::MIN + 1)));
    assert!(out.dispatch.is_some());
}

#[test]
fn remap_labels_applies_to_later_replies() {
    let mut reg: DocumentRegistry<u32> = DocumentRegistry::new();
    assert!(reg.handle_cast(DocumentInfo::Item(item("doc", "word", 1))).dispatch.is_some());
    let _ = reg.handle_cast(DocumentInfo::Predicted("doc".into(), snapshot("word", 1)));
    let (_, tokens) = reg.handle_call("doc".into(), 60).unwrap();
    assert_eq!(tokens.len(), 1);
    // Suppress the category the snapshot's span carries.
    let out = reg.handle_cast(DocumentInfo::TokenMapUpdate(vec![(PartOfSpeech::NN, None)]));
    assert!(out.reply.is_none() && out.dispatch.is_none());
    let (_, tokens) = reg.handle_call("doc".into(), 61).unwrap();
    assert_eq!(tokens.len(), 0);
}

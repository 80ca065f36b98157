//! Core of a part-of-speech language server: a per-document coordination
//! layer that schedules expensive text classification, buffers pending
//! readers, and delta-encodes labeled spans for the caller-facing protocol.
//!
//! The crate is organised leaves-first:
//! - [`two`]: the bounded (capacity-2) reply buffer,
//! - [`token`]: part-of-speech categories and classified tokens,
//! - [`semantic_tokens`]: output token types, modifiers and the built-in
//!   category table,
//! - [`token_mapping`]: the extensible category-to-descriptor map,
//! - [`text_pos`]: line/column bookkeeping over a text,
//! - [`document`]: revisions and processed snapshots,
//! - [`encoder`]: the delta encoder,
//! - [`gate`]: the classification gate (filtering and ordering),
//! - [`registry`]: the per-document coordinator state machine.

pub mod document;
pub mod encoder;
pub mod gate;
pub mod registry;
pub mod semantic_tokens;
pub mod text_pos;
pub mod token;
pub mod token_mapping;
pub mod two;

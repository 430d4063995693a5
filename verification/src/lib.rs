//! Text extraction from invoice documents with an OCR fallback, and the
//! bookkeeping of a self-update session, as state machines without I/O.
//!
//! - `extraction`: the orchestrator, from the local extractor to the OCR
//!   fallback, and what holds of every run of it.
//! - `ocr`: the OCR request and the worth of a response.
//! - `json`: the one place where `serde_json` is called.
//! - `text`: white space, blank text, trailing slashes, log snippets.
//! - `update`: the update flow, and what holds of every run of it.
//! - `progress`: the running total of a download.
//! - `failure`: the kinds of failure and their messages.

pub mod extraction;
pub mod failure;
pub mod json;
pub mod ocr;
pub mod progress;
pub mod text;
pub mod update;

//! Knowledge-graph extraction and ingestion.
//!
//! The crate turns the text a completion model returns into a graph of named
//! nodes and edges, and plans the transaction that replaces a document's
//! stored graph with a new one. It performs no I/O itself: every operation
//! that needs the outside world is handed to the caller as an action, and the
//! caller reports back what happened.

pub mod extraction;
pub mod fence;
pub mod graph;
pub mod json;
pub mod outcome;
pub mod protocol;
pub mod service;
pub mod store;
pub mod tables;
pub mod text;

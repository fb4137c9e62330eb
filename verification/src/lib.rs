//! Core of a bilingual dictionary's moderation workflow: contributors propose
//! additions, edits, or deletions of dictionary entries, and moderators
//! amend, accept, or reject those proposals before they become authoritative.
//!
//! The crate holds the suggestion lifecycle and moderation state machine: the
//! versioned-field model used for moderator diffing, the canonical word store,
//! the suggestion repository with its atomic merge-then-delete, and the
//! derivation of search-index updates from accepted changes. HTTP routing,
//! template rendering, and the actual storage and index clients are boundary
//! concerns that live outside this crate.

pub mod language;
pub mod moderation;
pub mod store;
pub mod suggestion;
pub mod versioned;

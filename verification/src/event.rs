//! Notification events emitted on successful state transitions.

use vstd::prelude::*;

verus! {

/// Emitted once when a publish operation succeeds.
#[derive(Clone, Copy, Debug, PartialEq, Eq)]
pub struct ArticlePublished {
    /// Identity of the publishing author.
    pub author: [u8; 32],
    /// Content fingerprint of the new record.
    pub content_hash: [u8; 32],
    /// Host clock seconds recorded on the new record.
    pub timestamp: i64,
    /// Initial visibility of the new record.
    pub is_public: bool,
}

/// Emitted once when a visibility update succeeds.
#[derive(Clone, Copy, Debug, PartialEq, Eq)]
pub struct VisibilityUpdated {
    /// Address of the record whose flag was set.
    pub article: [u8; 32],
    /// The visibility value that was written.
    pub is_public: bool,
}

} // verus!

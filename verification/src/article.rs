//! The persistent article record: its fields, validity bounds and exact
//! storage budget.

use vstd::prelude::*;
use crate::all_zero;

verus! {

/// Maximum byte length of the external storage locator.
pub const MAX_ARWEAVE_ID_LEN: usize = 64;

/// Maximum byte length of the title.
pub const MAX_TITLE_LEN: usize = 128;

/// Maximum byte length of the scope tag.
pub const MAX_AI_SCOPE_LEN: usize = 256;

/// Bytes the host reserves at the front of a record to tag its type.
pub const RECORD_TAG_LEN: usize = 8;

/// Bytes of the length prefix that precedes each bounded text field.
pub const LEN_PREFIX: usize = 4;

/// UTF-8 byte length of a character sequence; the length that the
/// bounded text fields are measured by.
pub open spec fn utf8_len(s: Seq<char>) -> nat {
    vstd::utf8::encode_utf8(s).len()
}

/// The mathematical value of an article record.
#[verifier::ext_equal]
pub ghost struct ArticleView {
    pub author: Seq<u8>,
    pub content_hash: Seq<u8>,
    pub intuition_hash: Seq<u8>,
    pub arweave_id: Seq<char>,
    pub title: Seq<char>,
    pub ai_scope: Seq<char>,
    pub is_public: bool,
    pub timestamp: i64,
    pub bump: u8,
}

impl ArticleView {
    /// Every record the store holds satisfies this: identities and hashes
    /// are 32 bytes, the content hash is not degenerate, and each bounded
    /// text field fits its declared maximum.
    pub open spec fn wf(self) -> bool {
        &&& self.author.len() == 32
        &&& self.content_hash.len() == 32
        &&& self.intuition_hash.len() == 32
        &&& !all_zero(self.content_hash)
        &&& utf8_len(self.arweave_id) <= MAX_ARWEAVE_ID_LEN
        &&& utf8_len(self.title) <= MAX_TITLE_LEN
        &&& utf8_len(self.ai_scope) <= MAX_AI_SCOPE_LEN
    }

    /// Exact byte count the record occupies when persisted: the host's
    /// type tag, the fixed-width fields, and a length prefix plus content
    /// for each bounded text field.
    pub open spec fn required_space(self) -> int {
        RECORD_TAG_LEN + self.author.len() + self.content_hash.len()
            + self.intuition_hash.len() + (LEN_PREFIX + utf8_len(self.arweave_id))
            + (LEN_PREFIX + utf8_len(self.title)) + (LEN_PREFIX + utf8_len(self.ai_scope))
            + 1 + 8 + 1
    }
}

/// The persistent record: one per (author, content hash) pair. Every field
/// but `is_public` is set once at creation and never changes.
#[derive(Debug, Clone, PartialEq, Eq)]
pub struct Article {
    /// Identity of the creator; fixed at creation.
    pub author: [u8; 32],
    /// Content fingerprint; part of the address derivation; fixed at creation.
    pub content_hash: [u8; 32],
    /// Secondary fingerprint; fixed at creation.
    pub intuition_hash: [u8; 32],
    /// External storage locator, at most `MAX_ARWEAVE_ID_LEN` bytes.
    pub arweave_id: String,
    /// Display title, at most `MAX_TITLE_LEN` bytes.
    pub title: String,
    /// Free-form scope tag, at most `MAX_AI_SCOPE_LEN` bytes.
    pub ai_scope: String,
    /// Visibility flag; the only mutable field.
    pub is_public: bool,
    /// Host clock seconds at creation; fixed at creation.
    pub timestamp: i64,
    /// Discriminator chosen by the address derivation; fixed at creation.
    pub bump: u8,
}

impl View for Article {
    type V = ArticleView;

    open spec fn view(&self) -> ArticleView {
        ArticleView {
            author: self.author@,
            content_hash: self.content_hash@,
            intuition_hash: self.intuition_hash@,
            arweave_id: self.arweave_id@,
            title: self.title@,
            ai_scope: self.ai_scope@,
            is_public: self.is_public,
            timestamp: self.timestamp,
            bump: self.bump,
        }
    }
}

impl Article {
    /// Fixed byte budget allocated for a record: the maximum that
    /// `required_space` can reach for a well-formed record, with no slack.
    pub const SPACE: usize = 8 + 32 + 32 + 32 + (4 + 64) + (4 + 128) + (4 + 256) + 1 + 8 + 1;
}

/// The allocated budget is exactly enough: a well-formed record never needs
/// more than `Article::SPACE` bytes, and a record whose text fields reach
/// their maxima needs all of it.
pub proof fn lemma_space_sufficient(v: ArticleView)
    requires
        v.wf(),
    ensures
        v.required_space() <= Article::SPACE as int,
        utf8_len(v.arweave_id) == MAX_ARWEAVE_ID_LEN && utf8_len(v.title) == MAX_TITLE_LEN
            && utf8_len(v.ai_scope) == MAX_AI_SCOPE_LEN ==> v.required_space()
            == Article::SPACE as int,
{
}

} // verus!

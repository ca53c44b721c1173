//! The two operation handlers: `publish_article` creates a fully
//! initialized record from validated inputs, `update_visibility` flips the
//! one mutable field of an existing record after an authorization check.

use vstd::prelude::*;
use crate::all_zero;
use crate::bytes32_eq;
use crate::bytes32_is_zero;
use crate::article::{Article, ArticleView, MAX_AI_SCOPE_LEN, MAX_ARWEAVE_ID_LEN, MAX_TITLE_LEN, utf8_len};
use crate::error::AuroraError;
use crate::event::{ArticlePublished, VisibilityUpdated};

verus! {

/// The request context of a publish operation: the signing author.
#[derive(Clone, Copy, Debug)]
pub struct PublishArticle {
    /// Identity that signed the request; becomes the record's author.
    pub author: [u8; 32],
}

/// The request context of a visibility update: the target record's address
/// as supplied by the caller, and the signing identity.
#[derive(Clone, Copy, Debug)]
pub struct UpdateVisibility {
    /// Address of the record to update, resolved by the caller.
    pub article: [u8; 32],
    /// Identity that signed the request.
    pub author: [u8; 32],
}

/// The first reason, if any, for which a publish request is rejected:
/// a degenerate content hash, then each bounded text field in turn.
pub open spec fn publish_rejection(
    content_hash: Seq<u8>,
    arweave_id: Seq<char>,
    title: Seq<char>,
    ai_scope: Seq<char>,
) -> Option<AuroraError> {
    if all_zero(content_hash) {
        Some(AuroraError::InvalidContentHash)
    } else if utf8_len(arweave_id) > MAX_ARWEAVE_ID_LEN {
        Some(AuroraError::ArweaveIdTooLong)
    } else if utf8_len(title) > MAX_TITLE_LEN {
        Some(AuroraError::TitleTooLong)
    } else if utf8_len(ai_scope) > MAX_AI_SCOPE_LEN {
        Some(AuroraError::AiScopeTooLong)
    } else {
        None
    }
}

/// The record a successful publish creates, as a mathematical value.
pub open spec fn published_view(
    author: Seq<u8>,
    content_hash: Seq<u8>,
    intuition_hash: Seq<u8>,
    arweave_id: Seq<char>,
    title: Seq<char>,
    ai_scope: Seq<char>,
    is_public: bool,
    now: i64,
    bump: u8,
) -> ArticleView {
    ArticleView {
        author,
        content_hash,
        intuition_hash,
        arweave_id,
        title,
        ai_scope,
        is_public,
        timestamp: now,
        bump,
    }
}

/// Validates a publish request and, when it passes, builds the new record
/// together with its notification event. `now` is the host clock reading
/// and `bump` the discriminator that the address derivation chose; the
/// record store supplies both.
pub fn publish_article(
    ctx: &PublishArticle,
    content_hash: [u8; 32],
    intuition_hash: [u8; 32],
    arweave_id: String,
    title: String,
    ai_scope: String,
    is_public: bool,
    now: i64,
    bump: u8,
) -> (r: Result<(Article, ArticlePublished), AuroraError>)
    ensures
        r is Err <==> publish_rejection(content_hash@, arweave_id@, title@, ai_scope@) is Some,
        r is Err ==> Some(r->Err_0) == publish_rejection(
            content_hash@,
            arweave_id@,
            title@,
            ai_scope@,
        ),
        r is Ok ==> r->Ok_0.0@ == published_view(
            ctx.author@,
            content_hash@,
            intuition_hash@,
            arweave_id@,
            title@,
            ai_scope@,
            is_public,
            now,
            bump,
        ),
        r is Ok ==> r->Ok_0.1 == (ArticlePublished {
            author: ctx.author,
            content_hash,
            timestamp: now,
            is_public,
        }),
{
    if bytes32_is_zero(&content_hash) {
        return Err(AuroraError::InvalidContentHash);
    }
    if arweave_id.as_str().as_bytes().len() > MAX_ARWEAVE_ID_LEN {
        return Err(AuroraError::ArweaveIdTooLong);
    }
    if title.as_str().as_bytes().len() > MAX_TITLE_LEN {
        return Err(AuroraError::TitleTooLong);
    }
    if ai_scope.as_str().as_bytes().len() > MAX_AI_SCOPE_LEN {
        return Err(AuroraError::AiScopeTooLong);
    }
    let article = Article {
        author: ctx.author,
        content_hash,
        intuition_hash,
        arweave_id,
        title,
        ai_scope,
        is_public,
        timestamp: now,
        bump,
    };
    let event = ArticlePublished { author: article.author, content_hash: article.content_hash, timestamp: article.timestamp, is_public: article.is_public };
    proof {
        assert(article@ =~= published_view(
            ctx.author@,
            content_hash@,
            intuition_hash@,
            arweave_id@,
            title@,
            ai_scope@,
            is_public,
            now,
            bump,
        ));
    }
    Ok((article, event))
}

/// Sets the record's visibility flag when the signer is its stored author;
/// rejects the request as unauthorized otherwise, leaving the record
/// untouched. Every field other than `is_public` is left as it was.
pub fn update_visibility(
    ctx: &UpdateVisibility,
    article: &mut Article,
    is_public: bool,
) -> (r: Result<VisibilityUpdated, AuroraError>)
    ensures
        r is Ok <==> old(article)@.author == ctx.author@,
        r is Err ==> r->Err_0 == AuroraError::Unauthorized && *final(article) == *old(article),
        r is Ok ==> final(article)@ == (ArticleView { is_public, ..old(article)@ }),
        r is Ok ==> r->Ok_0 == (VisibilityUpdated { article: ctx.article, is_public }),
{
    if !bytes32_eq(&article.author, &ctx.author) {
        return Err(AuroraError::Unauthorized);
    }
    article.is_public = is_public;
    proof {
        assert(article@ =~= (ArticleView { is_public, ..old(article)@ }));
    }
    Ok(VisibilityUpdated { article: ctx.article, is_public })
}

} // verus!

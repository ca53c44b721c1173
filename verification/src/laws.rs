//! Laws of the record store, proved once over the pure transition
//! functions that the store's contracts are stated with.

use vstd::prelude::*;
use crate::all_zero;
use crate::address::article_address;
use crate::article::{ArticleView, MAX_AI_SCOPE_LEN, MAX_ARWEAVE_ID_LEN, MAX_TITLE_LEN, utf8_len};
use crate::error::{AuroraError, LedgerError};
use crate::handlers::{publish_rejection, published_view};
use crate::ledger::{spec_publish, spec_set_visibility};

verus! {

/// Publishing succeeds whenever the derivation yields an address, no
/// record sits there yet and validation passes; and then a lookup at the
/// derived address finds a record whose fields equal the inputs, with the
/// clock reading as its timestamp and the derivation's bump.
pub proof fn lemma_publish_then_lookup(
    m: Map<Seq<u8>, ArticleView>,
    program_id: Seq<u8>,
    author: Seq<u8>,
    content_hash: Seq<u8>,
    intuition_hash: Seq<u8>,
    arweave_id: Seq<char>,
    title: Seq<char>,
    ai_scope: Seq<char>,
    is_public: bool,
    now: i64,
)
    requires
        article_address(program_id, author, content_hash) is Some,
        !m.contains_key(article_address(program_id, author, content_hash).unwrap().0),
        publish_rejection(content_hash, arweave_id, title, ai_scope) is None,
    ensures
        ({
            let o = spec_publish(
                m,
                program_id,
                author,
                content_hash,
                intuition_hash,
                arweave_id,
                title,
                ai_scope,
                is_public,
                now,
            );
            let d = article_address(program_id, author, content_hash).unwrap();
            &&& o.0 is Ok
            &&& o.1.contains_key(d.0)
            &&& o.1[d.0] == published_view(
                author,
                content_hash,
                intuition_hash,
                arweave_id,
                title,
                ai_scope,
                is_public,
                now,
                d.1,
            )
            &&& forall|k: Seq<u8>|
                m.contains_key(k) && k != d.0 ==> o.1.contains_key(k) && o.1[k] == m[k]
        }),
{
}

/// Publishing a second time with the same author and content hash fails
/// as already-exists, whatever the other arguments are, and leaves every
/// record of the store as it was.
pub proof fn lemma_publish_twice_fails(
    m: Map<Seq<u8>, ArticleView>,
    program_id: Seq<u8>,
    author: Seq<u8>,
    content_hash: Seq<u8>,
    intuition_hash: Seq<u8>,
    arweave_id: Seq<char>,
    title: Seq<char>,
    ai_scope: Seq<char>,
    is_public: bool,
    now: i64,
    intuition_hash2: Seq<u8>,
    arweave_id2: Seq<char>,
    title2: Seq<char>,
    ai_scope2: Seq<char>,
    is_public2: bool,
    now2: i64,
)
    requires
        spec_publish(
            m,
            program_id,
            author,
            content_hash,
            intuition_hash,
            arweave_id,
            title,
            ai_scope,
            is_public,
            now,
        ).0 is Ok,
    ensures
        ({
            let o1 = spec_publish(
                m,
                program_id,
                author,
                content_hash,
                intuition_hash,
                arweave_id,
                title,
                ai_scope,
                is_public,
                now,
            );
            let o2 = spec_publish(
                o1.1,
                program_id,
                author,
                content_hash,
                intuition_hash2,
                arweave_id2,
                title2,
                ai_scope2,
                is_public2,
                now2,
            );
            &&& o2.0 == Err::<ArticleView, LedgerError>(LedgerError::RecordAlreadyExists)
            &&& o2.1 == o1.1
        }),
{
}

/// A publish request with an all-zero content hash never creates a record
/// and never changes the store, whatever the other arguments are; when
/// the derived address is free, the error is invalid-content-hash.
pub proof fn lemma_zero_content_hash_rejected(
    m: Map<Seq<u8>, ArticleView>,
    program_id: Seq<u8>,
    author: Seq<u8>,
    content_hash: Seq<u8>,
    intuition_hash: Seq<u8>,
    arweave_id: Seq<char>,
    title: Seq<char>,
    ai_scope: Seq<char>,
    is_public: bool,
    now: i64,
)
    requires
        all_zero(content_hash),
    ensures
        ({
            let o = spec_publish(
                m,
                program_id,
                author,
                content_hash,
                intuition_hash,
                arweave_id,
                title,
                ai_scope,
                is_public,
                now,
            );
            let d = article_address(program_id, author, content_hash);
            &&& o.0 is Err
            &&& o.1 == m
            &&& d is Some && !m.contains_key(d.unwrap().0) ==> o.0 == Err::<
                ArticleView,
                LedgerError,
            >(LedgerError::Rejected(AuroraError::InvalidContentHash))
        }),
{
}

/// With a sound content hash and a free derived address, a publish
/// request fails with the matching too-long error exactly when a bounded
/// text field exceeds its maximum — the first oversize field, in the
/// order locator, title, scope, decides — and succeeds otherwise, so in
/// particular at exactly the boundary lengths. On failure the store is
/// unchanged.
pub proof fn lemma_length_validation(
    m: Map<Seq<u8>, ArticleView>,
    program_id: Seq<u8>,
    author: Seq<u8>,
    content_hash: Seq<u8>,
    intuition_hash: Seq<u8>,
    arweave_id: Seq<char>,
    title: Seq<char>,
    ai_scope: Seq<char>,
    is_public: bool,
    now: i64,
)
    requires
        !all_zero(content_hash),
        article_address(program_id, author, content_hash) is Some,
        !m.contains_key(article_address(program_id, author, content_hash).unwrap().0),
    ensures
        ({
            let o = spec_publish(
                m,
                program_id,
                author,
                content_hash,
                intuition_hash,
                arweave_id,
                title,
                ai_scope,
                is_public,
                now,
            );
            &&& utf8_len(arweave_id) > MAX_ARWEAVE_ID_LEN ==> o.0 == Err::<
                ArticleView,
                LedgerError,
            >(LedgerError::Rejected(AuroraError::ArweaveIdTooLong)) && o.1 == m
            &&& utf8_len(arweave_id) <= MAX_ARWEAVE_ID_LEN && utf8_len(title) > MAX_TITLE_LEN
                ==> o.0 == Err::<ArticleView, LedgerError>(
                LedgerError::Rejected(AuroraError::TitleTooLong),
            ) && o.1 == m
            &&& utf8_len(arweave_id) <= MAX_ARWEAVE_ID_LEN && utf8_len(title) <= MAX_TITLE_LEN
                && utf8_len(ai_scope) > MAX_AI_SCOPE_LEN ==> o.0 == Err::<
                ArticleView,
                LedgerError,
            >(LedgerError::Rejected(AuroraError::AiScopeTooLong)) && o.1 == m
            &&& utf8_len(arweave_id) <= MAX_ARWEAVE_ID_LEN && utf8_len(title) <= MAX_TITLE_LEN
                && utf8_len(ai_scope) <= MAX_AI_SCOPE_LEN ==> o.0 is Ok
        }),
{
}

/// A visibility update by the stored author succeeds, sets exactly the
/// flag on exactly the target record, and leaves every other field of it
/// and every other record of the store as they were.
pub proof fn lemma_set_visibility_authorized(
    m: Map<Seq<u8>, ArticleView>,
    address: Seq<u8>,
    signer: Seq<u8>,
    is_public: bool,
)
    requires
        m.contains_key(address),
        m[address].author == signer,
    ensures
        ({
            let o = spec_set_visibility(m, address, signer, is_public);
            &&& o.0 is Ok
            &&& o.1.dom() == m.dom()
            &&& o.1[address].is_public == is_public
            &&& o.1[address] == (ArticleView { is_public, ..m[address] })
            &&& forall|k: Seq<u8>|
                m.contains_key(k) && k != address ==> o.1[k] == m[k]
        }),
{
    let o = spec_set_visibility(m, address, signer, is_public);
    assert(o.1.dom() =~= m.dom());
}

/// A visibility update by anyone but the stored author fails as
/// unauthorized and leaves the store completely unchanged.
pub proof fn lemma_set_visibility_unauthorized(
    m: Map<Seq<u8>, ArticleView>,
    address: Seq<u8>,
    signer: Seq<u8>,
    is_public: bool,
)
    requires
        m.contains_key(address),
        m[address].author != signer,
    ensures
        spec_set_visibility(m, address, signer, is_public) == (
            Err::<ArticleView, LedgerError>(LedgerError::Rejected(AuroraError::Unauthorized)),
            m,
        ),
{
}

/// Setting the same visibility value twice produces the same store as
/// setting it once, with the same successful outcome.
pub proof fn lemma_set_visibility_idempotent(
    m: Map<Seq<u8>, ArticleView>,
    address: Seq<u8>,
    signer: Seq<u8>,
    is_public: bool,
)
    ensures
        ({
            let o1 = spec_set_visibility(m, address, signer, is_public);
            let o2 = spec_set_visibility(o1.1, address, signer, is_public);
            &&& o2.1 == o1.1
            &&& o1.0 is Ok ==> o2.0 == o1.0
        }),
{
    let o1 = spec_set_visibility(m, address, signer, is_public);
    let o2 = spec_set_visibility(o1.1, address, signer, is_public);
    if m.contains_key(address) && m[address].author == signer {
        let v = ArticleView { is_public, ..m[address] };
        assert(o1.1[address] == v);
        let v2 = ArticleView { is_public, ..o1.1[address] };
        assert(v2 =~= v);
        assert(o2.1 =~= o1.1);
    }
}

} // verus!

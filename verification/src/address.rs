//! Deterministic address derivation for article records.
//!
//! A record's address is derived from a fixed namespace tag, the author's
//! identity and the content hash, together with a one-byte bump
//! discriminator chosen so that the address is usable as a program-owned
//! storage slot. The derivation itself is the host's; this module wraps it
//! and gives its outcome a name that the store's contracts are stated over.

use vstd::prelude::*;

verus! {

/// The address and bump that the host's program-derived-address search
/// returns for a program id and the three seeds handed to it, or `None`
/// when no usable bump exists for them. The outcome depends on the
/// arguments alone.
pub uninterp spec fn pda_of(
    program_id: Seq<u8>,
    tag: Seq<u8>,
    author: Seq<u8>,
    content_hash: Seq<u8>,
) -> Option<(Seq<u8>, u8)>;

/// The namespace tag under which article records are derived: the bytes of
/// `"article"`.
pub open spec fn article_tag() -> Seq<u8> {
    seq![97u8, 114u8, 116u8, 105u8, 99u8, 108u8, 101u8]
}

/// The derived address and bump of the article record for an author and a
/// content hash under a program id, or `None` when no usable bump exists.
pub open spec fn article_address(
    program_id: Seq<u8>,
    author: Seq<u8>,
    content_hash: Seq<u8>,
) -> Option<(Seq<u8>, u8)> {
    pda_of(program_id, article_tag(), author, content_hash)
}

/// The namespace tag as bytes.
fn article_tag_bytes() -> (v: Vec<u8>)
    ensures
        v@ == article_tag(),
{
    let v: Vec<u8> = vec![97u8, 114u8, 116u8, 105u8, 99u8, 108u8, 101u8];
    proof {
        assert(v@ =~= article_tag());
    }
    v
}

/// Relies on anchor_lang::prelude::Pubkey::try_find_program_address: for a
/// fixed seed list and program id it returns the same address and bump in
/// every call, searching bumps from 255 downward, and returns `None` only
/// when no bump yields a valid program-owned address.
#[verifier::external_body]
fn try_find_pda(
    program_id: &[u8; 32],
    tag: &Vec<u8>,
    author: &[u8; 32],
    content_hash: &[u8; 32],
) -> (r: Option<([u8; 32], u8)>)
    ensures
        match r {
            Some(p) => pda_of(program_id@, tag@, author@, content_hash@) == Some((p.0@, p.1)),
            None => pda_of(program_id@, tag@, author@, content_hash@) is None,
        },
{
    let pid = anchor_lang::prelude::Pubkey::new_from_array(*program_id);
    let seeds: [&[u8]; 3] = [tag.as_slice(), author.as_slice(), content_hash.as_slice()];
    anchor_lang::prelude::Pubkey::try_find_program_address(&seeds, &pid)
        .map(|(address, bump)| (address.to_bytes(), bump))
}

/// Derives the storage address and bump of the article record for
/// `(author, content_hash)` under `program_id`, or returns `None` when the
/// search finds no usable bump.
pub fn derive_article_address(
    program_id: &[u8; 32],
    author: &[u8; 32],
    content_hash: &[u8; 32],
) -> (r: Option<([u8; 32], u8)>)
    ensures
        match r {
            Some(p) => article_address(program_id@, author@, content_hash@) == Some((p.0@, p.1)),
            None => article_address(program_id@, author@, content_hash@) is None,
        },
{
    let tag = article_tag_bytes();
    try_find_pda(program_id, &tag, author, content_hash)
}

} // verus!

//! An on-chain record store for content-addressed articles.
//!
//! An author publishes an immutable article record (a content hash plus
//! bounded metadata) at an address derived deterministically from the
//! author's identity and the content hash, and may later toggle the
//! record's public/private flag. Everything else about a record is
//! write-once.

use vstd::prelude::*;

pub mod address;
pub mod article;
pub mod error;
pub mod event;
pub mod handlers;
pub mod laws;
pub mod ledger;

verus! {

/// Returns true when every byte of the sequence is zero.
pub open spec fn all_zero(s: Seq<u8>) -> bool {
    forall|i: int| 0 <= i < s.len() ==> s[i] == 0u8
}

/// Compares two 32-byte values for equality.
pub fn bytes32_eq(a: &[u8; 32], b: &[u8; 32]) -> (r: bool)
    ensures
        r <==> a@ == b@,
{
    let mut i: usize = 0;
    while i < 32
        invariant
            0 <= i <= 32,
            forall|j: int| 0 <= j < i ==> a@[j] == b@[j],
        decreases 32 - i,
    {
        if a[i] != b[i] {
            assert(a@ != b@);
            return false;
        }
        i += 1;
    }
    assert(a@ =~= b@);
    true
}

/// Returns true when the 32-byte value is all zero.
pub fn bytes32_is_zero(h: &[u8; 32]) -> (r: bool)
    ensures
        r <==> all_zero(h@),
{
    let mut i: usize = 0;
    while i < 32
        invariant
            0 <= i <= 32,
            forall|j: int| 0 <= j < i ==> h@[j] == 0u8,
        decreases 32 - i,
    {
        if h[i] != 0 {
            return false;
        }
        i += 1;
    }
    true
}

} // verus!

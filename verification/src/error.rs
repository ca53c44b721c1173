//! Error kinds surfaced by the two operations.

use vstd::prelude::*;

verus! {

/// A validation or authorization failure raised by an operation handler.
#[derive(Clone, Copy, Debug, PartialEq, Eq, Structural)]
pub enum AuroraError {
    /// The signer is not the stored author of the record.
    Unauthorized,
    /// The content hash is the all-zero value.
    InvalidContentHash,
    /// The external storage locator exceeds its maximum byte length.
    ArweaveIdTooLong,
    /// The title exceeds its maximum byte length.
    TitleTooLong,
    /// The scope tag exceeds its maximum byte length.
    AiScopeTooLong,
}

/// A failure of an operation against the record store, either structural
/// (raised by the store itself) or a handler rejection.
#[derive(Clone, Copy, Debug, PartialEq, Eq, Structural)]
pub enum LedgerError {
    /// The address derivation found no usable discriminator for the seeds.
    AddressUnavailable,
    /// A record already exists at the derived address.
    RecordAlreadyExists,
    /// No record exists at the caller-supplied address.
    RecordNotFound,
    /// The handler rejected the request.
    Rejected(AuroraError),
}

} // verus!

//! Error taxonomy of the library.

use vstd::prelude::*;

verus! {

/// What can go wrong while converting URLs, decoding the history store,
/// or reacting to a picker event.
///
/// Store-level failures (`KeyNotFound`, `StoreUnwritable`) are produced by
/// the embedding application when it talks to the state database; they share
/// this taxonomy so that every layer reports in the same vocabulary.
#[derive(Debug, Clone, Copy, PartialEq, Eq, Structural)]
pub enum RecentError {
    /// The URL text could not be parsed, or its path has no filesystem form.
    MalformedUrl,
    /// The URL parsed, but its scheme is not `file`.
    UnsupportedScheme,
    /// The item is not on the local filesystem.
    NotLocal,
    /// The history record has no `entries` array at its top level.
    SchemaError,
    /// The history key is absent from the state store.
    KeyNotFound,
    /// The stored history value is not valid JSON.
    Corrupt,
    /// The state store could not be opened for writing.
    StoreUnwritable,
    /// The history list could not be re-encoded.
    EncodeError,
    /// The event kind is not handled by the session.
    Unsupported,
}

} // verus!

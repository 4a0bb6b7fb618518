use vstd::prelude::*;

verus! {

/// Errors surfaced by the client core. Every failure is returned as a typed
/// value; nothing is retried or swallowed locally.
#[derive(Clone, Copy, Debug, PartialEq, Eq, Structural)]
pub enum DB3Error {
    /// A key length bound was violated on encode, or a buffer too short to
    /// hold an address and sentinel was handed to decode. `length` is the
    /// violating length, so callers can report it.
    KeyCodecError { length: usize },
    /// The seed or derivation path handed to key derivation was malformed,
    /// or the derived material was rejected by the scheme.
    KeyDerivationError,
    /// The signature scheme rejected a signing request. A hard local fault,
    /// never expected in normal operation.
    SigningError,
    /// The local session gate refused a metered query before any network
    /// attempt: the session must be restarted first.
    SessionNotRunning,
}

} // verus!

use vstd::prelude::*;

verus! {

/// The failure kinds an invocation can surface. Every error aborts the whole
/// invocation; the execution host guarantees that no partial effect is kept.
#[derive(Debug, Clone, Copy, PartialEq, Eq, Structural)]
pub enum ExchangeError {
    /// Malformed, undersized or unknown-tag instruction payload.
    InvalidEncoding,
    /// A required external signer was not authenticated.
    MissingSignature,
    /// The account list is shorter than the operation's positional layout.
    MissingAccount,
    /// The token service rejected a custody request.
    CustodyOperationFailed,
}

} // verus!

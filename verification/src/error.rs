//! The error taxonomy of the authentication core.
//!
//! Failed verification is not an error: `verify` returns `false` for a
//! well-formed but non-matching signature. Only structural faults are
//! reported through this type.

use vstd::prelude::*;

verus! {

/// An error produced by the authentication core.
#[derive(Clone, Copy, Debug, PartialEq, Eq, Structural)]
pub enum CryptoError {
    /// Key material is missing, too short, or structurally invalid.
    KeyError,
    /// Signature or public-key bytes fail to decode into the expected
    /// fixed-length / curve-valid form.
    EncodingError,
}

impl CryptoError {
    /// A human-readable description of the error.
    pub fn message(&self) -> (r: &'static str)
        ensures
            *self is KeyError ==> r@ == "key material invalid: need at least 32 bytes"@,
            *self is EncodingError ==> r@ == "malformed signature or key encoding"@,
    {
        match self {
            CryptoError::KeyError => "key material invalid: need at least 32 bytes",
            CryptoError::EncodingError => "malformed signature or key encoding",
        }
    }
}

} // verus!

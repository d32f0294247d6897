//! The error type shared by every operation of the library.

use vstd::prelude::*;

verus! {

/// Why an operation failed.
///
/// Both kinds are deliberately free of detail: an authentication failure must
/// not reveal whether the key, the nonce or the ciphertext was at fault.
#[derive(Debug, Clone, Copy, PartialEq, Eq, Hash)]
pub enum EncryptionError {
    /// The codec could not encode a value or could not decode a byte string.
    Serialization,
    /// The cipher refused to seal, or the ciphertext did not authenticate.
    Encryption,
}

} // verus!

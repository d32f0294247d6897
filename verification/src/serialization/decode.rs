//! Reading an envelope's fields back from wire bytes.

use vstd::prelude::*;
use crate::error::EncryptionError;

verus! {

/// A codec that reads the record `{ nonce, ciphertext }` from bytes.
pub trait Decoder {
    /// The record that `input` stands for; `None` where `input` is malformed
    /// or truncated.
    spec fn decoded(input: Seq<u8>) -> Option<(Seq<u8>, Seq<u8>)>;

    /// Decodes `input` into `(nonce, ciphertext)`.
    fn decode(input: &[u8]) -> (r: Result<(Vec<u8>, Vec<u8>), EncryptionError>)
        ensures
            match Self::decoded(input@) {
                Some(record) => r matches Ok(out) && out.0@ == record.0 && out.1@ == record.1,
                None => r matches Err(e) && e == EncryptionError::Serialization,
            },
    ;
}

} // verus!

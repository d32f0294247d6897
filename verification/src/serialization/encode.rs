//! Writing an envelope's fields as wire bytes.

use vstd::prelude::*;
use crate::error::EncryptionError;
use crate::serialization::decode::Decoder;

verus! {

/// A codec that writes the record `{ nonce, ciphertext }` as bytes.
///
/// Encoding is deterministic, and the codec reads back what it wrote: every
/// byte string that `encode` returns decodes to the record it was made from.
pub trait Encoder: Decoder {
    /// The wire bytes of a record; `None` where the codec refuses it.
    spec fn encoded(nonce: Seq<u8>, ciphertext: Seq<u8>) -> Option<Seq<u8>>;

    /// Encodes the record `{ nonce, ciphertext }`.
    fn encode(nonce: &[u8], ciphertext: &[u8]) -> (r: Result<Vec<u8>, EncryptionError>)
        ensures
            match Self::encoded(nonce@, ciphertext@) {
                Some(bytes) => r matches Ok(out) && out@ == bytes
                    && Self::decoded(bytes) == Some((nonce@, ciphertext@)),
                None => r matches Err(e) && e == EncryptionError::Serialization,
            },
    ;
}

} // verus!

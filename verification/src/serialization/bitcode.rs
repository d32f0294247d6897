//! The compact codec, backed by the `bitcode` crate's serde support.

use vstd::prelude::*;
use crate::error::EncryptionError;
use crate::serialization::decode::Decoder;
use crate::serialization::encode::Encoder;

verus! {

/// The error of `bitcode`: opaque, and without detail in release builds.
#[verifier::external_type_specification]
#[verifier::external_body]
pub struct ExBitcodeError(bitcode::Error);

/// What `bitcode::serialize` returns for the pair `(nonce, ciphertext)`.
pub uninterp spec fn bitcode_serialized(nonce: Seq<u8>, ciphertext: Seq<u8>) -> Seq<u8>;

/// What `bitcode::deserialize` reads from `input` as a pair of byte vectors;
/// `None` where it returns an error.
pub uninterp spec fn bitcode_deserialized(input: Seq<u8>) -> Option<(Seq<u8>, Seq<u8>)>;

/// Calls `bitcode::serialize` on the pair `(nonce, ciphertext)`, which
/// `bitcode` lays out as it does a struct of those two fields.
///
/// The serializer fails only on an enum with more than 256 variants and on a
/// skipped struct field, neither of which a pair of byte strings has, so the
/// call succeeds. The bytes it returns are read back by
/// `bitcode::deserialize` as the same pair.
#[verifier::external_body]
fn bitcode_serialize(nonce: &[u8], ciphertext: &[u8]) -> (r: Result<Vec<u8>, bitcode::Error>)
    ensures
        r is Ok,
        r matches Ok(out) ==> out@ == bitcode_serialized(nonce@, ciphertext@)
            && bitcode_deserialized(out@) == Some((nonce@, ciphertext@)),
{
    bitcode::serialize(&(nonce, ciphertext))
}

/// Calls `bitcode::deserialize` for a pair of byte vectors.
#[verifier::external_body]
fn bitcode_deserialize(input: &[u8]) -> (r: Result<(Vec<u8>, Vec<u8>), bitcode::Error>)
    ensures
        match r {
            Ok(out) => bitcode_deserialized(input@) == Some((out.0@, out.1@)),
            Err(_) => bitcode_deserialized(input@) is None,
        },
{
    bitcode::deserialize::<(Vec<u8>, Vec<u8>)>(input)
}

/// The compact, non-self-describing codec.
#[derive(Debug, Default)]
pub struct Bitcode;

impl Decoder for Bitcode {
    open spec fn decoded(input: Seq<u8>) -> Option<(Seq<u8>, Seq<u8>)> {
        bitcode_deserialized(input)
    }

    fn decode(input: &[u8]) -> (r: Result<(Vec<u8>, Vec<u8>), EncryptionError>) {
        match bitcode_deserialize(input) {
            Ok(out) => Ok(out),
            Err(_) => Err(EncryptionError::Serialization),
        }
    }
}

impl Encoder for Bitcode {
    open spec fn encoded(nonce: Seq<u8>, ciphertext: Seq<u8>) -> Option<Seq<u8>> {
        Some(bitcode_serialized(nonce, ciphertext))
    }

    fn encode(nonce: &[u8], ciphertext: &[u8]) -> (r: Result<Vec<u8>, EncryptionError>) {
        match bitcode_serialize(nonce, ciphertext) {
            Ok(out) => Ok(out),
            Err(_) => Err(EncryptionError::Serialization),
        }
    }
}

} // verus!

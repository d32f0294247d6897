//! The traditional binary codec, backed by the `bincode` crate.
//!
//! With `bincode`'s default configuration a byte sequence is written as its
//! length in eight little-endian bytes followed by the bytes themselves, and
//! a record is the concatenation of its fields. The layout is stated here as
//! spec functions, and the round trip through it is proved.

use vstd::prelude::*;
use vstd::slice::spec_slice_len;
use vstd::bytes::{
    lemma_auto_spec_u64_to_from_le_bytes, spec_u64_from_le_bytes, spec_u64_to_le_bytes,
};
use crate::error::EncryptionError;
use crate::serialization::decode::Decoder;
use crate::serialization::encode::Encoder;

verus! {

/// The error of `bincode`, which it hands out boxed.
#[verifier::external_type_specification]
#[verifier::external_body]
pub struct ExBincodeErrorKind(bincode::ErrorKind);

/// One field on the wire: its length as a little-endian `u64`, then its bytes.
pub open spec fn field_layout(bytes: Seq<u8>) -> Seq<u8> {
    spec_u64_to_le_bytes(bytes.len() as u64) + bytes
}

/// A record on the wire: the nonce field, then the ciphertext field.
pub open spec fn record_layout(nonce: Seq<u8>, ciphertext: Seq<u8>) -> Seq<u8> {
    field_layout(nonce) + field_layout(ciphertext)
}

/// A record on the wire is its two fields and sixteen bytes of length
/// prefixes long.
pub proof fn lemma_record_layout_len(nonce: Seq<u8>, ciphertext: Seq<u8>)
    ensures
        record_layout(nonce, ciphertext).len() == 16 + nonce.len() + ciphertext.len(),
{
    lemma_auto_spec_u64_to_from_le_bytes();
}

/// Reads one field from the front of `input`: the field and what follows it,
/// or `None` where `input` ends before the field does.
pub open spec fn field_parsed(input: Seq<u8>) -> Option<(Seq<u8>, Seq<u8>)> {
    if input.len() < 8 {
        None
    } else {
        let len = spec_u64_from_le_bytes(input.subrange(0, 8)) as int;
        if input.len() - 8 < len {
            None
        } else {
            Some((input.subrange(8, 8 + len), input.subrange(8 + len, input.len() as int)))
        }
    }
}

/// Reads a record from the front of `input`. Bytes after the record are
/// ignored.
pub open spec fn record_parsed(input: Seq<u8>) -> Option<(Seq<u8>, Seq<u8>)> {
    match field_parsed(input) {
        None => None,
        Some((nonce, rest)) => match field_parsed(rest) {
            None => None,
            Some((ciphertext, _)) => Some((nonce, ciphertext)),
        },
    }
}

/// A field that is followed by anything is read back as that field and what
/// followed it.
pub proof fn lemma_field_round_trip(bytes: Seq<u8>, rest: Seq<u8>)
    requires
        bytes.len() <= u64::MAX,
    ensures
        field_parsed(field_layout(bytes) + rest) == Some((bytes, rest)),
{
    lemma_auto_spec_u64_to_from_le_bytes();
    let prefix = spec_u64_to_le_bytes(bytes.len() as u64);
    let input = field_layout(bytes) + rest;
    assert(input.subrange(0, 8) =~= prefix);
    let end = 8 + bytes.len() as int;
    assert(input.subrange(8, end) =~= bytes);
    assert(input.subrange(end, input.len() as int) =~= rest);
}

/// Reading inverts writing: the layout of a record parses to that record,
/// whatever bytes follow it.
pub proof fn lemma_record_round_trip(nonce: Seq<u8>, ciphertext: Seq<u8>, trailing: Seq<u8>)
    requires
        nonce.len() <= u64::MAX,
        ciphertext.len() <= u64::MAX,
    ensures
        record_parsed(record_layout(nonce, ciphertext) + trailing) == Some((nonce, ciphertext)),
{
    let rest = field_layout(ciphertext) + trailing;
    assert(record_layout(nonce, ciphertext) + trailing =~= field_layout(nonce) + rest);
    lemma_field_round_trip(nonce, rest);
    lemma_field_round_trip(ciphertext, trailing);
}

/// The codec reads what it writes: decoding the encoding of a record gives
/// the record back, for every record whose fields have lengths that fit the
/// eight bytes of a length prefix.
pub proof fn lemma_bincode_reads_what_it_writes(nonce: Seq<u8>, ciphertext: Seq<u8>)
    requires
        nonce.len() <= u64::MAX,
        ciphertext.len() <= u64::MAX,
    ensures
        Bincode::encoded(nonce, ciphertext) matches Some(bytes) && Bincode::decoded(bytes) == Some(
            (nonce, ciphertext),
        ),
{
    lemma_record_round_trip(nonce, ciphertext, Seq::empty());
    assert(record_layout(nonce, ciphertext) + Seq::<u8>::empty() =~= record_layout(
        nonce,
        ciphertext,
    ));
}

/// Calls `bincode::serialize` on the pair `(nonce, ciphertext)`, which
/// `bincode` lays out as it does a struct of those two fields.
///
/// With the default configuration (fixed-width little-endian integers, no
/// size limit) the call succeeds and returns `record_layout`.
#[verifier::external_body]
fn bincode_serialize(nonce: &[u8], ciphertext: &[u8]) -> (r: Result<Vec<u8>, bincode::Error>)
    ensures
        r is Ok,
        r matches Ok(out) ==> out@ == record_layout(nonce@, ciphertext@),
{
    bincode::serialize(&(nonce, ciphertext))
}

/// Calls `bincode::deserialize` for a pair of byte vectors.
///
/// With the default configuration the call reads two length-prefixed fields,
/// fails where the input ends before a field does, and accepts trailing
/// bytes: it returns `record_parsed`.
#[verifier::external_body]
fn bincode_deserialize(input: &[u8]) -> (r: Result<(Vec<u8>, Vec<u8>), bincode::Error>)
    ensures
        match r {
            Ok(out) => record_parsed(input@) == Some((out.0@, out.1@)),
            Err(_) => record_parsed(input@) is None,
        },
{
    bincode::deserialize::<(Vec<u8>, Vec<u8>)>(input)
}

/// The traditional binary codec.
#[derive(Debug, Default)]
pub struct Bincode;

impl Decoder for Bincode {
    open spec fn decoded(input: Seq<u8>) -> Option<(Seq<u8>, Seq<u8>)> {
        record_parsed(input)
    }

    fn decode(input: &[u8]) -> (r: Result<(Vec<u8>, Vec<u8>), EncryptionError>) {
        match bincode_deserialize(input) {
            Ok(out) => Ok(out),
            Err(_) => Err(EncryptionError::Serialization),
        }
    }
}

impl Encoder for Bincode {
    open spec fn encoded(nonce: Seq<u8>, ciphertext: Seq<u8>) -> Option<Seq<u8>> {
        Some(record_layout(nonce, ciphertext))
    }

    fn encode(nonce: &[u8], ciphertext: &[u8]) -> (r: Result<Vec<u8>, EncryptionError>)
        ensures
            r matches Ok(out) && out@.len() == 16 + nonce@.len() + ciphertext@.len(),
    {
        proof {
            assert(spec_slice_len(nonce) == nonce@.len());
            assert(spec_slice_len(ciphertext) == ciphertext@.len());
            lemma_bincode_reads_what_it_writes(nonce@, ciphertext@);
            lemma_record_layout_len(nonce@, ciphertext@);
        }
        match bincode_serialize(nonce, ciphertext) {
            Ok(out) => Ok(out),
            Err(_) => Err(EncryptionError::Serialization),
        }
    }
}

} // verus!

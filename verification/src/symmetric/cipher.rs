//! The cipher capability: what the engine needs from an authenticated cipher.

use vstd::prelude::*;
use crate::error::EncryptionError;

verus! {

/// An authenticated cipher with a fixed key size, a fixed nonce size and a
/// tag of fixed size behind every ciphertext.
///
/// `sealed` and `opened` are the mathematical model of the cipher; `seal` and
/// `open` compute them. Both take keys and nonces of any length and answer a
/// wrong length with an error. Every implementation promises that what `seal`
/// returns opens, under the same key and nonce, to the plaintext it was made
/// from.
pub trait Cipher {
    /// Length of a key, in bytes.
    spec fn key_size() -> nat;

    /// Length of a nonce, in bytes.
    spec fn nonce_size() -> nat;

    /// Length of the authentication tag that ends a ciphertext, in bytes.
    spec fn tag_size() -> nat;

    /// Length of the longest plaintext that the cipher seals, in bytes.
    spec fn plaintext_limit() -> nat;

    /// The ciphertext, authentication tag included, of a plaintext under a
    /// key and a nonce.
    spec fn sealed(key: Seq<u8>, nonce: Seq<u8>, plaintext: Seq<u8>) -> Seq<u8>;

    /// The plaintext behind a ciphertext; `None` where the key or the nonce
    /// has the wrong length and where the ciphertext does not authenticate
    /// under them.
    spec fn opened(key: Seq<u8>, nonce: Seq<u8>, ciphertext: Seq<u8>) -> Option<Seq<u8>>;

    /// Length of a key, in bytes.
    fn key_len() -> (n: usize)
        ensures
            n == Self::key_size(),
    ;

    /// Length of a nonce, in bytes.
    fn nonce_len() -> (n: usize)
        ensures
            n == Self::nonce_size(),
    ;

    /// Draws a fresh nonce from the system's random source.
    fn generate_nonce() -> (nonce: Vec<u8>)
        ensures
            nonce@.len() == Self::nonce_size(),
    ;

    /// Encrypts and authenticates `plaintext`.
    ///
    /// Succeeds exactly when the key and the nonce have the cipher's sizes
    /// and the plaintext is no longer than `plaintext_limit`. The ciphertext
    /// is the plaintext's length and a tag long.
    fn seal(key: &[u8], nonce: &[u8], plaintext: &[u8]) -> (r: Result<Vec<u8>, EncryptionError>)
        ensures
            r is Ok <==> key@.len() == Self::key_size() && nonce@.len() == Self::nonce_size()
                && plaintext@.len() <= Self::plaintext_limit(),
            r matches Ok(out) ==> out@ == Self::sealed(key@, nonce@, plaintext@)
                && out@.len() == plaintext@.len() + Self::tag_size()
                && Self::opened(key@, nonce@, out@) == Some(plaintext@),
            r matches Err(e) ==> e == EncryptionError::Encryption,
    ;

    /// Authenticates `ciphertext` and decrypts it.
    ///
    /// Fails on a key or a nonce of the wrong length and on a ciphertext
    /// shorter than a tag, as on any other that does not authenticate. The
    /// plaintext is a tag shorter than the ciphertext.
    fn open(key: &[u8], nonce: &[u8], ciphertext: &[u8]) -> (r: Result<Vec<u8>, EncryptionError>)
        ensures
            match Self::opened(key@, nonce@, ciphertext@) {
                Some(plaintext) => r matches Ok(out) && out@ == plaintext,
                None => r matches Err(e) && e == EncryptionError::Encryption,
            },
            r is Ok ==> key@.len() == Self::key_size() && nonce@.len() == Self::nonce_size(),
            r matches Ok(out) ==> out@.len() + Self::tag_size() == ciphertext@.len(),
    ;
}

} // verus!

//! AES-GCM-SIV with a 128-bit key and a 96-bit nonce.

use vstd::prelude::*;
use aead::{Aead, AeadCore, KeyInit, OsRng};
use aead::generic_array::GenericArray;
use crate::error::EncryptionError;
use crate::serialization::encode::Encoder;
use crate::symmetric::cipher::Cipher;
use crate::symmetric::ciphers::or_encryption_error;
use crate::symmetric::encryption::Encryption;

verus! {

/// The ciphertext, tag included, that `aes_gcm_siv::Aes128GcmSiv` returns from
/// `encrypt` for a 16-byte key, a 12-byte nonce and a plaintext within the
/// cipher's limit.
pub uninterp spec fn aes128gcmsiv_sealed(
    key: Seq<u8>,
    nonce: Seq<u8>,
    plaintext: Seq<u8>,
) -> Seq<u8>;

/// The plaintext that `aes_gcm_siv::Aes128GcmSiv` returns from `decrypt` for a
/// 16-byte key and a 12-byte nonce; `None` where it returns an error.
pub uninterp spec fn aes128gcmsiv_opened(
    key: Seq<u8>,
    nonce: Seq<u8>,
    ciphertext: Seq<u8>,
) -> Option<Seq<u8>>;

/// Calls `AeadCore::generate_nonce` of `aes_gcm_siv::Aes128GcmSiv` with the
/// operating system's random source.
///
/// The nonce has the cipher's 12 bytes; nothing else is known of it. As in the
/// crate's own function, a random source that fails is fatal: the call does
/// not return.
#[verifier::external_body]
fn aes128gcmsiv_generate_nonce() -> (nonce: Vec<u8>)
    ensures
        nonce@.len() == 12,
{
    aes_gcm_siv::Aes128GcmSiv::generate_nonce(&mut OsRng).to_vec()
}

/// Builds `aes_gcm_siv::Aes128GcmSiv` from the key with `KeyInit::new` and
/// calls `Aead::encrypt` without associated data.
///
/// The call fails exactly when the plaintext is longer than the cipher's limit
/// of 2^36 bytes. The ciphertext is the encrypted plaintext followed by a tag
/// of 16 bytes. That `decrypt` gives the plaintext back for what `encrypt`
/// returned, under the same key and nonce, is what the crate documents of its
/// ciphers; it is assumed here, not proved.
#[verifier::external_body]
fn aes128gcmsiv_encrypt(key: &[u8], nonce: &[u8], plaintext: &[u8]) -> (r: Result<
    Vec<u8>,
    aead::Error,
>)
    requires
        key@.len() == 16,
        nonce@.len() == 12,
    ensures
        r is Ok <==> plaintext@.len() <= 0x10_0000_0000,
        r matches Ok(out) ==> out@ == aes128gcmsiv_sealed(key@, nonce@, plaintext@)
            && out@.len() == plaintext@.len() + 16
            && aes128gcmsiv_opened(key@, nonce@, out@) == Some(plaintext@),
{
    let cipher = aes_gcm_siv::Aes128GcmSiv::new(GenericArray::from_slice(key));
    cipher.encrypt(GenericArray::from_slice(nonce), plaintext)
}

/// Builds `aes_gcm_siv::Aes128GcmSiv` from the key with `KeyInit::new` and
/// calls `Aead::decrypt` without associated data.
///
/// The call returns the plaintext where the ciphertext authenticates under the
/// key and the nonce, and an error where it does not. A ciphertext shorter
/// than the tag of 16 bytes is an error; the plaintext is the ciphertext
/// without its tag.
#[verifier::external_body]
fn aes128gcmsiv_decrypt(key: &[u8], nonce: &[u8], ciphertext: &[u8]) -> (r: Result<
    Vec<u8>,
    aead::Error,
>)
    requires
        key@.len() == 16,
        nonce@.len() == 12,
    ensures
        match r {
            Ok(out) => aes128gcmsiv_opened(key@, nonce@, ciphertext@) == Some(out@),
            Err(_) => aes128gcmsiv_opened(key@, nonce@, ciphertext@) is None,
        },
        ciphertext@.len() < 16 ==> r is Err,
        r matches Ok(out) ==> out@.len() + 16 == ciphertext@.len(),
{
    let cipher = aes_gcm_siv::Aes128GcmSiv::new(GenericArray::from_slice(key));
    cipher.decrypt(GenericArray::from_slice(nonce), ciphertext)
}

/// AES-GCM-SIV with a 128-bit key and a 96-bit nonce, bound to the codec `S`.
#[derive(Debug, Default)]
pub struct Aes128GcmSiv<S>(S);

impl<S> Cipher for Aes128GcmSiv<S> {
    open spec fn key_size() -> nat {
        16
    }

    open spec fn nonce_size() -> nat {
        12
    }

    open spec fn tag_size() -> nat {
        16
    }

    open spec fn plaintext_limit() -> nat {
        0x10_0000_0000
    }

    open spec fn sealed(key: Seq<u8>, nonce: Seq<u8>, plaintext: Seq<u8>) -> Seq<u8> {
        aes128gcmsiv_sealed(key, nonce, plaintext)
    }

    open spec fn opened(key: Seq<u8>, nonce: Seq<u8>, ciphertext: Seq<u8>) -> Option<Seq<u8>> {
        if key.len() == 16 && nonce.len() == 12 {
            aes128gcmsiv_opened(key, nonce, ciphertext)
        } else {
            None
        }
    }

    fn key_len() -> (n: usize) {
        16
    }

    fn nonce_len() -> (n: usize) {
        12
    }

    fn generate_nonce() -> (nonce: Vec<u8>) {
        aes128gcmsiv_generate_nonce()
    }

    fn seal(key: &[u8], nonce: &[u8], plaintext: &[u8]) -> (r: Result<Vec<u8>, EncryptionError>) {
        if key.len() != 16 || nonce.len() != 12 {
            return Err(EncryptionError::Encryption);
        }
        or_encryption_error(aes128gcmsiv_encrypt(key, nonce, plaintext))
    }

    fn open(key: &[u8], nonce: &[u8], ciphertext: &[u8]) -> (r: Result<Vec<u8>, EncryptionError>) {
        if key.len() != 16 || nonce.len() != 12 {
            return Err(EncryptionError::Encryption);
        }
        or_encryption_error(aes128gcmsiv_decrypt(key, nonce, ciphertext))
    }
}

impl<S: Encoder> Encryption for Aes128GcmSiv<S> {
    type Scheme = S;
}

} // verus!

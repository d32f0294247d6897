//! XChaCha12-Poly1305, the 12-round variant, with a 192-bit extended nonce.
//!
//! The stream cipher underneath counts 64-byte blocks in 32 bits and spends
//! the first block on the key of the authenticator, so 2^32 - 2 blocks, 2^38 -
//! 128 bytes, are the most that one nonce encrypts. The cipher crate does not
//! return on some longer inputs, so the length is tested here before the crate
//! is called.

use vstd::prelude::*;
use aead::{Aead, AeadCore, KeyInit, OsRng};
use aead::generic_array::GenericArray;
use crate::error::EncryptionError;
use crate::serialization::encode::Encoder;
use crate::symmetric::cipher::Cipher;
use crate::symmetric::ciphers::or_encryption_error;
use crate::symmetric::encryption::Encryption;

verus! {

/// The ciphertext, tag included, that `chacha20poly1305::XChaCha12Poly1305`
/// returns from `encrypt` for a 32-byte key, a 24-byte nonce and a plaintext
/// within the cipher's limit.
pub uninterp spec fn xchacha12poly1305_sealed(
    key: Seq<u8>,
    nonce: Seq<u8>,
    plaintext: Seq<u8>,
) -> Seq<u8>;

/// The plaintext that `chacha20poly1305::XChaCha12Poly1305` returns from
/// `decrypt` for a 32-byte key and a 24-byte nonce; `None` where it returns an
/// error.
pub uninterp spec fn xchacha12poly1305_opened(
    key: Seq<u8>,
    nonce: Seq<u8>,
    ciphertext: Seq<u8>,
) -> Option<Seq<u8>>;

/// Calls `AeadCore::generate_nonce` of `chacha20poly1305::XChaCha12Poly1305`
/// with the operating system's random source.
///
/// The nonce has the cipher's 24 bytes; nothing else is known of it. As in the
/// crate's own function, a random source that fails is fatal: the call does
/// not return.
#[verifier::external_body]
fn xchacha12poly1305_generate_nonce() -> (nonce: Vec<u8>)
    ensures
        nonce@.len() == 24,
{
    chacha20poly1305::XChaCha12Poly1305::generate_nonce(&mut OsRng).to_vec()
}

/// Builds `chacha20poly1305::XChaCha12Poly1305` from the key with
/// `KeyInit::new` and calls `Aead::encrypt` without associated data.
///
/// For a plaintext of at most 2^38 - 128 bytes the keystream suffices and the
/// call succeeds; longer plaintexts are kept from it, because on some of them
/// it does not return. The ciphertext is the encrypted plaintext followed by a
/// tag of 16 bytes. That `decrypt` gives the plaintext back for what `encrypt`
/// returned, under the same key and nonce, is what the crate documents of its
/// ciphers; it is assumed here, not proved.
#[verifier::external_body]
fn xchacha12poly1305_encrypt(key: &[u8], nonce: &[u8], plaintext: &[u8]) -> (r: Result<
    Vec<u8>,
    aead::Error,
>)
    requires
        key@.len() == 32,
        nonce@.len() == 24,
        plaintext@.len() <= 0x3f_ffff_ff80,
    ensures
        r is Ok,
        r matches Ok(out) ==> out@ == xchacha12poly1305_sealed(key@, nonce@, plaintext@)
            && out@.len() == plaintext@.len() + 16
            && xchacha12poly1305_opened(key@, nonce@, out@) == Some(plaintext@),
{
    let cipher = chacha20poly1305::XChaCha12Poly1305::new(GenericArray::from_slice(key));
    cipher.encrypt(GenericArray::from_slice(nonce), plaintext)
}

/// Builds `chacha20poly1305::XChaCha12Poly1305` from the key with
/// `KeyInit::new` and calls `Aead::decrypt` without associated data.
///
/// The call returns the plaintext where the ciphertext authenticates under the
/// key and the nonce, and an error where it does not. A ciphertext shorter
/// than the tag of 16 bytes is an error; the plaintext is the ciphertext
/// without its tag. Ciphertexts of more than 2^38 - 128 bytes and a tag are
/// kept from the call, because on some of them it does not return.
#[verifier::external_body]
fn xchacha12poly1305_decrypt(key: &[u8], nonce: &[u8], ciphertext: &[u8]) -> (r: Result<
    Vec<u8>,
    aead::Error,
>)
    requires
        key@.len() == 32,
        nonce@.len() == 24,
        ciphertext@.len() <= 0x3f_ffff_ff80 + 16,
    ensures
        match r {
            Ok(out) => xchacha12poly1305_opened(key@, nonce@, ciphertext@) == Some(out@),
            Err(_) => xchacha12poly1305_opened(key@, nonce@, ciphertext@) is None,
        },
        ciphertext@.len() < 16 ==> r is Err,
        r matches Ok(out) ==> out@.len() + 16 == ciphertext@.len(),
{
    let cipher = chacha20poly1305::XChaCha12Poly1305::new(GenericArray::from_slice(key));
    cipher.decrypt(GenericArray::from_slice(nonce), ciphertext)
}

/// XChaCha12-Poly1305, the 12-round variant, with a 192-bit extended nonce,
/// bound to the codec `S`.
#[derive(Debug, Default)]
pub struct XChaCha12Poly1305<S>(S);

impl<S> Cipher for XChaCha12Poly1305<S> {
    open spec fn key_size() -> nat {
        32
    }

    open spec fn nonce_size() -> nat {
        24
    }

    open spec fn tag_size() -> nat {
        16
    }

    open spec fn plaintext_limit() -> nat {
        0x3f_ffff_ff80
    }

    open spec fn sealed(key: Seq<u8>, nonce: Seq<u8>, plaintext: Seq<u8>) -> Seq<u8> {
        xchacha12poly1305_sealed(key, nonce, plaintext)
    }

    open spec fn opened(key: Seq<u8>, nonce: Seq<u8>, ciphertext: Seq<u8>) -> Option<Seq<u8>> {
        if key.len() == 32 && nonce.len() == 24 && ciphertext.len()
            <= 0x3f_ffff_ff80 + 16 {
            xchacha12poly1305_opened(key, nonce, ciphertext)
        } else {
            None
        }
    }

    fn key_len() -> (n: usize) {
        32
    }

    fn nonce_len() -> (n: usize) {
        24
    }

    fn generate_nonce() -> (nonce: Vec<u8>) {
        xchacha12poly1305_generate_nonce()
    }

    fn seal(key: &[u8], nonce: &[u8], plaintext: &[u8]) -> (r: Result<Vec<u8>, EncryptionError>) {
        if key.len() != 32 || nonce.len() != 24 {
            return Err(EncryptionError::Encryption);
        }
        if plaintext.len() as u64 > 0x3f_ffff_ff80 {
            return Err(EncryptionError::Encryption);
        }
        or_encryption_error(xchacha12poly1305_encrypt(key, nonce, plaintext))
    }

    fn open(key: &[u8], nonce: &[u8], ciphertext: &[u8]) -> (r: Result<Vec<u8>, EncryptionError>) {
        if key.len() != 32 || nonce.len() != 24 {
            return Err(EncryptionError::Encryption);
        }
        if ciphertext.len() as u64 > 0x3f_ffff_ff90 {
            return Err(EncryptionError::Encryption);
        }
        or_encryption_error(xchacha12poly1305_decrypt(key, nonce, ciphertext))
    }
}

impl<S: Encoder> Encryption for XChaCha12Poly1305<S> {
    type Scheme = S;
}

} // verus!

//! One marker type per supported cipher, each generic over the codec it is
//! bound to.

use vstd::prelude::*;
use crate::error::EncryptionError;

pub mod aes128gcm;
pub mod aes128gcmsiv;
pub mod aes256gcm;
pub mod aes256gcmsiv;
pub mod chacha12poly1305;
pub mod chacha20poly1305;
pub mod chacha8poly1305;
pub mod xchacha12poly1305;
pub mod xchacha20poly1305;
pub mod xchacha8poly1305;

verus! {

/// The error of the `aead` traits: a unit value, opaque on purpose so that a
/// failure tells an attacker nothing.
#[verifier::external_type_specification]
#[verifier::external_body]
pub struct ExAeadError(aead::Error);

/// Gives the bytes of a successful cipher call, or the library's error in
/// place of the cipher's.
pub(crate) fn or_encryption_error(r: Result<Vec<u8>, aead::Error>) -> (out: Result<
    Vec<u8>,
    EncryptionError,
>)
    ensures
        match r {
            Ok(bytes) => out matches Ok(same) && same == bytes,
            Err(_) => out matches Err(e) && e == EncryptionError::Encryption,
        },
{
    match r {
        Ok(bytes) => Ok(bytes),
        Err(_) => Err(EncryptionError::Encryption),
    }
}

} // verus!

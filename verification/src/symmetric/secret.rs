//! Secrecy-gated byte buffers.

use vstd::prelude::*;
use secrecy::ExposeSecret;

verus! {

/// Bytes behind `secrecy::Secret`: wiped from memory when dropped, and read
/// only through an explicit call of `expose_secret`.
///
/// The type has no `Debug`, no `Clone` and no serialization, so the bytes
/// cannot leave it by accident.
#[verifier::external_body]
pub struct SecretBytes {
    inner: secrecy::Secret<Vec<u8>>,
}

/// The bytes that a secret buffer holds.
pub uninterp spec fn secret_bytes(secret: SecretBytes) -> Seq<u8>;

/// Calls `Secret::new`, which takes ownership of the bytes and keeps them
/// unchanged.
#[verifier::external_body]
fn secret_new(bytes: Vec<u8>) -> (secret: SecretBytes)
    ensures
        secret_bytes(secret) == bytes@,
{
    SecretBytes { inner: secrecy::Secret::new(bytes) }
}

/// Calls `ExposeSecret::expose_secret`, which hands out a reference to the
/// bytes that the secret holds.
#[verifier::external_body]
fn secret_expose(secret: &SecretBytes) -> (bytes: &Vec<u8>)
    ensures
        bytes@ == secret_bytes(*secret),
{
    secret.inner.expose_secret()
}

impl View for SecretBytes {
    type V = Seq<u8>;

    open spec fn view(&self) -> Seq<u8> {
        secret_bytes(*self)
    }
}

impl SecretBytes {
    /// Takes ownership of `bytes` and gates them.
    pub fn new(bytes: Vec<u8>) -> (secret: Self)
        ensures
            secret@ == bytes@,
    {
        secret_new(bytes)
    }

    /// Hands out the bytes. This is the only way to them.
    pub fn expose_secret(&self) -> (bytes: &Vec<u8>)
        ensures
            bytes@ == self@,
    {
        secret_expose(self)
    }
}

} // verus!

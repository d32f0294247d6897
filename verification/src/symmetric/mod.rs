//! Symmetric authenticated encryption: the cipher capability and its bindings.

use vstd::prelude::*;

pub mod cipher;
pub mod ciphers;
pub mod encryption;
pub mod secret;

verus! {

/// The binding to reach for when nothing else is called for: AES-256-GCM with
/// the compact codec.
pub type DefaultScheme = ciphers::aes256gcm::Aes256Gcm<crate::serialization::bitcode::Bitcode>;

} // verus!

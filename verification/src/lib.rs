//! Authenticated encryption of serialized data into self-contained envelopes.
//!
//! An engine ([`symmetric::encryption::Encryption`]) binds one authenticated
//! cipher ([`symmetric::cipher::Cipher`]) to one codec
//! ([`serialization::encode::Encoder`]). It seals codec-encoded bytes under a
//! fresh nonce into an envelope ([`symmetric::encryption::Encrypted`]), opens
//! envelopes again, and writes envelopes to and reads them from the wire.
//! Decrypted bytes come back either plain or behind a gate that wipes them
//! when dropped.
//!
//! # What is proved and what is assumed
//!
//! The engine is verified against the contracts of the cipher and the codec:
//! when it succeeds, which error it returns, that an envelope it made opens to
//! the bytes it was made from, and that an envelope it wrote is read back
//! unchanged. For the binary codec the wire layout is stated and its round
//! trip is proved.
//!
//! The ciphers themselves, the compact codec and the secrecy gate are the work
//! of other crates. Each call into them stands in a small function of its own
//! whose contract is assumed, not proved; the documentation of each such
//! function says what it assumes. How hard a cipher is to break is no part of
//! any contract.
//!
//! Exhausted memory and a failing system random source end the computation, as
//! they do in the crates underneath. The contracts speak of calls that return.

pub mod error;
pub mod serialization;
pub mod symmetric;

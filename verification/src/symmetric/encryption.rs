//! Envelopes, decrypted buffers, and the engine that binds a cipher to a codec.

use vstd::prelude::*;
use std::marker::PhantomData;
use crate::error::EncryptionError;
use crate::serialization::decode::Decoder;
use crate::serialization::encode::Encoder;
use crate::symmetric::cipher::Cipher;
use crate::symmetric::secret::SecretBytes;

verus! {

/// The mathematical content of an envelope.
pub struct EncryptedView {
    /// The nonce the ciphertext was sealed under.
    pub nonce: Seq<u8>,
    /// The ciphertext, authentication tag included.
    pub data: Seq<u8>,
}

/// The encrypted form of a value of type `Data`: a nonce and a ciphertext.
///
/// `Data` is a compile-time tag only. It is never stored and never written to
/// the wire.
#[derive(Debug)]
pub struct Encrypted<Data> {
    nonce: Vec<u8>,
    data: Vec<u8>,
    phantom: PhantomData<Data>,
}

impl<Data> View for Encrypted<Data> {
    type V = EncryptedView;

    closed spec fn view(&self) -> EncryptedView {
        EncryptedView { nonce: self.nonce@, data: self.data@ }
    }
}

impl<Data> Encrypted<Data> {
    /// Puts a nonce and a ciphertext into an envelope.
    pub fn new(nonce: Vec<u8>, data: Vec<u8>) -> (envelope: Self)
        ensures
            envelope@ == (EncryptedView { nonce: nonce@, data: data@ }),
    {
        Encrypted { nonce, data, phantom: PhantomData }
    }

    /// The nonce.
    pub fn nonce(&self) -> (nonce: &[u8])
        ensures
            nonce@ == self@.nonce,
    {
        self.nonce.as_slice()
    }

    /// The ciphertext, authentication tag included.
    pub fn data(&self) -> (data: &[u8])
        ensures
            data@ == self@.data,
    {
        self.data.as_slice()
    }

    /// Takes the envelope apart into its nonce and its ciphertext.
    pub fn into_parts(self) -> (parts: (Vec<u8>, Vec<u8>))
        ensures
            parts.0@ == self@.nonce,
            parts.1@ == self@.data,
    {
        (self.nonce, self.data)
    }

    /// Writes the envelope as wire bytes with the codec `S`.
    ///
    /// Whatever it returns, `decode` with the same codec reads back as this
    /// envelope.
    pub fn encode<S: Encoder>(&self) -> (r: Result<Vec<u8>, EncryptionError>)
        ensures
            match S::encoded(self@.nonce, self@.data) {
                Some(bytes) => r matches Ok(out) && out@ == bytes
                    && S::decoded(bytes) == Some((self@.nonce, self@.data)),
                None => r matches Err(e) && e == EncryptionError::Serialization,
            },
    {
        S::encode(self.nonce.as_slice(), self.data.as_slice())
    }

    /// Reads an envelope from wire bytes with the codec `S`.
    pub fn decode<S: Decoder>(bytes: &[u8]) -> (r: Result<Self, EncryptionError>)
        ensures
            match S::decoded(bytes@) {
                Some(record) => r matches Ok(envelope)
                    && envelope@ == (EncryptedView { nonce: record.0, data: record.1 }),
                None => r matches Err(e) && e == EncryptionError::Serialization,
            },
    {
        match S::decode(bytes) {
            Ok(record) => Ok(Encrypted { nonce: record.0, data: record.1, phantom: PhantomData }),
            Err(e) => Err(e),
        }
    }
}

/// Decrypted bytes that the caller has decided are not sensitive: still
/// codec-encoded, held as plain bytes.
#[derive(Debug)]
pub struct DecryptedExposed<Data> {
    data: Vec<u8>,
    phantom: PhantomData<Data>,
}

impl<Data> View for DecryptedExposed<Data> {
    type V = Seq<u8>;

    closed spec fn view(&self) -> Seq<u8> {
        self.data@
    }
}

impl<Data> DecryptedExposed<Data> {
    /// The decrypted bytes.
    pub fn data(&self) -> (data: &[u8])
        ensures
            data@ == self@,
    {
        self.data.as_slice()
    }

    /// Gives up the wrapper for the decrypted bytes.
    pub fn into_bytes(self) -> (data: Vec<u8>)
        ensures
            data@ == self@,
    {
        self.data
    }
}

/// Decrypted bytes that are treated as sensitive: still codec-encoded, held
/// behind a gate that wipes them when dropped.
pub struct Decrypted<Data> {
    data: SecretBytes,
    phantom: PhantomData<Data>,
}

impl<Data> View for Decrypted<Data> {
    type V = Seq<u8>;

    closed spec fn view(&self) -> Seq<u8> {
        self.data@
    }
}

impl<Data> Decrypted<Data> {
    /// Hands out the decrypted bytes. This is the only way to them.
    pub fn expose_secret(&self) -> (data: &Vec<u8>)
        ensures
            data@ == self@,
    {
        self.data.expose_secret()
    }
}

/// What sealing `plaintext` under `key` and `nonce` with the cipher `C`
/// yields: an envelope, or the error for a key, nonce or plaintext of a
/// length that the cipher does not take.
pub open spec fn encrypted<C: Cipher>(key: Seq<u8>, nonce: Seq<u8>, plaintext: Seq<u8>) -> Result<
    EncryptedView,
    EncryptionError,
> {
    if key.len() == C::key_size() && nonce.len() == C::nonce_size() && plaintext.len()
        <= C::plaintext_limit() {
        Ok(EncryptedView { nonce, data: C::sealed(key, nonce, plaintext) })
    } else {
        Err(EncryptionError::Encryption)
    }
}

/// What opening `envelope` under `key` with the cipher `C` yields: the
/// plaintext, or the error for a key or nonce of the wrong length and for a
/// ciphertext that does not authenticate.
pub open spec fn decrypted<C: Cipher>(key: Seq<u8>, envelope: EncryptedView) -> Result<
    Seq<u8>,
    EncryptionError,
> {
    if key.len() == C::key_size() && envelope.nonce.len() == C::nonce_size() {
        match C::opened(key, envelope.nonce, envelope.data) {
            Some(plaintext) => Ok(plaintext),
            None => Err(EncryptionError::Encryption),
        }
    } else {
        Err(EncryptionError::Encryption)
    }
}

/// The engine: one cipher bound to one codec.
///
/// Every operation is a single stateless transformation. The key is handed in
/// on each call and never kept.
pub trait Encryption: Cipher + Sized {
    /// The codec that writes envelopes to the wire.
    type Scheme: Encoder;

    /// Writes an envelope as wire bytes with the bound codec.
    ///
    /// Whatever it returns, `decode` reads back as the same envelope.
    fn encode<Data>(data: &Encrypted<Data>) -> (r: Result<Vec<u8>, EncryptionError>)
        ensures
            match Self::Scheme::encoded(data@.nonce, data@.data) {
                Some(bytes) => r matches Ok(out) && out@ == bytes
                    && Self::Scheme::decoded(bytes) == Some((data@.nonce, data@.data)),
                None => r matches Err(e) && e == EncryptionError::Serialization,
            },
    {
        data.encode::<Self::Scheme>()
    }

    /// Reads an envelope from wire bytes with the bound codec.
    fn decode<Data>(data: &[u8]) -> (r: Result<Encrypted<Data>, EncryptionError>)
        ensures
            match Self::Scheme::decoded(data@) {
                Some(record) => r matches Ok(envelope)
                    && envelope@ == (EncryptedView { nonce: record.0, data: record.1 }),
                None => r matches Err(e) && e == EncryptionError::Serialization,
            },
    {
        Encrypted::<Data>::decode::<Self::Scheme>(data)
    }

    /// Seals codec-encoded bytes under `key` and the given nonce.
    ///
    /// A nonce must never be used twice with one key: `encrypt` draws a fresh
    /// one on every call and is the function to use. This one is for callers
    /// that manage nonces themselves.
    fn encrypt_with_nonce<Data>(serialized: &[u8], key: &[u8], nonce: Vec<u8>) -> (r: Result<
        Encrypted<Data>,
        EncryptionError,
    >)
        ensures
            match encrypted::<Self>(key@, nonce@, serialized@) {
                Ok(envelope) => r matches Ok(out) && out@ == envelope
                    && envelope.data.len() == serialized@.len() + Self::tag_size()
                    && decrypted::<Self>(key@, envelope) == Ok::<Seq<u8>, EncryptionError>(
                    serialized@,
                ),
                Err(e) => r matches Err(err) && err == e,
            },
    {
        match Self::seal(key, nonce.as_slice(), serialized) {
            Ok(data) => Ok(Encrypted::new(nonce, data)),
            Err(e) => Err(e),
        }
    }

    /// Seals codec-encoded bytes under `key` and a freshly drawn nonce.
    ///
    /// Succeeds exactly when the key has the cipher's key size and the bytes
    /// are within the cipher's limit. The ciphertext is a tag longer than the
    /// bytes, and the envelope opens, under the same key, to the bytes it was
    /// made from.
    fn encrypt<Data>(serialized: &[u8], key: &[u8]) -> (r: Result<Encrypted<Data>, EncryptionError>)
        ensures
            r is Ok <==> key@.len() == Self::key_size() && serialized@.len()
                <= Self::plaintext_limit(),
            r matches Ok(out) ==> out@.nonce.len() == Self::nonce_size()
                && out@.data == Self::sealed(key@, out@.nonce, serialized@)
                && out@.data.len() == serialized@.len() + Self::tag_size()
                && decrypted::<Self>(key@, out@) == Ok::<Seq<u8>, EncryptionError>(serialized@),
            r matches Err(e) ==> e == EncryptionError::Encryption,
    {
        let nonce = Self::generate_nonce();
        Self::encrypt_with_nonce(serialized, key, nonce)
    }

    /// Opens an envelope under `key` and gates the decrypted bytes.
    ///
    /// Fails, always with `EncryptionError::Encryption`, on a key or nonce of
    /// the wrong length and on a ciphertext that does not authenticate; one
    /// shorter than a tag never does. The decrypted bytes are a tag shorter
    /// than the ciphertext.
    fn decrypt<Data>(encrypted: &Encrypted<Data>, key: &[u8]) -> (r: Result<
        Decrypted<Data>,
        EncryptionError,
    >)
        ensures
            match decrypted::<Self>(key@, encrypted@) {
                Ok(plaintext) => r matches Ok(out) && out@ == plaintext,
                Err(e) => r matches Err(err) && err == e,
            },
            r matches Ok(out) ==> out@.len() + Self::tag_size() == encrypted@.data.len(),
    {
        match Self::open(key, encrypted.nonce(), encrypted.data()) {
            Ok(data) => Ok(Decrypted { data: SecretBytes::new(data), phantom: PhantomData }),
            Err(e) => Err(e),
        }
    }

    /// Opens an envelope under `key`, without gating the decrypted bytes.
    ///
    /// Fails as `decrypt` does.
    fn decrypt_exposed<Data>(encrypted: &Encrypted<Data>, key: &[u8]) -> (r: Result<
        DecryptedExposed<Data>,
        EncryptionError,
    >)
        ensures
            match decrypted::<Self>(key@, encrypted@) {
                Ok(plaintext) => r matches Ok(out) && out@ == plaintext,
                Err(e) => r matches Err(err) && err == e,
            },
            r matches Ok(out) ==> out@.len() + Self::tag_size() == encrypted@.data.len(),
    {
        match Self::open(key, encrypted.nonce(), encrypted.data()) {
            Ok(data) => Ok(DecryptedExposed { data, phantom: PhantomData }),
            Err(e) => Err(e),
        }
    }

    /// Consumes an envelope and hands back the gated decrypted bytes, with no
    /// tagged value in between, ready to be decoded.
    ///
    /// Fails as `decrypt` does.
    fn into_data<Data>(encrypted: Encrypted<Data>, key: &[u8]) -> (r: Result<
        SecretBytes,
        EncryptionError,
    >)
        ensures
            match decrypted::<Self>(key@, encrypted@) {
                Ok(plaintext) => r matches Ok(out) && out@ == plaintext,
                Err(e) => r matches Err(err) && err == e,
            },
            r matches Ok(out) ==> out@.len() + Self::tag_size() == encrypted@.data.len(),
    {
        match Self::open(key, encrypted.nonce(), encrypted.data()) {
            Ok(data) => Ok(SecretBytes::new(data)),
            Err(e) => Err(e),
        }
    }

    /// Consumes an envelope and hands back the decrypted bytes as an owned
    /// buffer, with no tagged value in between, ready to be decoded.
    ///
    /// Fails as `decrypt` does.
    fn into_data_exposed<Data>(encrypted: Encrypted<Data>, key: &[u8]) -> (r: Result<
        Vec<u8>,
        EncryptionError,
    >)
        ensures
            match decrypted::<Self>(key@, encrypted@) {
                Ok(plaintext) => r matches Ok(out) && out@ == plaintext,
                Err(e) => r matches Err(err) && err == e,
            },
            r matches Ok(out) ==> out@.len() + Self::tag_size() == encrypted@.data.len(),
    {
        Self::open(key, encrypted.nonce(), encrypted.data())
    }
}

} // verus!

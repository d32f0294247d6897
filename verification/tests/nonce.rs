//! Every call of `encrypt` draws its own nonce.

use std::collections::HashSet;

use sealed_envelope::serialization::bitcode::Bitcode;
use sealed_envelope::symmetric::cipher::Cipher;
use sealed_envelope::symmetric::ciphers::aes256gcm::Aes256Gcm;
use sealed_envelope::symmetric::ciphers::xchacha20poly1305::XChaCha20Poly1305;
use sealed_envelope::symmetric::encryption::{Encrypted, Encryption};

#[test]
fn ten_thousand_envelopes_have_ten_thousand_nonces() {
    let key = vec![0x11u8; 32];
    let mut seen: HashSet<Vec<u8>> = HashSet::new();
    for _ in 0..10_000 {
        let envelope: Encrypted<()> = Aes256Gcm::<Bitcode>::encrypt(b"same value", &key).unwrap();
        assert_eq!(envelope.nonce().len(), 12);
        assert!(seen.insert(envelope.nonce().to_vec()));
    }
    assert_eq!(seen.len(), 10_000);
}

#[test]
fn equal_inputs_give_different_envelopes() {
    let key = vec![0x22u8; 32];
    let a: Encrypted<()> = XChaCha20Poly1305::<Bitcode>::encrypt(b"same value", &key).unwrap();
    let b: Encrypted<()> = XChaCha20Poly1305::<Bitcode>::encrypt(b"same value", &key).unwrap();
    assert_ne!(a.nonce(), b.nonce());
    assert_ne!(a.data(), b.data());
}

#[test]
fn generated_nonces_have_the_size_of_the_cipher() {
    let short = Aes256Gcm::<Bitcode>::generate_nonce();
    assert_eq!(short.len(), 12);
    assert_eq!(short.len(), Aes256Gcm::<Bitcode>::nonce_len());
    let long = XChaCha20Poly1305::<Bitcode>::generate_nonce();
    assert_eq!(long.len(), 24);
    assert_eq!(long.len(), XChaCha20Poly1305::<Bitcode>::nonce_len());
    assert_ne!(Aes256Gcm::<Bitcode>::generate_nonce(), short);
}

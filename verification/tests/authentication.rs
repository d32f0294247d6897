//! Tampered data, wrong keys and wrong sizes are errors, never crashes and
//! never silently wrong plaintext.

use sealed_envelope::error::EncryptionError;
use sealed_envelope::serialization::bincode::Bincode;
use sealed_envelope::serialization::bitcode::Bitcode;
use sealed_envelope::symmetric::ciphers::aes128gcm::Aes128Gcm;
use sealed_envelope::symmetric::ciphers::aes128gcmsiv::Aes128GcmSiv;
use sealed_envelope::symmetric::ciphers::aes256gcm::Aes256Gcm;
use sealed_envelope::symmetric::ciphers::aes256gcmsiv::Aes256GcmSiv;
use sealed_envelope::symmetric::ciphers::chacha12poly1305::ChaCha12Poly1305;
use sealed_envelope::symmetric::ciphers::chacha20poly1305::ChaCha20Poly1305;
use sealed_envelope::symmetric::ciphers::chacha8poly1305::ChaCha8Poly1305;
use sealed_envelope::symmetric::ciphers::xchacha12poly1305::XChaCha12Poly1305;
use sealed_envelope::symmetric::ciphers::xchacha20poly1305::XChaCha20Poly1305;
use sealed_envelope::symmetric::ciphers::xchacha8poly1305::XChaCha8Poly1305;
use sealed_envelope::symmetric::encryption::{Encrypted, Encryption};

fn key_of(len: usize) -> Vec<u8> {
    (0..len).map(|i| (i as u8).wrapping_mul(11).wrapping_add(1)).collect()
}

fn is_encryption_error<T>(r: Result<T, EncryptionError>) -> bool {
    matches!(r, Err(EncryptionError::Encryption))
}

/// Changing any one byte of the ciphertext, tag included, makes every way of
/// opening the envelope fail.
fn check_tampering<E: Encryption>() {
    let key = key_of(E::key_len());
    let plaintext = b"a message that must not be altered";
    let envelope: Encrypted<()> = E::encrypt(plaintext, &key).unwrap();
    for position in 0..envelope.data().len() {
        for mask in [0x01u8, 0x80u8, 0xffu8] {
            let mut data = envelope.data().to_vec();
            data[position] ^= mask;
            let tampered: Encrypted<()> = Encrypted::new(envelope.nonce().to_vec(), data);
            assert!(is_encryption_error(E::decrypt(&tampered, &key)));
            assert!(is_encryption_error(E::decrypt_exposed(&tampered, &key)));
            assert!(is_encryption_error(E::into_data_exposed(tampered, &key)));
        }
    }
    // The untouched envelope still opens.
    assert_eq!(E::into_data_exposed(envelope, &key), Ok(plaintext.to_vec()));
}

/// Changing any one bit of the key makes opening fail.
fn check_key_isolation<E: Encryption>() {
    let key = key_of(E::key_len());
    let envelope: Encrypted<()> = E::encrypt(b"for one key only", &key).unwrap();
    for position in 0..key.len() {
        for bit in 0..8 {
            let mut other = key.clone();
            other[position] ^= 1u8 << bit;
            assert!(is_encryption_error(E::decrypt_exposed(&envelope, &other)));
        }
    }
    let unrelated: Vec<u8> = vec![0x42; key.len()];
    assert!(is_encryption_error(E::decrypt(&envelope, &unrelated)));
}

/// Keys and nonces of the wrong length are refused in both directions.
fn check_sizes<E: Encryption>() {
    let key = key_of(E::key_len());
    let envelope: Encrypted<()> = E::encrypt(b"sized", &key).unwrap();

    for wrong in [0, 1, E::key_len() - 1, E::key_len() + 1, 64] {
        let bad_key = key_of(wrong);
        assert!(is_encryption_error(E::encrypt::<()>(b"sized", &bad_key)));
        assert!(is_encryption_error(E::decrypt(&envelope, &bad_key)));
        assert!(is_encryption_error(E::decrypt_exposed(&envelope, &bad_key)));
    }

    for wrong in [0, 1, E::nonce_len() - 1, E::nonce_len() + 1, 64] {
        let nonce = vec![9u8; wrong];
        assert!(is_encryption_error(E::encrypt_with_nonce::<()>(b"sized", &key, nonce)));
        let cut: Vec<u8> = envelope.nonce().iter().copied().cycle().take(wrong).collect();
        let truncated: Encrypted<()> = Encrypted::new(cut, envelope.data().to_vec());
        assert!(is_encryption_error(E::decrypt(&truncated, &key)));
        assert!(is_encryption_error(E::decrypt_exposed(&truncated, &key)));
        assert!(is_encryption_error(E::into_data_exposed(truncated, &key)));
    }

    // A nonce of the right length but another value does not open either.
    let mut other_nonce = envelope.nonce().to_vec();
    other_nonce[0] ^= 1;
    let moved: Encrypted<()> = Encrypted::new(other_nonce, envelope.data().to_vec());
    assert!(is_encryption_error(E::decrypt_exposed(&moved, &key)));

    // A ciphertext shorter than the tag cannot authenticate.
    for len in 0..16 {
        let short: Encrypted<()> = Encrypted::new(envelope.nonce().to_vec(), vec![0u8; len]);
        assert!(is_encryption_error(E::decrypt_exposed(&short, &key)));
    }
}

#[test]
fn tampering_is_detected_by_every_cipher() {
    check_tampering::<Aes128Gcm<Bitcode>>();
    check_tampering::<Aes256Gcm<Bitcode>>();
    check_tampering::<Aes128GcmSiv<Bitcode>>();
    check_tampering::<Aes256GcmSiv<Bitcode>>();
    check_tampering::<ChaCha8Poly1305<Bitcode>>();
    check_tampering::<ChaCha12Poly1305<Bitcode>>();
    check_tampering::<ChaCha20Poly1305<Bitcode>>();
    check_tampering::<XChaCha8Poly1305<Bitcode>>();
    check_tampering::<XChaCha12Poly1305<Bitcode>>();
    check_tampering::<XChaCha20Poly1305<Bitcode>>();
}

#[test]
fn a_wrong_key_is_refused_by_every_cipher() {
    check_key_isolation::<Aes128Gcm<Bincode>>();
    check_key_isolation::<Aes256Gcm<Bincode>>();
    check_key_isolation::<Aes128GcmSiv<Bincode>>();
    check_key_isolation::<Aes256GcmSiv<Bincode>>();
    check_key_isolation::<ChaCha8Poly1305<Bincode>>();
    check_key_isolation::<ChaCha12Poly1305<Bincode>>();
    check_key_isolation::<ChaCha20Poly1305<Bincode>>();
    check_key_isolation::<XChaCha8Poly1305<Bincode>>();
    check_key_isolation::<XChaCha12Poly1305<Bincode>>();
    check_key_isolation::<XChaCha20Poly1305<Bincode>>();
}

#[test]
fn wrong_sizes_are_errors_for_every_cipher() {
    check_sizes::<Aes128Gcm<Bitcode>>();
    check_sizes::<Aes256Gcm<Bitcode>>();
    check_sizes::<Aes128GcmSiv<Bitcode>>();
    check_sizes::<Aes256GcmSiv<Bitcode>>();
    check_sizes::<ChaCha8Poly1305<Bitcode>>();
    check_sizes::<ChaCha12Poly1305<Bitcode>>();
    check_sizes::<ChaCha20Poly1305<Bitcode>>();
    check_sizes::<XChaCha8Poly1305<Bitcode>>();
    check_sizes::<XChaCha12Poly1305<Bitcode>>();
    check_sizes::<XChaCha20Poly1305<Bitcode>>();
}

#[test]
fn a_failed_decryption_is_an_encryption_error_and_no_other() {
    let key = key_of(32);
    let envelope: Encrypted<String> = Aes256Gcm::<Bitcode>::encrypt(b"\x00\x01", &key).unwrap();
    let mut data = envelope.data().to_vec();
    data[0] ^= 0x55;
    let tampered: Encrypted<String> = Encrypted::new(envelope.nonce().to_vec(), data);
    let error = Aes256Gcm::<Bitcode>::decrypt_exposed(&tampered, &key).err();
    assert_eq!(error, Some(EncryptionError::Encryption));
    assert_ne!(error, Some(EncryptionError::Serialization));
}

/// The cipher's own operations take any lengths and refuse the wrong ones.
fn check_capability<E: Encryption>() {
    let key = key_of(E::key_len());
    let nonce = vec![5u8; E::nonce_len()];
    let sealed = E::seal(&key, &nonce, b"capability").unwrap();
    assert_eq!(sealed.len(), 10 + 16);
    assert_eq!(E::open(&key, &nonce, &sealed), Ok(b"capability".to_vec()));
    assert_eq!(E::seal(&key, &nonce, b"").unwrap().len(), 16);

    for wrong in [0, E::key_len() - 1, E::key_len() + 1] {
        let bad_key = key_of(wrong);
        assert_eq!(E::seal(&bad_key, &nonce, b"capability"), Err(EncryptionError::Encryption));
        assert_eq!(E::open(&bad_key, &nonce, &sealed), Err(EncryptionError::Encryption));
    }
    for wrong in [0, E::nonce_len() - 1, E::nonce_len() + 1] {
        let bad_nonce = vec![5u8; wrong];
        assert_eq!(E::seal(&key, &bad_nonce, b"capability"), Err(EncryptionError::Encryption));
        assert_eq!(E::open(&key, &bad_nonce, &sealed), Err(EncryptionError::Encryption));
    }
    for len in 0..16 {
        assert_eq!(E::open(&key, &nonce, &sealed[..len]), Err(EncryptionError::Encryption));
    }
}

#[test]
fn seal_and_open_refuse_wrong_lengths_for_every_cipher() {
    check_capability::<Aes128Gcm<Bitcode>>();
    check_capability::<Aes256Gcm<Bitcode>>();
    check_capability::<Aes128GcmSiv<Bitcode>>();
    check_capability::<Aes256GcmSiv<Bitcode>>();
    check_capability::<ChaCha8Poly1305<Bitcode>>();
    check_capability::<ChaCha12Poly1305<Bitcode>>();
    check_capability::<ChaCha20Poly1305<Bitcode>>();
    check_capability::<XChaCha8Poly1305<Bitcode>>();
    check_capability::<XChaCha12Poly1305<Bitcode>>();
    check_capability::<XChaCha20Poly1305<Bitcode>>();
}

#[test]
fn the_sealed_greeting_has_its_length_and_a_tag() {
    let key = key_of(32);
    let serialized = bincode::serialize("hello world").unwrap();
    assert_eq!(serialized.len(), 19);
    let envelope: Encrypted<String> = Aes256Gcm::<Bincode>::encrypt(&serialized, &key).unwrap();
    assert_eq!(envelope.data().len(), 35);
    assert_eq!(Aes256Gcm::<Bincode>::encode(&envelope).unwrap().len(), 63);
    let decrypted = Aes256Gcm::<Bincode>::decrypt_exposed(&envelope, &key).unwrap();
    assert_eq!(decrypted.data().len(), 19);
    let empty: Encrypted<String> = Encrypted::new(envelope.nonce().to_vec(), Vec::new());
    assert_eq!(
        Aes256Gcm::<Bincode>::decrypt_exposed(&empty, &key).err(),
        Some(EncryptionError::Encryption)
    );
}

//! Encrypting and then decrypting gives the plaintext back.

use sealed_envelope::error::EncryptionError;
use sealed_envelope::serialization::bincode::Bincode;
use sealed_envelope::serialization::bitcode::Bitcode;
use sealed_envelope::symmetric::cipher::Cipher;
use sealed_envelope::symmetric::ciphers::aes128gcm::Aes128Gcm;
use sealed_envelope::symmetric::ciphers::aes128gcmsiv::Aes128GcmSiv;
use sealed_envelope::symmetric::ciphers::aes256gcm::Aes256Gcm;
use sealed_envelope::symmetric::ciphers::aes256gcmsiv::Aes256GcmSiv;
use sealed_envelope::symmetric::ciphers::chacha12poly1305::ChaCha12Poly1305;
use sealed_envelope::symmetric::ciphers::chacha20poly1305::ChaCha20Poly1305;
use sealed_envelope::symmetric::ciphers::chacha8poly1305::ChaCha8Poly1305;
use sealed_envelope::symmetric::ciphers::xchacha12poly1305::XChaCha12Poly1305;
use sealed_envelope::symmetric::ciphers::xchacha20poly1305::XChaCha20Poly1305;
use sealed_envelope::symmetric::ciphers::xchacha8poly1305::XChaCha8Poly1305;
use sealed_envelope::symmetric::encryption::{Encrypted, Encryption};
use sealed_envelope::symmetric::DefaultScheme;

fn key_of(len: usize) -> Vec<u8> {
    (0..len).map(|i| (i as u8).wrapping_mul(7).wrapping_add(3)).collect()
}

fn samples() -> Vec<Vec<u8>> {
    vec![
        Vec::new(),
        vec![0u8],
        b"hello world".to_vec(),
        (0..=255u8).collect(),
        vec![0xa5u8; 4096],
    ]
}

/// Every sample survives every path from an envelope back to bytes.
fn check_round_trip<E: Encryption>(key_len: usize, nonce_len: usize) {
    assert_eq!(E::key_len(), key_len);
    assert_eq!(E::nonce_len(), nonce_len);
    let key = key_of(key_len);
    for plaintext in samples() {
        let envelope: Encrypted<Vec<u8>> = E::encrypt(&plaintext, &key).unwrap();
        assert_eq!(envelope.nonce().len(), nonce_len);
        assert_eq!(envelope.data().len(), plaintext.len() + 16);
        assert_ne!(envelope.data(), &plaintext[..]);

        let exposed = E::decrypt_exposed(&envelope, &key).unwrap();
        assert_eq!(exposed.data(), &plaintext[..]);
        assert_eq!(exposed.into_bytes(), plaintext);

        let gated = match E::decrypt(&envelope, &key) {
            Ok(gated) => gated,
            Err(e) => panic!("decrypt failed: {:?}", e),
        };
        assert_eq!(gated.expose_secret(), &plaintext);

        let copy: Encrypted<Vec<u8>> =
            Encrypted::new(envelope.nonce().to_vec(), envelope.data().to_vec());
        let secret = match E::into_data(copy, &key) {
            Ok(secret) => secret,
            Err(e) => panic!("into_data failed: {:?}", e),
        };
        assert_eq!(secret.expose_secret(), &plaintext);

        assert_eq!(E::into_data_exposed(envelope, &key), Ok(plaintext));
    }
}

#[test]
fn round_trip_aes128gcm() {
    check_round_trip::<Aes128Gcm<Bitcode>>(16, 12);
}

#[test]
fn round_trip_aes256gcm() {
    check_round_trip::<Aes256Gcm<Bitcode>>(32, 12);
}

#[test]
fn round_trip_aes128gcmsiv() {
    check_round_trip::<Aes128GcmSiv<Bitcode>>(16, 12);
}

#[test]
fn round_trip_aes256gcmsiv() {
    check_round_trip::<Aes256GcmSiv<Bincode>>(32, 12);
}

#[test]
fn round_trip_chacha8poly1305() {
    check_round_trip::<ChaCha8Poly1305<Bitcode>>(32, 12);
}

#[test]
fn round_trip_chacha12poly1305() {
    check_round_trip::<ChaCha12Poly1305<Bincode>>(32, 12);
}

#[test]
fn round_trip_chacha20poly1305() {
    check_round_trip::<ChaCha20Poly1305<Bitcode>>(32, 12);
}

#[test]
fn round_trip_xchacha8poly1305() {
    check_round_trip::<XChaCha8Poly1305<Bincode>>(32, 24);
}

#[test]
fn round_trip_xchacha12poly1305() {
    check_round_trip::<XChaCha12Poly1305<Bitcode>>(32, 24);
}

#[test]
fn round_trip_xchacha20poly1305() {
    check_round_trip::<XChaCha20Poly1305<Bincode>>(32, 24);
}

#[test]
fn round_trip_of_a_typed_value_through_the_compact_codec() {
    let key = key_of(32);
    let value = String::from("hello world");
    let serialized = bitcode::serialize(&value).unwrap();
    let envelope: Encrypted<String> = DefaultScheme::encrypt(&serialized, &key).unwrap();
    let decrypted = DefaultScheme::decrypt_exposed(&envelope, &key).unwrap();
    let back: String = bitcode::deserialize(decrypted.data()).unwrap();
    assert_eq!(back, "hello world");
}

#[test]
fn round_trip_of_a_typed_value_through_the_binary_codec() {
    let key = key_of(32);
    let value: (u32, String, Vec<u16>) = (7, String::from("hello world"), vec![1, 2, 3]);
    let serialized = bincode::serialize(&value).unwrap();
    let envelope: Encrypted<(u32, String, Vec<u16>)> =
        XChaCha20Poly1305::<Bincode>::encrypt(&serialized, &key).unwrap();
    let bytes = XChaCha20Poly1305::<Bincode>::into_data_exposed(envelope, &key).unwrap();
    let back: (u32, String, Vec<u16>) = bincode::deserialize(&bytes).unwrap();
    assert_eq!(back, value);
}

#[test]
fn hello_world_under_a_256_bit_key() {
    let key = key_of(32);
    let serialized = bitcode::serialize("hello world").unwrap();
    let envelope: Encrypted<String> = Aes256Gcm::<Bitcode>::encrypt(&serialized, &key).unwrap();

    // The same key gives the string back.
    let decrypted = Aes256Gcm::<Bitcode>::decrypt_exposed(&envelope, &key).unwrap();
    let back: String = bitcode::deserialize(decrypted.data()).unwrap();
    assert_eq!(back, "hello world");

    // A key that differs in one bit is refused.
    let mut other = key.clone();
    other[17] ^= 0x04;
    assert_eq!(
        Aes256Gcm::<Bitcode>::decrypt_exposed(&envelope, &other).err(),
        Some(EncryptionError::Encryption)
    );

    // A ciphertext cut short by one byte fails to authenticate; the codec is
    // never reached.
    let data = envelope.data();
    let truncated: Encrypted<String> =
        Encrypted::new(envelope.nonce().to_vec(), data[..data.len() - 1].to_vec());
    assert_eq!(
        Aes256Gcm::<Bitcode>::decrypt_exposed(&truncated, &key).err(),
        Some(EncryptionError::Encryption)
    );
    assert_eq!(
        Aes256Gcm::<Bitcode>::into_data_exposed(truncated, &key),
        Err(EncryptionError::Encryption)
    );
}

#[test]
fn encrypt_with_nonce_is_deterministic_and_keeps_the_nonce() {
    let key = key_of(32);
    let nonce: Vec<u8> = (100..112).collect();
    let a: Encrypted<()> =
        ChaCha20Poly1305::<Bitcode>::encrypt_with_nonce(b"payload", &key, nonce.clone()).unwrap();
    let b: Encrypted<()> =
        ChaCha20Poly1305::<Bitcode>::encrypt_with_nonce(b"payload", &key, nonce.clone()).unwrap();
    assert_eq!(a.nonce(), &nonce[..]);
    assert_eq!(a.data(), b.data());
    let (nonce_out, data_out) = a.into_parts();
    assert_eq!(nonce_out, nonce);
    assert_eq!(data_out, b.data());
    assert_eq!(
        ChaCha20Poly1305::<Bitcode>::into_data_exposed(b, &key),
        Ok(b"payload".to_vec())
    );
}

#[test]
fn ciphers_with_equal_sizes_still_differ() {
    let key = key_of(32);
    let nonce: Vec<u8> = (1..13).collect();
    let plaintext = b"the same plaintext for every cipher";
    let outputs: Vec<Vec<u8>> = vec![
        Aes256Gcm::<Bitcode>::seal(&key, &nonce, plaintext).unwrap(),
        Aes256GcmSiv::<Bitcode>::seal(&key, &nonce, plaintext).unwrap(),
        ChaCha8Poly1305::<Bitcode>::seal(&key, &nonce, plaintext).unwrap(),
        ChaCha12Poly1305::<Bitcode>::seal(&key, &nonce, plaintext).unwrap(),
        ChaCha20Poly1305::<Bitcode>::seal(&key, &nonce, plaintext).unwrap(),
    ];
    for i in 0..outputs.len() {
        for j in 0..outputs.len() {
            if i != j {
                assert_ne!(outputs[i], outputs[j]);
            }
        }
    }
    let xnonce: Vec<u8> = (1..25).collect();
    let extended: Vec<Vec<u8>> = vec![
        XChaCha8Poly1305::<Bitcode>::seal(&key, &xnonce, plaintext).unwrap(),
        XChaCha12Poly1305::<Bitcode>::seal(&key, &xnonce, plaintext).unwrap(),
        XChaCha20Poly1305::<Bitcode>::seal(&key, &xnonce, plaintext).unwrap(),
    ];
    assert_ne!(extended[0], extended[1]);
    assert_ne!(extended[0], extended[2]);
    assert_ne!(extended[1], extended[2]);
    let short_key = key_of(16);
    assert_ne!(
        Aes128Gcm::<Bitcode>::seal(&short_key, &nonce, plaintext).unwrap(),
        Aes128GcmSiv::<Bitcode>::seal(&short_key, &nonce, plaintext).unwrap()
    );
}

#[test]
fn an_envelope_of_one_cipher_does_not_open_under_another() {
    let key = key_of(32);
    let envelope: Encrypted<()> = Aes256Gcm::<Bitcode>::encrypt(b"payload", &key).unwrap();
    assert_eq!(
        ChaCha20Poly1305::<Bitcode>::decrypt_exposed(&envelope, &key).err(),
        Some(EncryptionError::Encryption)
    );
    assert_eq!(
        Aes256GcmSiv::<Bitcode>::decrypt_exposed(&envelope, &key).err(),
        Some(EncryptionError::Encryption)
    );
    // The extended-nonce ciphers refuse the 12-byte nonce outright.
    assert_eq!(
        XChaCha20Poly1305::<Bitcode>::decrypt_exposed(&envelope, &key).err(),
        Some(EncryptionError::Encryption)
    );
}

#[test]
fn the_default_scheme_is_aes256gcm_with_the_compact_codec() {
    assert_eq!(DefaultScheme::key_len(), 32);
    assert_eq!(DefaultScheme::nonce_len(), 12);
    let key = key_of(32);
    let nonce: Vec<u8> = (0..12).collect();
    let by_default: Encrypted<()> =
        DefaultScheme::encrypt_with_nonce(b"default", &key, nonce.clone()).unwrap();
    let by_name: Encrypted<()> =
        Aes256Gcm::<Bitcode>::encrypt_with_nonce(b"default", &key, nonce).unwrap();
    assert_eq!(by_default.data(), by_name.data());
    assert_eq!(
        DefaultScheme::encode(&by_default),
        Ok(bitcode::serialize(&(by_name.nonce(), by_name.data())).unwrap())
    );
    let _marker = DefaultScheme::default();
}

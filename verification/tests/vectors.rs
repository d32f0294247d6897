//! Published known-answer vectors, sealed under a given nonce.

use sealed_envelope::serialization::bitcode::Bitcode;
use sealed_envelope::symmetric::cipher::Cipher;
use sealed_envelope::symmetric::ciphers::aes128gcm::Aes128Gcm;
use sealed_envelope::symmetric::ciphers::aes128gcmsiv::Aes128GcmSiv;
use sealed_envelope::symmetric::ciphers::aes256gcm::Aes256Gcm;
use sealed_envelope::symmetric::ciphers::aes256gcmsiv::Aes256GcmSiv;
use sealed_envelope::symmetric::encryption::{Encrypted, Encryption};

fn hex(text: &str) -> Vec<u8> {
    let digits: Vec<u8> = text
        .chars()
        .map(|c| c.to_digit(16).expect("a hexadecimal digit") as u8)
        .collect();
    digits.chunks(2).map(|pair| pair[0] * 16 + pair[1]).collect()
}

/// Sealing gives the published ciphertext and tag, and opening gives the
/// plaintext back.
fn check_vector<E: Encryption>(key: &str, nonce: &str, plaintext: &str, sealed: &str) {
    let (key, nonce, plaintext, sealed) = (hex(key), hex(nonce), hex(plaintext), hex(sealed));
    let envelope: Encrypted<()> = E::encrypt_with_nonce(&plaintext, &key, nonce.clone()).unwrap();
    assert_eq!(envelope.nonce(), &nonce[..]);
    assert_eq!(envelope.data(), &sealed[..]);
    assert_eq!(E::seal(&key, &nonce, &plaintext), Ok(sealed.clone()));
    assert_eq!(E::open(&key, &nonce, &sealed), Ok(plaintext.clone()));
    let published: Encrypted<()> = Encrypted::new(nonce, sealed);
    assert_eq!(E::into_data_exposed(published, &key), Ok(plaintext));
}

#[test]
fn aes128gcm_known_answers() {
    check_vector::<Aes128Gcm<Bitcode>>(
        "11754cd72aec309bf52f7687212e8957",
        "3c819d9a9bed087615030b65",
        "",
        "250327c674aaf477aef2675748cf6971",
    );
    check_vector::<Aes128Gcm<Bitcode>>(
        "7fddb57453c241d03efbed3ac44e371c",
        "ee283a3fc75575e33efd4887",
        "d5de42b461646c255c87bd2962d3b9a2",
        "2ccda4a5415cb91e135c2a0f78c9b2fdb36d1df9b9d5e596f83e8b7f52971cb3",
    );
}

#[test]
fn aes256gcm_known_answers() {
    check_vector::<Aes256Gcm<Bitcode>>(
        "b52c505a37d78eda5dd34f20c22540ea1b58963cf8e5bf8ffa85f9f2492505b4",
        "516c33929df5a3284ff463d7",
        "",
        "bdc1ac884d332457a1d2664f168c76f0",
    );
    check_vector::<Aes256Gcm<Bitcode>>(
        "31bdadd96698c204aa9ce1448ea94ae1fb4a9a0b3c9d773b51bb1822666b8f22",
        "0d18e06c7c725ac9e362e1ce",
        "2db5168e932556f8089a0622981d017d",
        "fa4362189661d163fcd6a56d8bf0405ad636ac1bbedd5cc3ee727dc2ab4a9489",
    );
}

#[test]
fn aes128gcmsiv_known_answers() {
    check_vector::<Aes128GcmSiv<Bitcode>>(
        "01000000000000000000000000000000",
        "030000000000000000000000",
        "0100000000000000",
        "b5d839330ac7b786578782fff6013b815b287c22493a364c",
    );
}

#[test]
fn aes256gcmsiv_known_answers() {
    check_vector::<Aes256GcmSiv<Bitcode>>(
        "0100000000000000000000000000000000000000000000000000000000000000",
        "030000000000000000000000",
        "",
        "07f5f4169bbf55a8400cd47ea6fd400f",
    );
    check_vector::<Aes256GcmSiv<Bitcode>>(
        "0100000000000000000000000000000000000000000000000000000000000000",
        "030000000000000000000000",
        "0100000000000000",
        "c2ef328e5c71c83b843122130f7364b761e0b97427e3df28",
    );
}

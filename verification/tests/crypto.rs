use vault_cli::crypto::CryptoService;
use vault_cli::errors::WalletError;
use aes_gcm::aead::{Aead, KeyInit};

#[test]
fn test_generate_key() {
    let key = CryptoService::generate_key();
    assert_eq!(key.len(), 32);
}

#[test]
fn test_generate_nonce() {
    let nonce = CryptoService::generate_nonce();
    assert_eq!(nonce.len(), 12);
}

#[test]
fn test_encryption_decryption() {
    let crypto_service = CryptoService {};
    let key = CryptoService::generate_key();
    let data = "secret data";
    let (encrypted, nonce) = match crypto_service.encrypt(data, &key) {
        Ok((ciphertext, nonce)) => (ciphertext, nonce),
        Err(e) => {
            println!("Encryption failed: {}", e.message());
            return;
        }
    };
    let decrypted = CryptoService::decrypt(&encrypted, &key, &nonce).unwrap();
    assert_eq!(data, decrypted);
}

#[test]
fn test_hex_to_key() {
    let key = CryptoService::generate_key();
    let hex_key = hex::encode(key.as_slice());
    let key_from_hex = CryptoService::hex_to_key(&hex_key).unwrap();
    assert_eq!(key.as_slice(), key_from_hex.as_slice());
}

#[test]
fn encrypt_yields_hex_of_ciphertext_and_tag() {
    let service = CryptoService {};
    let key = [7u8; 32];
    let (ciphertext, _nonce) = service.encrypt("abc", &key).unwrap();
    // three bytes of ciphertext and sixteen of tag, two digits each
    assert_eq!(ciphertext.len(), 38);
    assert!(ciphertext.chars().all(|c| c.is_ascii_digit() || ('a'..='f').contains(&c)));
    assert_ne!(ciphertext, "abc");
}

#[test]
fn encrypt_matches_the_cipher_called_directly() {
    let service = CryptoService {};
    let key = [0x42u8; 32];
    let (ciphertext, nonce) = service.encrypt("attack at dawn", &key).unwrap();
    let cipher = aes_gcm::Aes256Gcm::new((&key).into());
    let expected = cipher.encrypt((&nonce).into(), "attack at dawn".as_bytes()).unwrap();
    assert_eq!(ciphertext, hex::encode(expected));
}

#[test]
fn decrypt_known_vector() {
    // AES-256-GCM, all-zero key and nonce, empty plaintext: the tag alone.
    let key = [0u8; 32];
    let nonce = [0u8; 12];
    let decrypted = CryptoService::decrypt("530f8afbc74536b9a963b4f1c4cb738b", &key, &nonce);
    assert_eq!(decrypted, Ok(String::new()));
}

#[test]
fn decrypt_accepts_upper_case_digits() {
    let key = [0u8; 32];
    let nonce = [0u8; 12];
    let decrypted = CryptoService::decrypt("530F8AFBC74536B9A963B4F1C4CB738B", &key, &nonce);
    assert_eq!(decrypted, Ok(String::new()));
}

#[test]
fn round_trip_of_many_texts() {
    let service = CryptoService {};
    let key = CryptoService::generate_key();
    let texts = ["", "a", "pw", "correct horse battery staple", "\u{e9}t\u{e9} \u{4e2d}\u{6587} \u{1f600}"];
    for text in texts {
        let (ciphertext, nonce) = service.encrypt(text, &key).unwrap();
        assert_eq!(CryptoService::decrypt(&ciphertext, &key, &nonce), Ok(text.to_string()));
    }
}

#[test]
fn nonces_do_not_repeat() {
    let service = CryptoService {};
    let key = CryptoService::generate_key();
    let mut seen = std::collections::HashSet::new();
    for _ in 0..10_000 {
        let (_, nonce) = service.encrypt("x", &key).unwrap();
        assert!(seen.insert(nonce));
    }
    assert_eq!(seen.len(), 10_000);
}

#[test]
fn flipping_any_ciphertext_bit_fails_authentication() {
    let service = CryptoService {};
    let key = CryptoService::generate_key();
    let (ciphertext, nonce) = service.encrypt("secret data", &key).unwrap();
    let bytes = hex::decode(&ciphertext).unwrap();
    for i in 0..bytes.len() {
        for bit in 0..8 {
            let mut tampered = bytes.clone();
            tampered[i] ^= 1 << bit;
            let result = CryptoService::decrypt(&hex::encode(&tampered), &key, &nonce);
            assert_eq!(result, Err(WalletError::Authentication));
        }
    }
}

#[test]
fn flipping_any_nonce_bit_fails_authentication() {
    let service = CryptoService {};
    let key = CryptoService::generate_key();
    let (ciphertext, nonce) = service.encrypt("secret data", &key).unwrap();
    for i in 0..nonce.len() {
        for bit in 0..8 {
            let mut tampered = nonce;
            tampered[i] ^= 1 << bit;
            let result = CryptoService::decrypt(&ciphertext, &key, &tampered);
            assert_eq!(result, Err(WalletError::Authentication));
        }
    }
}

#[test]
fn decrypt_with_another_key_fails_authentication() {
    let service = CryptoService {};
    let key = [1u8; 32];
    let other = [2u8; 32];
    let (ciphertext, nonce) = service.encrypt("secret data", &key).unwrap();
    assert_eq!(CryptoService::decrypt(&ciphertext, &other, &nonce), Err(WalletError::Authentication));
}

#[test]
fn decrypt_rejects_malformed_ciphertext() {
    let key = [0u8; 32];
    let nonce = [0u8; 12];
    assert_eq!(CryptoService::decrypt("zz", &key, &nonce), Err(WalletError::Authentication));
    assert_eq!(CryptoService::decrypt("abc", &key, &nonce), Err(WalletError::Authentication));
    assert_eq!(CryptoService::decrypt("", &key, &nonce), Err(WalletError::Authentication));
    assert_eq!(CryptoService::decrypt("00ff", &key, &nonce), Err(WalletError::Authentication));
}

#[test]
fn decrypt_reports_sealed_bytes_that_are_no_text() {
    let key = [9u8; 32];
    let nonce = [3u8; 12];
    let cipher = aes_gcm::Aes256Gcm::new((&key).into());
    let sealed = cipher.encrypt((&nonce).into(), &[0xffu8, 0xfe][..]).unwrap();
    assert_eq!(CryptoService::decrypt(&hex::encode(sealed), &key, &nonce), Err(WalletError::Parse));
}

#[test]
fn hex_to_key_reads_digits_of_either_case() {
    let text = "000102030405060708090a0b0c0d0e0f101112131415161718191A1B1C1D1E1F";
    let key = CryptoService::hex_to_key(text).unwrap();
    let expected: Vec<u8> = (0u8..32).collect();
    assert_eq!(key.to_vec(), expected);
}

#[test]
fn hex_to_key_rejects_what_is_no_key() {
    assert_eq!(CryptoService::hex_to_key(""), Err(WalletError::Parse));
    assert_eq!(CryptoService::hex_to_key("00"), Err(WalletError::Parse));
    assert_eq!(CryptoService::hex_to_key(&"0".repeat(63)), Err(WalletError::Parse));
    assert_eq!(CryptoService::hex_to_key(&"0".repeat(66)), Err(WalletError::Parse));
    assert_eq!(CryptoService::hex_to_key(&"g".repeat(64)), Err(WalletError::Parse));
    assert!(CryptoService::hex_to_key(&"0".repeat(64)).is_ok());
}

#[test]
fn hex_to_nonce_reads_twelve_bytes() {
    assert_eq!(CryptoService::hex_to_nonce("0102030405060708090a0b0c"), Ok([1, 2, 3, 4, 5, 6, 7, 8, 9, 10, 11, 12]));
    assert_eq!(CryptoService::hex_to_nonce("0102"), Err(WalletError::Parse));
    assert_eq!(CryptoService::hex_to_nonce("0102030405060708090a0b0cxx"), Err(WalletError::Parse));
}

#[test]
fn every_failure_has_something_to_say() {
    assert_eq!(WalletError::PasswordMismatch.message(), "Passwords do not match. Please try again.");
    assert_eq!(WalletError::NoSession.message(), "No user is currently logged in.");
    assert_eq!(WalletError::NoProvider.message(), "Provider not set");
    assert_eq!(WalletError::NoWallet.message(), "Wallet not set");
    let all = [
        WalletError::Authentication,
        WalletError::Parse,
        WalletError::Validation,
        WalletError::Duplicate,
        WalletError::NotFound,
        WalletError::Network,
        WalletError::PasswordMismatch,
        WalletError::DuplicateAccount,
        WalletError::NoSession,
        WalletError::InvalidPhrase,
        WalletError::Encryption,
        WalletError::Signing,
        WalletError::NoProvider,
        WalletError::NoWallet,
    ];
    for (i, a) in all.iter().enumerate() {
        assert!(!a.message().is_empty());
        for b in &all[i + 1..] {
            assert_ne!(a.message(), b.message());
        }
    }
}

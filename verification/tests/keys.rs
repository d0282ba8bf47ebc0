use ethers::signers::{LocalWallet, Signer};
use vault_cli::errors::WalletError;
use vault_cli::keys::{KeyManager, Wallet};

const PHRASE: &str = "abandon abandon abandon abandon abandon abandon abandon abandon abandon abandon abandon about";

fn secret_of(last: u8) -> [u8; 32] {
    let mut secret = [0u8; 32];
    secret[31] = last;
    secret
}

#[test]
fn phrase_has_twelve_words_and_derives_a_key() {
    let phrase = KeyManager::generate_recovery_phrase();
    assert_eq!(phrase.split(' ').count(), 12);
    assert!(phrase.split(' ').all(|w| !w.is_empty() && w.chars().all(|c| c.is_ascii_lowercase())));
    assert!(KeyManager::derive_signing_key(&phrase).is_ok());
}

#[test]
fn phrases_differ_from_one_another() {
    let first = KeyManager::generate_recovery_phrase();
    let second = KeyManager::generate_recovery_phrase();
    assert_ne!(first, second);
}

#[test]
fn known_phrase_gives_known_private_key() {
    let wallet = KeyManager::derive_signing_key(PHRASE).ok().unwrap();
    assert_eq!(
        hex::encode(wallet.private_key()),
        "5eb00bbddcf069084889a8ab9155568165f5c453ccb85e70811aaed6f6da5fc1"
    );
    let expected = LocalWallet::from_bytes(&wallet.private_key()).unwrap().address();
    assert_eq!(wallet.get_address().bytes, expected.0);
}

#[test]
fn derivation_is_deterministic() {
    let first = KeyManager::derive_signing_key(PHRASE).ok().unwrap();
    let second = KeyManager::derive_signing_key(PHRASE).ok().unwrap();
    assert_eq!(first.private_key(), second.private_key());
    assert_eq!(first.get_address(), second.get_address());
}

#[test]
fn phrase_that_does_not_parse_is_refused() {
    assert!(matches!(KeyManager::derive_signing_key(""), Err(WalletError::InvalidPhrase)));
    assert!(matches!(KeyManager::derive_signing_key("abandon"), Err(WalletError::InvalidPhrase)));
    assert!(matches!(
        KeyManager::derive_signing_key("abandon abandon abandon abandon abandon abandon abandon abandon abandon abandon abandon abandon"),
        Err(WalletError::InvalidPhrase)
    ));
    assert!(matches!(
        KeyManager::derive_signing_key("zzzz abandon abandon abandon abandon abandon abandon abandon abandon abandon abandon about"),
        Err(WalletError::InvalidPhrase)
    ));
}

#[test]
fn seed_gives_its_first_half_as_key() {
    let mut seed = vec![0u8; 64];
    seed[31] = 1;
    seed[32] = 0xff;
    let wallet = KeyManager::wallet_from_seed(&seed).ok().unwrap();
    assert_eq!(wallet.private_key(), secret_of(1));
    assert_eq!(wallet.get_address().to_text(), "0x7e5f4552091a69125d5dfcb7b8c2659029395bdf");
}

#[test]
fn seed_that_is_too_short_or_no_key_is_refused() {
    assert!(matches!(KeyManager::wallet_from_seed(&vec![1u8; 31]), Err(WalletError::InvalidPhrase)));
    assert!(matches!(KeyManager::wallet_from_seed(&vec![0u8; 64]), Err(WalletError::InvalidPhrase)));
    assert!(matches!(KeyManager::wallet_from_seed(&vec![0xffu8; 64]), Err(WalletError::InvalidPhrase)));
    assert!(KeyManager::wallet_from_seed(&vec![1u8; 32]).is_ok());
}

#[test]
fn private_key_one_has_the_known_address() {
    let wallet = Wallet::from_secret(secret_of(1)).unwrap();
    assert_eq!(wallet.get_address().to_text(), "0x7e5f4552091a69125d5dfcb7b8c2659029395bdf");
    assert_eq!(wallet.private_key(), secret_of(1));
}

#[test]
fn known_private_key_has_the_known_address() {
    let wallet = Wallet::from_secret([0x46u8; 32]).unwrap();
    assert_eq!(wallet.get_address().to_text(), "0x9d8a62f656a8d1615c1294fd71e9cfb3e4855a4f");
}

#[test]
fn private_key_is_above_zero_and_below_the_order() {
    let order = hex::decode("fffffffffffffffffffffffffffffffebaaedce6af48a03bbfd25e8cd0364141").unwrap();
    let mut at_order = [0u8; 32];
    at_order.copy_from_slice(&order);
    let mut below = at_order;
    below[31] = 0x40;
    let mut above = at_order;
    above[31] = 0x42;
    assert!(Wallet::from_secret([0u8; 32]).is_none());
    assert!(Wallet::from_secret(at_order).is_none());
    assert!(Wallet::from_secret(above).is_none());
    assert!(Wallet::from_secret([0xffu8; 32]).is_none());
    assert!(Wallet::from_secret(below).is_some());
    assert!(Wallet::from_secret(secret_of(1)).is_some());
}

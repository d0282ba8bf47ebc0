use vault_cli::account::{AccountRecord, AccountService};
use vault_cli::crypto::CryptoService;
use vault_cli::errors::WalletError;
use vault_cli::keys::KeyManager;

const PHRASE: &str = "abandon abandon abandon abandon abandon abandon abandon abandon abandon abandon abandon about";

#[test]
fn wrong_password_is_refused_and_right_password_logs_in() {
    let mut service = AccountService::new();
    let phrase = service.create_account("alice", "pw", "pw").unwrap();
    assert_eq!(service.login("alice", "wrong"), Err(WalletError::Authentication));
    assert!(service.logged_in_account().is_none());
    assert_eq!(service.login("alice", "pw"), Ok(()));
    assert_eq!(service.logged_in_account().map(|s| s.as_str()), Some("alice"));
    let info = service.account_info().unwrap();
    let wallet = KeyManager::derive_signing_key(&phrase).ok().unwrap();
    assert_eq!(info.account_name, "alice");
    assert_eq!(info.address, wallet.get_address().to_text());
    assert_eq!(info.private_key, hex::encode(wallet.private_key()));
    let again = service.account_info().unwrap();
    assert_eq!(again.address, info.address);
    assert_eq!(again.private_key, info.private_key);
}

#[test]
fn create_refuses_a_confirmation_that_differs() {
    let mut service = AccountService::new();
    assert_eq!(service.create_account("alice", "pw", "pW"), Err(WalletError::PasswordMismatch));
    assert!(service.list().is_empty());
    assert!(service.get_account("alice").is_none());
}

#[test]
fn create_refuses_a_name_that_is_taken() {
    let mut service = AccountService::new();
    service.create_account("alice", "pw", "pw").unwrap();
    let before = service.get_account("alice").unwrap().clone();
    assert_eq!(service.create_account("alice", "other", "other"), Err(WalletError::DuplicateAccount));
    assert_eq!(service.create_account("alice", "a", "b"), Err(WalletError::PasswordMismatch));
    assert_eq!(service.list(), vec!["alice".to_string()]);
    let after = service.get_account("alice").unwrap();
    assert_eq!(after.encrypted_password, before.encrypted_password);
    assert_eq!(after.encrypted_seed_phrase, before.encrypted_seed_phrase);
    assert_eq!(after.encryption_key, before.encryption_key);
    assert_eq!(service.login("alice", "pw"), Ok(()));
}

#[test]
fn record_holds_password_and_phrase_encrypted_apart() {
    let mut service = AccountService::new();
    let phrase = service.create_account("alice", "pw", "pw").unwrap();
    let record = service.get_account("alice").unwrap();
    assert_eq!(record.account_name, "alice");
    assert_eq!(record.encryption_key.len(), 64);
    assert_eq!(record.password_nonce.len(), 24);
    assert_eq!(record.seed_nonce.len(), 24);
    assert_ne!(record.password_nonce, record.seed_nonce);
    assert!(!record.encrypted_seed_phrase.contains(&phrase));
    let key = CryptoService::hex_to_key(&record.encryption_key).unwrap();
    let seed_nonce = CryptoService::hex_to_nonce(&record.seed_nonce).unwrap();
    let password_nonce = CryptoService::hex_to_nonce(&record.password_nonce).unwrap();
    assert_eq!(CryptoService::decrypt(&record.encrypted_seed_phrase, &key, &seed_nonce), Ok(phrase));
    assert_eq!(CryptoService::decrypt(&record.encrypted_password, &key, &password_nonce), Ok("pw".to_string()));
}

#[test]
fn create_with_given_phrase_and_key_stores_them() {
    let mut service = AccountService::new();
    let key = [5u8; 32];
    assert_eq!(service.create_account_with("bob", "secret", "secret", PHRASE, &key), Ok(()));
    assert_eq!(service.get_account("bob").unwrap().encryption_key, hex::encode(key));
    assert_eq!(service.login("bob", "secret"), Ok(()));
    let info = service.account_info().unwrap();
    assert_eq!(info.private_key, "5eb00bbddcf069084889a8ab9155568165f5c453ccb85e70811aaed6f6da5fc1");
    assert_eq!(service.create_account_with("bob", "x", "y", PHRASE, &key), Err(WalletError::PasswordMismatch));
    assert_eq!(service.create_account_with("bob", "x", "x", PHRASE, &key), Err(WalletError::DuplicateAccount));
}

#[test]
fn login_to_an_unknown_account_is_not_found() {
    let mut service = AccountService::new();
    assert_eq!(service.login("nobody", "pw"), Err(WalletError::NotFound));
    assert!(service.logged_in_account().is_none());
}

#[test]
fn failed_login_keeps_the_session_and_login_replaces_it() {
    let mut service = AccountService::new();
    service.create_account("alice", "pw", "pw").unwrap();
    service.create_account("bob", "pw2", "pw2").unwrap();
    assert_eq!(service.login("alice", "pw"), Ok(()));
    assert_eq!(service.login("bob", "nope"), Err(WalletError::Authentication));
    assert_eq!(service.logged_in_account().map(|s| s.as_str()), Some("alice"));
    assert_eq!(service.login("bob", "pw2"), Ok(()));
    assert_eq!(service.logged_in_account().map(|s| s.as_str()), Some("bob"));
}

#[test]
fn logout_clears_the_session() {
    let mut service = AccountService::new();
    assert_eq!(service.logout(), Err(WalletError::NoSession));
    service.create_account("alice", "pw", "pw").unwrap();
    service.login("alice", "pw").unwrap();
    assert_eq!(service.logout(), Ok(()));
    assert!(service.logged_in_account().is_none());
    assert_eq!(service.logout(), Err(WalletError::NoSession));
    assert_eq!(service.list(), vec!["alice".to_string()]);
}

#[test]
fn info_needs_a_session() {
    let mut service = AccountService::new();
    service.create_account("alice", "pw", "pw").unwrap();
    assert_eq!(service.account_info().map(|i| i.address), Err(WalletError::NoSession));
    assert!(service.get_wallet().is_none());
    service.login("alice", "pw").unwrap();
    assert!(service.get_wallet().is_some());
    assert!(service.unlock().is_ok());
}

#[test]
fn info_of_a_session_without_record_is_not_found() {
    let mut service = AccountService::new();
    service.load_session(Some("ghost".to_string()));
    assert_eq!(service.account_info().map(|i| i.address), Err(WalletError::NotFound));
    assert!(matches!(service.unlock(), Err(WalletError::NotFound)));
}

#[test]
fn list_names_the_accounts_in_order_but_not_the_session() {
    let mut service = AccountService::new();
    service.create_account("zoe", "1", "1").unwrap();
    service.create_account("state", "2", "2").unwrap();
    service.create_account("adam", "3", "3").unwrap();
    assert_eq!(service.list(), vec!["zoe".to_string(), "adam".to_string()]);
}

fn record(name: &str, password: &str, key: &[u8; 32]) -> AccountRecord {
    let crypto = CryptoService {};
    let (encrypted_password, password_nonce) = crypto.encrypt(password, key).unwrap();
    let (encrypted_seed_phrase, seed_nonce) = crypto.encrypt(PHRASE, key).unwrap();
    AccountRecord {
        account_name: name.to_string(),
        encrypted_password,
        password_nonce: hex::encode(password_nonce),
        encrypted_seed_phrase,
        seed_nonce: hex::encode(seed_nonce),
        encryption_key: hex::encode(key),
    }
}

#[test]
fn loaded_record_can_be_logged_into() {
    let mut service = AccountService::new();
    assert_eq!(service.load_account(record("carol", "pw", &[1u8; 32])), Ok(()));
    assert_eq!(service.login("carol", "pw"), Ok(()));
    assert_eq!(service.load_account(record("carol", "new", &[2u8; 32])), Err(WalletError::DuplicateAccount));
    assert_eq!(service.list(), vec!["carol".to_string()]);
    assert_eq!(service.login("carol", "new"), Err(WalletError::Authentication));
    assert_eq!(service.login("carol", "pw"), Ok(()));
}

#[test]
fn record_with_malformed_key_or_nonce_is_a_parse_error() {
    let mut bad_key = record("carol", "pw", &[1u8; 32]);
    bad_key.encryption_key = "zz".to_string();
    let mut service = AccountService::new();
    service.load_account(bad_key).unwrap();
    assert_eq!(service.login("carol", "pw"), Err(WalletError::Parse));
    let mut bad_nonce = record("dave", "pw", &[1u8; 32]);
    bad_nonce.password_nonce = "0011".to_string();
    service.load_account(bad_nonce).unwrap();
    assert_eq!(service.login("dave", "pw"), Err(WalletError::Parse));
    assert!(service.logged_in_account().is_none());
}

#[test]
fn record_with_tampered_ciphertext_fails_authentication() {
    let mut tampered = record("carol", "pw", &[1u8; 32]);
    let mut bytes = hex::decode(&tampered.encrypted_password).unwrap();
    bytes[0] ^= 1;
    tampered.encrypted_password = hex::encode(bytes);
    tampered.encrypted_seed_phrase = "nothex".to_string();
    let mut service = AccountService::new();
    service.load_account(tampered).unwrap();
    assert_eq!(service.login("carol", "pw"), Err(WalletError::Authentication));
    service.load_session(Some("carol".to_string()));
    assert_eq!(service.account_info().map(|i| i.address), Err(WalletError::Authentication));
}

#[test]
fn record_whose_phrase_is_no_phrase_is_refused() {
    let crypto = CryptoService {};
    let key = [3u8; 32];
    let mut broken = record("erin", "pw", &key);
    let (ciphertext, nonce) = crypto.encrypt("not a recovery phrase", &key).unwrap();
    broken.encrypted_seed_phrase = ciphertext;
    broken.seed_nonce = hex::encode(nonce);
    let mut service = AccountService::new();
    service.load_account(broken).unwrap();
    assert_eq!(service.login("erin", "pw"), Ok(()));
    assert_eq!(service.account_info().map(|i| i.address), Err(WalletError::InvalidPhrase));
}

#[test]
fn record_round_trips_through_json() {
    let written = record("carol", "pw", &[1u8; 32]);
    let text = written.to_json();
    let value: serde_json::Value = serde_json::from_str(&text).unwrap();
    assert_eq!(value["account_name"], "carol");
    assert_eq!(value["encryption_key"], hex::encode([1u8; 32]));
    assert_eq!(value["password_nonce"], written.password_nonce.as_str());
    assert_eq!(value.as_object().unwrap().len(), 6);
    let back = AccountRecord::from_json(&text).unwrap();
    assert_eq!(back.account_name, written.account_name);
    assert_eq!(back.encrypted_password, written.encrypted_password);
    assert_eq!(back.password_nonce, written.password_nonce);
    assert_eq!(back.encrypted_seed_phrase, written.encrypted_seed_phrase);
    assert_eq!(back.seed_nonce, written.seed_nonce);
    assert_eq!(back.encryption_key, written.encryption_key);
}

#[test]
fn record_from_json_needs_all_six_strings() {
    assert_eq!(AccountRecord::from_json("").map(|r| r.account_name), Err(WalletError::Parse));
    assert_eq!(AccountRecord::from_json("{}").map(|r| r.account_name), Err(WalletError::Parse));
    assert_eq!(AccountRecord::from_json("[1,2]").map(|r| r.account_name), Err(WalletError::Parse));
    let missing = "{\"account_name\":\"a\",\"encrypted_password\":\"b\",\"password_nonce\":\"c\",\"encrypted_seed_phrase\":\"d\",\"seed_nonce\":\"e\"}";
    assert_eq!(AccountRecord::from_json(missing).map(|r| r.account_name), Err(WalletError::Parse));
    let wrong_kind = "{\"account_name\":\"a\",\"encrypted_password\":\"b\",\"password_nonce\":\"c\",\"encrypted_seed_phrase\":\"d\",\"seed_nonce\":\"e\",\"encryption_key\":7}";
    assert_eq!(AccountRecord::from_json(wrong_kind).map(|r| r.account_name), Err(WalletError::Parse));
    let whole = "{\"account_name\":\"a\",\"encrypted_password\":\"b\",\"password_nonce\":\"c\",\"encrypted_seed_phrase\":\"d\",\"seed_nonce\":\"e\",\"encryption_key\":\"f\",\"more\":1}";
    let record = AccountRecord::from_json(whole).unwrap();
    assert_eq!(record.account_name, "a");
    assert_eq!(record.encryption_key, "f");
}

#[test]
fn session_round_trips_through_json() {
    let mut service = AccountService::new();
    assert_eq!(service.session_to_json(), "{\"logged_in_account\":null}");
    service.load_session(Some("alice".to_string()));
    assert_eq!(service.session_to_json(), "{\"logged_in_account\":\"alice\"}");
    assert_eq!(AccountService::session_from_json("{\"logged_in_account\":\"alice\"}"), Some("alice".to_string()));
    assert_eq!(AccountService::session_from_json("{\"logged_in_account\":null}"), None);
    assert_eq!(AccountService::session_from_json("{}"), None);
    assert_eq!(AccountService::session_from_json("not json"), None);
    assert_eq!(AccountService::session_from_json("{\"logged_in_account\":5}"), None);
}

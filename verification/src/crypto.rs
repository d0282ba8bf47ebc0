//! Authenticated encryption of secrets at rest: AES-256-GCM with a 256-bit
//! key, a fresh 96-bit nonce for every encryption and a 128-bit tag. The
//! ciphertext travels as hexadecimal text.

use vstd::prelude::*;
use vstd::utf8::*;
use vstd::string::*;
use vstd::slice::*;
use aes_gcm::aead::{Aead, AeadCore, KeyInit, OsRng};
use aes_gcm::Aes256Gcm;
use crate::errors::WalletError;
use crate::hexcodec::{hex_text, hex_bytes, is_hex_text, lemma_hex_round_trip};

verus! {

/// The bytes of a key.
pub const KEY_BYTES: usize = 32;

/// The bytes of a nonce.
pub const NONCE_BYTES: usize = 12;

/// The longest plaintext, in bytes, that the cipher accepts.
pub const MAX_PLAINTEXT_BYTES: u64 = 0x10_0000_0000;

/// What AES-256-GCM makes of a plaintext under a key and a nonce, with no
/// associated data: the ciphertext followed by its tag.
pub uninterp spec fn aes_gcm_seal(key: Seq<u8>, nonce: Seq<u8>, plaintext: Seq<u8>) -> Seq<u8>;

/// What AES-256-GCM reads out of a ciphertext with its tag under a key and a
/// nonce, with no associated data; `None` where the tag does not verify.
pub uninterp spec fn aes_gcm_open(key: Seq<u8>, nonce: Seq<u8>, sealed: Seq<u8>) -> Option<
    Seq<u8>,
>;

/// What decryption returns for a hexadecimal ciphertext, a key and a nonce.
pub open spec fn decrypt_spec(ciphertext: Seq<char>, key: Seq<u8>, nonce: Seq<u8>) -> Result<
    Seq<char>,
    WalletError,
> {
    if !is_hex_text(ciphertext) {
        Err(WalletError::Authentication)
    } else {
        match aes_gcm_open(key, nonce, hex_bytes(ciphertext)) {
            None => Err(WalletError::Authentication),
            Some(plain) => if valid_utf8(plain) {
                Ok(decode_utf8(plain))
            } else {
                Err(WalletError::Parse)
            },
        }
    }
}

/// What `hex_to_key` returns for a text.
pub open spec fn key_of_hex(text: Seq<char>) -> Option<Seq<u8>> {
    if is_hex_text(text) && text.len() == 2 * KEY_BYTES {
        Some(hex_bytes(text))
    } else {
        None
    }
}

/// What `hex_to_nonce` returns for a text.
pub open spec fn nonce_of_hex(text: Seq<char>) -> Option<Seq<u8>> {
    if is_hex_text(text) && text.len() == 2 * NONCE_BYTES {
        Some(hex_bytes(text))
    } else {
        None
    }
}

/// `KeyInit::generate_key` of `Aes256Gcm` on the operating system's random
/// source. Nothing is claimed of the bytes.
#[verifier::external_body]
fn fresh_key() -> [u8; 32] {
    Aes256Gcm::generate_key(&mut OsRng).into()
}

/// `AeadCore::generate_nonce` of `Aes256Gcm` on the operating system's
/// random source. Nothing is claimed of the bytes.
#[verifier::external_body]
fn fresh_nonce() -> [u8; 12] {
    Aes256Gcm::generate_nonce(&mut OsRng).into()
}

/// `Aead::encrypt` of `Aes256Gcm`: fails exactly on a plaintext longer than
/// the cipher accepts; what it returns otherwise depends on key, nonce and
/// plaintext alone, is sixteen bytes longer than the plaintext and opens to
/// the plaintext under the same key and nonce. Believed of the `aes-gcm`
/// crate, not proved.
#[verifier::external_body]
fn seal(key: &[u8; 32], nonce: &[u8; 12], plaintext: &[u8]) -> (sealed: Option<Vec<u8>>)
    ensures
        sealed is Some <==> plaintext@.len() <= MAX_PLAINTEXT_BYTES,
        sealed is Some ==> sealed.unwrap()@ == aes_gcm_seal(key@, nonce@, plaintext@),
        sealed is Some ==> sealed.unwrap()@.len() == plaintext@.len() + 16,
        sealed is Some ==> aes_gcm_open(key@, nonce@, sealed.unwrap()@) == Some(plaintext@),
{
    Aes256Gcm::new(key.into()).encrypt(nonce.into(), plaintext).ok()
}

/// `Aead::decrypt` of `Aes256Gcm`: the plaintext where the tag verifies,
/// nothing otherwise; which of the two depends on key, nonce and input
/// alone. Believed of the `aes-gcm` crate, not proved.
#[verifier::external_body]
fn open(key: &[u8; 32], nonce: &[u8; 12], sealed: &[u8]) -> (plain: Option<Vec<u8>>)
    ensures
        plain is Some <==> aes_gcm_open(key@, nonce@, sealed@) is Some,
        plain is Some ==> aes_gcm_open(key@, nonce@, sealed@) == Some(plain.unwrap()@),
{
    Aes256Gcm::new(key.into()).decrypt(nonce.into(), sealed).ok()
}

/// `String::from_utf8`: the text of the bytes where they are valid UTF-8,
/// nothing otherwise.
#[verifier::external_body]
fn text_of_utf8(bytes: Vec<u8>) -> (text: Option<String>)
    ensures
        text is Some <==> valid_utf8(bytes@),
        text is Some ==> text.unwrap()@ == decode_utf8(bytes@),
{
    String::from_utf8(bytes).ok()
}

/// Whether the bytes, thirty-two of them, read as one array.
pub fn key_from_bytes(bytes: &Vec<u8>) -> (key: Option<[u8; 32]>)
    ensures
        key is Some <==> bytes@.len() == 32,
        key is Some ==> key.unwrap()@ == bytes@,
{
    if bytes.len() != 32 {
        return None;
    }
    let mut key = [0u8; 32];
    let mut i: usize = 0;
    while i < 32
        invariant
            i <= 32,
            bytes@.len() == 32,
            forall|j: int| 0 <= j < i ==> key@[j] == bytes@[j],
        decreases 32 - i,
    {
        key[i] = bytes[i];
        i += 1;
    }
    assert(key@ =~= bytes@);
    Some(key)
}

/// Whether the bytes, twelve of them, read as one array.
pub fn nonce_from_bytes(bytes: &Vec<u8>) -> (nonce: Option<[u8; 12]>)
    ensures
        nonce is Some <==> bytes@.len() == 12,
        nonce is Some ==> nonce.unwrap()@ == bytes@,
{
    if bytes.len() != 12 {
        return None;
    }
    let mut nonce = [0u8; 12];
    let mut i: usize = 0;
    while i < 12
        invariant
            i <= 12,
            bytes@.len() == 12,
            forall|j: int| 0 <= j < i ==> nonce@[j] == bytes@[j],
        decreases 12 - i,
    {
        nonce[i] = bytes[i];
        i += 1;
    }
    assert(nonce@ =~= bytes@);
    Some(nonce)
}

/// The cipher of the vault.
pub struct CryptoService {}

impl CryptoService {
    /// A fresh random 256-bit key.
    pub fn generate_key() -> [u8; 32] {
        fresh_key()
    }

    /// A fresh random 96-bit nonce.
    pub fn generate_nonce() -> [u8; 12] {
        fresh_nonce()
    }

    /// Encrypts a text under a key and a nonce drawn for this call, and
    /// returns the hexadecimal ciphertext with that nonce. The pair decrypts
    /// to the text again. Fails only on a text longer than the cipher
    /// accepts.
    pub fn encrypt(&self, data: &str, key: &[u8; 32]) -> (r: Result<(String, [u8; 12]), WalletError>)
        ensures
            r is Ok <==> encode_utf8(data@).len() <= MAX_PLAINTEXT_BYTES,
            r is Err ==> r == Err::<(String, [u8; 12]), WalletError>(WalletError::Encryption),
            r is Ok ==> r.unwrap().0@ == hex_text(
                aes_gcm_seal(key@, r.unwrap().1@, encode_utf8(data@)),
            ),
            r is Ok ==> decrypt_spec(r.unwrap().0@, key@, r.unwrap().1@) == Ok::<
                Seq<char>,
                WalletError,
            >(data@),
    {
        let nonce = Self::generate_nonce();
        let plain = data.as_bytes();
        match seal(key, &nonce, plain) {
            None => Err(WalletError::Encryption),
            Some(sealed) => {
                let text = crate::hexcodec::encode(sealed.as_slice());
                proof {
                    lemma_hex_round_trip(sealed@);
                    encode_utf8_valid_utf8(data@);
                    encode_utf8_decode_utf8(data@);
                }
                Ok((text, nonce))
            },
        }
    }

    /// Decrypts a hexadecimal ciphertext under a key and the nonce it was
    /// made with. Fails with `Authentication` where the ciphertext is
    /// malformed or its tag does not verify, and with `Parse` where what
    /// was sealed is no text.
    pub fn decrypt(ciphertext: &str, key: &[u8; 32], nonce: &[u8; 12]) -> (r: Result<
        String,
        WalletError,
    >)
        ensures
            r is Ok <==> decrypt_spec(ciphertext@, key@, nonce@) is Ok,
            r is Ok ==> decrypt_spec(ciphertext@, key@, nonce@) == Ok::<Seq<char>, WalletError>(
                r.unwrap()@,
            ),
            r is Err ==> decrypt_spec(ciphertext@, key@, nonce@) == Err::<Seq<char>, WalletError>(
                r.unwrap_err(),
            ),
    {
        let sealed = match crate::hexcodec::decode(ciphertext) {
            None => { return Err(WalletError::Authentication); },
            Some(bytes) => bytes,
        };
        let plain = match open(key, nonce, sealed.as_slice()) {
            None => { return Err(WalletError::Authentication); },
            Some(bytes) => bytes,
        };
        match text_of_utf8(plain) {
            None => Err(WalletError::Parse),
            Some(text) => Ok(text),
        }
    }

    /// Reads a key back from its hexadecimal text: sixty-four digits.
    pub fn hex_to_key(text_key: &str) -> (r: Result<[u8; 32], WalletError>)
        ensures
            r is Ok <==> key_of_hex(text_key@) is Some,
            r is Ok ==> key_of_hex(text_key@) == Some(r.unwrap()@),
            r is Err ==> r == Err::<[u8; 32], WalletError>(WalletError::Parse),
    {
        match crate::hexcodec::decode(text_key) {
            None => Err(WalletError::Parse),
            Some(bytes) => match key_from_bytes(&bytes) {
                None => Err(WalletError::Parse),
                Some(key) => Ok(key),
            },
        }
    }

    /// Reads a nonce back from its hexadecimal text: twenty-four digits.
    pub fn hex_to_nonce(text_nonce: &str) -> (r: Result<[u8; 12], WalletError>)
        ensures
            r is Ok <==> nonce_of_hex(text_nonce@) is Some,
            r is Ok ==> nonce_of_hex(text_nonce@) == Some(r.unwrap()@),
            r is Err ==> r == Err::<[u8; 12], WalletError>(WalletError::Parse),
    {
        match crate::hexcodec::decode(text_nonce) {
            None => Err(WalletError::Parse),
            Some(bytes) => match nonce_from_bytes(&bytes) {
                None => Err(WalletError::Parse),
                Some(nonce) => Ok(nonce),
            },
        }
    }
}

/// Decryption inverts encryption: where sealing a text's bytes under a key
/// and a nonce gives bytes that open to them again, the hexadecimal text of
/// the sealed bytes decrypts to the text under the same key and nonce.
pub proof fn lemma_decrypt_inverts_encrypt(
    data: Seq<char>,
    key: Seq<u8>,
    nonce: Seq<u8>,
    sealed: Seq<u8>,
)
    requires
        aes_gcm_open(key, nonce, sealed) == Some(encode_utf8(data)),
    ensures
        decrypt_spec(hex_text(sealed), key, nonce) == Ok::<Seq<char>, WalletError>(data),
{
    lemma_hex_round_trip(sealed);
    encode_utf8_valid_utf8(data);
    encode_utf8_decode_utf8(data);
}

} // verus!

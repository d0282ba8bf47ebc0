//! Recovery phrases and the signing key that one stands for: a phrase of
//! twelve words expands to a seed of 512 bits, whose first 256 bits are the
//! private key; the address follows from the key. One phrase, one address.

use vstd::prelude::*;
use vstd::string::*;
use vstd::utf8::is_ascii_chars;
use bip39::{Language, Mnemonic};
use ethers::signers::{LocalWallet, Signer};
use crate::errors::WalletError;
use crate::numeric::{be_nat, Address};

verus! {

/// The words of a recovery phrase.
pub const PHRASE_WORDS: usize = 12;

/// The seed that a recovery phrase expands to, without a passphrase: sixty-four
/// bytes; `None` where the phrase does not parse against the word list and
/// its checksum.
pub uninterp spec fn mnemonic_seed(phrase: Seq<char>) -> Option<Seq<u8>>;

/// The address that belongs to a private key.
pub uninterp spec fn secret_address(secret: Seq<u8>) -> Seq<u8>;

/// The order of the group of the curve secp256k1.
pub open spec fn curve_order() -> nat {
    0xFFFF_FFFF_FFFF_FFFF_FFFF_FFFF_FFFF_FFFE_BAAE_DCE6_AF48_A03B_BFD2_5E8C_D036_4141nat
}

/// Whether bytes are a private key: a number above zero and below the
/// order of the curve.
pub open spec fn is_secret_key(bytes: Seq<u8>) -> bool {
    0 < be_nat(bytes) < curve_order()
}

/// The words of a phrase: one more than its blanks.
pub open spec fn word_count(phrase: Seq<char>) -> nat {
    phrase.filter(|c: char| c == ' ').len() + 1
}

/// Whether a phrase can have a given number of words.
pub open spec fn is_word_count(words: int) -> bool {
    12 <= words <= 24 && words % 3 == 0
}

/// `Mnemonic::generate_in` for English and the phrase's text: succeeds
/// exactly for a number of words that a phrase can have; the phrase it
/// gives has that many words, each of at most eight letters of the ASCII
/// alphabet, one blank between two, and parses again. The words are drawn
/// at random. Believed of the `bip39` crate, not proved.
#[verifier::external_body]
fn fresh_phrase(words: usize) -> (phrase: Option<String>)
    ensures
        phrase is Some <==> is_word_count(words as int),
        phrase is Some ==> word_count(phrase.unwrap()@) == words,
        phrase is Some ==> is_ascii_chars(phrase.unwrap()@) && phrase.unwrap()@.len() < 9 * words,
        phrase is Some ==> mnemonic_seed(phrase.unwrap()@) is Some,
{
    Mnemonic::generate_in(Language::English, words).ok().map(|m| m.to_string())
}

/// `Mnemonic::parse` and `Mnemonic::to_seed` with the empty passphrase: the
/// seed of sixty-four bytes where the phrase parses, which depends on the
/// phrase alone. Believed of the `bip39` crate, not proved.
#[verifier::external_body]
fn seed_of_phrase(phrase: &str) -> (seed: Option<Vec<u8>>)
    ensures
        seed is Some <==> mnemonic_seed(phrase@) is Some,
        seed is Some ==> Some(seed.unwrap()@) == mnemonic_seed(phrase@),
        seed is Some ==> seed.unwrap()@.len() == 64,
{
    Mnemonic::parse(phrase).ok().map(|m| m.to_seed("").to_vec())
}

/// `LocalWallet::from_bytes` and its address: succeeds exactly on a private
/// key, a number above zero and below the order of the curve, and gives the
/// address that belongs to it, which depends on the key alone. Believed of
/// the `ethers` crate, not proved.
#[verifier::external_body]
fn address_of_secret(secret: &[u8; 32]) -> (address: Option<Address>)
    ensures
        address is Some <==> is_secret_key(secret@),
        address is Some ==> address.unwrap()@ == secret_address(secret@),
{
    LocalWallet::from_bytes(secret).ok().map(|w| Address { bytes: w.address().0 })
}

/// A signing identity: a private key and the address that belongs to it.
pub struct Wallet {
    secret: [u8; 32],
    address: Address,
}

impl Wallet {
    /// The private key.
    pub closed spec fn secret(&self) -> Seq<u8> {
        self.secret@
    }

    /// The address.
    pub closed spec fn address(&self) -> Seq<u8> {
        self.address@
    }

    /// The identity's invariant: the key is a private key and the address
    /// is the one that belongs to it.
    pub open spec fn wf(&self) -> bool {
        &&& self.secret().len() == 32
        &&& self.address().len() == 20
        &&& is_secret_key(self.secret())
        &&& self.address() == secret_address(self.secret())
    }

    /// The identity of a private key, where the bytes are one.
    pub fn from_secret(secret: [u8; 32]) -> (r: Option<Wallet>)
        ensures
            r is Some <==> is_secret_key(secret@),
            r is Some ==> r.unwrap().wf() && r.unwrap().secret() == secret@,
    {
        match address_of_secret(&secret) {
            None => None,
            Some(address) => Some(Wallet { secret, address }),
        }
    }

    /// The private key's bytes.
    pub fn private_key(&self) -> (r: [u8; 32])
        ensures
            r@ == self.secret(),
    {
        self.secret
    }

    /// The address that belongs to the key.
    pub fn get_address(&self) -> (r: Address)
        ensures
            r@ == self.address(),
    {
        self.address
    }
}

/// What a seed makes of itself as a signing identity: its first thirty-two
/// bytes as the private key, where they are one.
pub open spec fn secret_of_seed(seed: Seq<u8>) -> Option<Seq<u8>> {
    if seed.len() >= 32 && is_secret_key(seed.take(32)) {
        Some(seed.take(32))
    } else {
        None
    }
}

/// The private key that a recovery phrase stands for.
pub open spec fn secret_of_phrase(phrase: Seq<char>) -> Option<Seq<u8>> {
    match mnemonic_seed(phrase) {
        None => None,
        Some(seed) => secret_of_seed(seed),
    }
}

/// Recovery phrases and the keys derived from them.
pub struct KeyManager {}

impl KeyManager {
    /// A fresh recovery phrase of twelve words of the English word list,
    /// drawn at random. It parses as a recovery phrase.
    pub fn generate_recovery_phrase() -> (phrase: String)
        ensures
            word_count(phrase@) == PHRASE_WORDS,
            is_ascii_chars(phrase@),
            phrase@.len() < 9 * PHRASE_WORDS,
            mnemonic_seed(phrase@) is Some,
    {
        let phrase = fresh_phrase(PHRASE_WORDS);
        phrase.unwrap()
    }

    /// The signing identity of a seed: its first 256 bits are the private
    /// key. Fails with `InvalidPhrase` where the seed is shorter than that
    /// or those bits are no private key.
    pub fn wallet_from_seed(seed: &Vec<u8>) -> (r: Result<Wallet, WalletError>)
        ensures
            r is Ok <==> secret_of_seed(seed@) is Some,
            r is Ok ==> r.unwrap().wf() && Some(r.unwrap().secret()) == secret_of_seed(seed@),
            r matches Err(e) ==> e == WalletError::InvalidPhrase,
    {
        if seed.len() < 32 {
            return Err(WalletError::InvalidPhrase);
        }
        let mut secret = [0u8; 32];
        let mut i: usize = 0;
        while i < 32
            invariant
                i <= 32,
                seed@.len() >= 32,
                forall|j: int| 0 <= j < i ==> secret@[j] == seed@[j],
            decreases 32 - i,
        {
            secret[i] = seed[i];
            i += 1;
        }
        assert(secret@ =~= seed@.take(32));
        match Wallet::from_secret(secret) {
            None => Err(WalletError::InvalidPhrase),
            Some(wallet) => Ok(wallet),
        }
    }

    /// The signing identity that a recovery phrase stands for. Fails with
    /// `InvalidPhrase` where the phrase does not parse against the word
    /// list and its checksum, or yields no private key.
    pub fn derive_signing_key(phrase: &str) -> (r: Result<Wallet, WalletError>)
        ensures
            r is Ok <==> secret_of_phrase(phrase@) is Some,
            r is Ok ==> r.unwrap().wf() && Some(r.unwrap().secret()) == secret_of_phrase(phrase@),
            r matches Err(e) ==> e == WalletError::InvalidPhrase,
    {
        match seed_of_phrase(phrase) {
            None => Err(WalletError::InvalidPhrase),
            Some(seed) => Self::wallet_from_seed(&seed),
        }
    }
}

} // verus!

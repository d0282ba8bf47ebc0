//! The ways in which an operation of the wallet can fail.

use vstd::prelude::*;
use vstd::string::*;

verus! {

/// Why an operation was refused. Every operation reports the first failure
/// it meets and changes nothing after it.
#[derive(Clone, Copy, Debug, PartialEq, Eq, Structural)]
pub enum WalletError {
    /// A wrong password, or a ciphertext that is malformed or whose
    /// integrity tag does not verify.
    Authentication,
    /// Stored data that cannot be read back: a malformed record, key, nonce
    /// or number.
    Parse,
    /// A malformed address, amount or transaction hash given by the caller.
    Validation,
    /// A chain id or a network name that the registry already holds.
    Duplicate,
    /// No such account, network or transaction.
    NotFound,
    /// The provider failed to answer.
    Network,
    /// The password and its confirmation differ.
    PasswordMismatch,
    /// An account of that name exists already.
    DuplicateAccount,
    /// Nobody is logged in.
    NoSession,
    /// The recovery phrase does not parse against the word list and its
    /// checksum, or yields no usable key.
    InvalidPhrase,
    /// The plaintext is longer than the cipher accepts.
    Encryption,
    /// The key could not produce a signature.
    Signing,
    /// No provider is set: no network was chosen, or it has no address.
    NoProvider,
    /// No signing identity is set: nobody is logged in.
    NoWallet,
}

impl WalletError {
    /// What is said of the failure.
    pub open spec fn text(self) -> Seq<char> {
        match self {
            WalletError::Authentication => "Incorrect password or corrupted data."@,
            WalletError::Parse => "Stored data could not be read."@,
            WalletError::Validation => "Invalid address, amount or hash format."@,
            WalletError::Duplicate => "A network with that chain ID or name already exists."@,
            WalletError::NotFound => "Not found."@,
            WalletError::Network => "The provider failed to answer."@,
            WalletError::PasswordMismatch => "Passwords do not match. Please try again."@,
            WalletError::DuplicateAccount => "An account of that name already exists."@,
            WalletError::NoSession => "No user is currently logged in."@,
            WalletError::InvalidPhrase => "The recovery phrase is not valid."@,
            WalletError::Encryption => "Encryption failed."@,
            WalletError::Signing => "The transaction could not be signed."@,
            WalletError::NoProvider => "Provider not set"@,
            WalletError::NoWallet => "Wallet not set"@,
        }
    }

    /// What is said of the failure.
    pub fn message(&self) -> (text: String)
        ensures
            text@ == self.text(),
    {
        match self {
            WalletError::Authentication => "Incorrect password or corrupted data.".to_string(),
            WalletError::Parse => "Stored data could not be read.".to_string(),
            WalletError::Validation => "Invalid address, amount or hash format.".to_string(),
            WalletError::Duplicate => "A network with that chain ID or name already exists.".to_string(),
            WalletError::NotFound => "Not found.".to_string(),
            WalletError::Network => "The provider failed to answer.".to_string(),
            WalletError::PasswordMismatch => "Passwords do not match. Please try again.".to_string(),
            WalletError::DuplicateAccount => "An account of that name already exists.".to_string(),
            WalletError::NoSession => "No user is currently logged in.".to_string(),
            WalletError::InvalidPhrase => "The recovery phrase is not valid.".to_string(),
            WalletError::Encryption => "Encryption failed.".to_string(),
            WalletError::Signing => "The transaction could not be signed.".to_string(),
            WalletError::NoProvider => "Provider not set".to_string(),
            WalletError::NoWallet => "Wallet not set".to_string(),
        }
    }
}

} // verus!

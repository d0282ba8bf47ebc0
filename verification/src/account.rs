//! The account vault: one encrypted record for each account, and the
//! session that says who is logged in. A record is written once, when the
//! account is created, and never changed afterwards.

use vstd::prelude::*;
use vstd::string::*;
use vstd::utf8::*;
use crate::crypto::{
    decrypt_spec,
    key_of_hex,
    nonce_of_hex,
    CryptoService,
    MAX_PLAINTEXT_BYTES,
};
use crate::errors::WalletError;
use crate::hexcodec::{hex_text, lemma_hex_round_trip};
use crate::json::{
    json_object_text,
    members_view,
    read_text,
    text_member,
    text_or_null,
    write_object,
    JsonValue,
    JsonValueView,
};
use crate::keys::{mnemonic_seed, secret_of_phrase, KeyManager, Wallet};
use crate::numeric::prefixed_hex;
use crate::text::{owned, same_text};

verus! {

/// The record of one account, as it is stored: the password and the
/// recovery phrase, each encrypted with a nonce of its own under the
/// account's key, and that key. Ciphertexts, nonces and key are hexadecimal
/// text.
///
/// The key stands beside what it encrypts: whoever can read the record can
/// decrypt it. The encryption guards against a glance, not against a reader
/// of the file.
#[derive(Debug, Clone)]
pub struct AccountRecord {
    pub account_name: String,
    pub encrypted_password: String,
    pub password_nonce: String,
    pub encrypted_seed_phrase: String,
    pub seed_nonce: String,
    pub encryption_key: String,
}

/// A record as plain values.
pub struct AccountRecordView {
    pub account_name: Seq<char>,
    pub encrypted_password: Seq<char>,
    pub password_nonce: Seq<char>,
    pub encrypted_seed_phrase: Seq<char>,
    pub seed_nonce: Seq<char>,
    pub encryption_key: Seq<char>,
}

impl View for AccountRecord {
    type V = AccountRecordView;

    open spec fn view(&self) -> AccountRecordView {
        AccountRecordView {
            account_name: self.account_name@,
            encrypted_password: self.encrypted_password@,
            password_nonce: self.password_nonce@,
            encrypted_seed_phrase: self.encrypted_seed_phrase@,
            seed_nonce: self.seed_nonce@,
            encryption_key: self.encryption_key@,
        }
    }
}

/// What a stored ciphertext decrypts to under a stored nonce and key:
/// `Parse` where key or nonce cannot be read back, else what decryption
/// gives.
pub open spec fn stored_secret(ciphertext: Seq<char>, nonce: Seq<char>, key: Seq<char>) -> Result<
    Seq<char>,
    WalletError,
> {
    if key_of_hex(key) is None || nonce_of_hex(nonce) is None {
        Err(WalletError::Parse)
    } else {
        decrypt_spec(ciphertext, key_of_hex(key).unwrap(), nonce_of_hex(nonce).unwrap())
    }
}

impl AccountRecordView {
    /// The password that the record holds.
    pub open spec fn password(self) -> Result<Seq<char>, WalletError> {
        stored_secret(self.encrypted_password, self.password_nonce, self.encryption_key)
    }

    /// The recovery phrase that the record holds.
    pub open spec fn seed_phrase(self) -> Result<Seq<char>, WalletError> {
        stored_secret(self.encrypted_seed_phrase, self.seed_nonce, self.encryption_key)
    }

    /// What a login with a password meets at this record.
    pub open spec fn login_result(self, password: Seq<char>) -> Result<(), WalletError> {
        match self.password() {
            Err(e) => Err(e),
            Ok(stored) => if stored == password {
                Ok(())
            } else {
                Err(WalletError::Authentication)
            },
        }
    }

    /// The private key that the record's recovery phrase stands for.
    pub open spec fn secret(self) -> Result<Seq<u8>, WalletError> {
        match self.seed_phrase() {
            Err(e) => Err(e),
            Ok(phrase) => match secret_of_phrase(phrase) {
                None => Err(WalletError::InvalidPhrase),
                Some(secret) => Ok(secret),
            },
        }
    }
}

impl AccountRecordView {
    /// The members of the record's JSON object.
    pub open spec fn json_members(self) -> Seq<(Seq<char>, JsonValueView)> {
        seq![
            ("account_name"@, JsonValueView::Text(self.account_name)),
            ("encrypted_password"@, JsonValueView::Text(self.encrypted_password)),
            ("password_nonce"@, JsonValueView::Text(self.password_nonce)),
            ("encrypted_seed_phrase"@, JsonValueView::Text(self.encrypted_seed_phrase)),
            ("seed_nonce"@, JsonValueView::Text(self.seed_nonce)),
            ("encryption_key"@, JsonValueView::Text(self.encryption_key)),
        ]
    }

    /// The record that a JSON text holds: an object with all six members,
    /// each a string.
    pub open spec fn of_json(text: Seq<char>) -> Option<AccountRecordView> {
        if text_member(text, "account_name"@) is Some && text_member(text, "encrypted_password"@)
            is Some && text_member(text, "password_nonce"@) is Some && text_member(
            text,
            "encrypted_seed_phrase"@,
        ) is Some && text_member(text, "seed_nonce"@) is Some && text_member(
            text,
            "encryption_key"@,
        ) is Some {
            Some(
                AccountRecordView {
                    account_name: text_member(text, "account_name"@).unwrap(),
                    encrypted_password: text_member(text, "encrypted_password"@).unwrap(),
                    password_nonce: text_member(text, "password_nonce"@).unwrap(),
                    encrypted_seed_phrase: text_member(text, "encrypted_seed_phrase"@).unwrap(),
                    seed_nonce: text_member(text, "seed_nonce"@).unwrap(),
                    encryption_key: text_member(text, "encryption_key"@).unwrap(),
                },
            )
        } else {
            None
        }
    }
}

/// The members of the session's JSON object.
pub open spec fn session_members(session: Option<Seq<char>>) -> Seq<(Seq<char>, JsonValueView)> {
    seq![("logged_in_account"@, text_or_null(session))]
}

impl AccountRecord {
    /// Reads a record from its JSON text. Fails with `Parse` where the text
    /// is no object with all six members, each a string.
    pub fn from_json(text: &str) -> (r: Result<AccountRecord, WalletError>)
        ensures
            r is Ok <==> AccountRecordView::of_json(text@) is Some,
            r matches Ok(record) ==> Some(record@) == AccountRecordView::of_json(text@),
            r matches Err(e) ==> e == WalletError::Parse,
    {
        let account_name = match read_text(text, "account_name") {
            None => { return Err(WalletError::Parse); },
            Some(s) => s,
        };
        let encrypted_password = match read_text(text, "encrypted_password") {
            None => { return Err(WalletError::Parse); },
            Some(s) => s,
        };
        let password_nonce = match read_text(text, "password_nonce") {
            None => { return Err(WalletError::Parse); },
            Some(s) => s,
        };
        let encrypted_seed_phrase = match read_text(text, "encrypted_seed_phrase") {
            None => { return Err(WalletError::Parse); },
            Some(s) => s,
        };
        let seed_nonce = match read_text(text, "seed_nonce") {
            None => { return Err(WalletError::Parse); },
            Some(s) => s,
        };
        let encryption_key = match read_text(text, "encryption_key") {
            None => { return Err(WalletError::Parse); },
            Some(s) => s,
        };
        Ok(
            AccountRecord {
                account_name,
                encrypted_password,
                password_nonce,
                encrypted_seed_phrase,
                seed_nonce,
                encryption_key,
            },
        )
    }

    /// The record as JSON text.
    pub fn to_json(&self) -> (text: String)
        ensures
            text@ == json_object_text(self@.json_members()),
    {
        let mut members: Vec<(String, JsonValue)> = Vec::new();
        members.push((owned("account_name"), JsonValue::Text(self.account_name.clone())));
        members.push(
            (owned("encrypted_password"), JsonValue::Text(self.encrypted_password.clone())),
        );
        members.push((owned("password_nonce"), JsonValue::Text(self.password_nonce.clone())));
        members.push(
            (owned("encrypted_seed_phrase"), JsonValue::Text(self.encrypted_seed_phrase.clone())),
        );
        members.push((owned("seed_nonce"), JsonValue::Text(self.seed_nonce.clone())));
        members.push((owned("encryption_key"), JsonValue::Text(self.encryption_key.clone())));
        proof {
            assert(members_view(members@) =~= self@.json_members());
        }
        write_object(&members)
    }
}

/// Whether some record has a name.
pub open spec fn holds_account(accounts: Seq<AccountRecordView>, name: Seq<char>) -> bool {
    exists|i: int| 0 <= i < accounts.len() && (#[trigger] accounts[i]).account_name == name
}

/// Where the record of a name stands, if there is one.
pub open spec fn account_index(accounts: Seq<AccountRecordView>, name: Seq<char>) -> int {
    choose|i: int| 0 <= i < accounts.len() && (#[trigger] accounts[i]).account_name == name
}

/// Whether no name stands twice.
pub open spec fn names_unique(accounts: Seq<AccountRecordView>) -> bool {
    forall|i: int, j: int|
        0 <= i < j < accounts.len() ==> (#[trigger] accounts[i]).account_name != (
        #[trigger] accounts[j]).account_name
}

/// The name under which the session is stored. A listing passes it over.
pub open spec fn session_name() -> Seq<char> {
    "state"@
}

/// The names that a listing shows: those of all records, in their order,
/// but for the name under which the session is stored.
pub open spec fn listed(accounts: Seq<AccountRecordView>) -> Seq<Seq<char>>
    decreases accounts.len(),
{
    if accounts.len() == 0 {
        Seq::empty()
    } else if accounts.last().account_name == session_name() {
        listed(accounts.drop_last())
    } else {
        listed(accounts.drop_last()).push(accounts.last().account_name)
    }
}

/// What an account reveals to its owner.
#[derive(Debug, Clone)]
pub struct AccountInfo {
    pub account_name: String,
    /// The address: `0x` and forty hexadecimal digits.
    pub address: String,
    /// The private key: sixty-four hexadecimal digits.
    pub private_key: String,
}

/// The vault: the records of all accounts, no name twice, and the name of
/// the account that is logged in, if any.
pub struct AccountService {
    accounts: Vec<AccountRecord>,
    session: Option<String>,
}

impl AccountService {
    /// The records, in the order in which they were added.
    pub closed spec fn accounts(&self) -> Seq<AccountRecordView> {
        Seq::new(self.accounts@.len(), |i: int| self.accounts@[i]@)
    }

    /// The name of the account that is logged in.
    pub closed spec fn session(&self) -> Option<Seq<char>> {
        match self.session {
            Some(name) => Some(name@),
            None => None,
        }
    }

    /// The vault's invariant: no name stands twice.
    pub open spec fn wf(&self) -> bool {
        names_unique(self.accounts())
    }

    /// The record of a name. Meant for a name that the vault holds.
    pub open spec fn record(&self, name: Seq<char>) -> AccountRecordView {
        self.accounts()[account_index(self.accounts(), name)]
    }

    /// What `account_info` and `get_wallet` find: the private key of the
    /// account that is logged in.
    pub open spec fn unlocked(&self) -> Result<Seq<u8>, WalletError> {
        match self.session() {
            None => Err(WalletError::NoSession),
            Some(name) => if !holds_account(self.accounts(), name) {
                Err(WalletError::NotFound)
            } else {
                self.record(name).secret()
            },
        }
    }

    /// An empty vault, with nobody logged in.
    pub fn new() -> (service: Self)
        ensures
            service.wf(),
            service.accounts().len() == 0,
            service.session() is None,
    {
        AccountService { accounts: Vec::new(), session: None }
    }

    fn find(&self, name: &str) -> (r: Option<usize>)
        requires
            self.wf(),
        ensures
            r is Some <==> holds_account(self.accounts(), name@),
            r is Some ==> r.unwrap() < self.accounts@.len() && r.unwrap() == account_index(
                self.accounts(),
                name@,
            ),
    {
        let mut i: usize = 0;
        while i < self.accounts.len()
            invariant
                self.wf(),
                i <= self.accounts@.len(),
                forall|j: int| 0 <= j < i ==> (#[trigger] self.accounts()[j]).account_name != name@,
            decreases self.accounts@.len() - i,
        {
            if same_text(self.accounts[i].account_name.as_str(), name) {
                proof {
                    lemma_account_index(self.accounts(), name@, i as int);
                }
                return Some(i);
            }
            i += 1;
        }
        None
    }

    /// Puts a record that was read from storage into the vault. Refused with
    /// `DuplicateAccount`, changing nothing, where the vault holds a record
    /// of that name already.
    pub fn load_account(&mut self, record: AccountRecord) -> (r: Result<(), WalletError>)
        requires
            old(self).wf(),
        ensures
            final(self).wf(),
            final(self).session() == old(self).session(),
            r is Ok <==> !holds_account(old(self).accounts(), record@.account_name),
            r is Ok ==> final(self).accounts() == old(self).accounts().push(record@),
            r is Err ==> r == Err::<(), WalletError>(WalletError::DuplicateAccount) && final(self).accounts() == old(self).accounts(),
    {
        if self.find(record.account_name.as_str()).is_some() {
            return Err(WalletError::DuplicateAccount);
        }
        let ghost before = self.accounts();
        let ghost added = record@;
        self.accounts.push(record);
        proof {
            assert(self.accounts() =~= before.push(added));
        }
        Ok(())
    }

    /// Sets the session as it was read from storage.
    pub fn load_session(&mut self, logged_in_account: Option<String>)
        ensures
            final(self).accounts() == old(self).accounts(),
            final(self).session() == match logged_in_account {
                Some(name) => Some(name@),
                None => None,
            },
    {
        self.session = logged_in_account;
        proof {
            assert(self.accounts() =~= old(self).accounts());
        }
    }

    /// Reads the name of the account that is logged in out of the session's
    /// JSON text. A text that is no JSON, or holds no such name, says that
    /// nobody is.
    pub fn session_from_json(text: &str) -> (r: Option<String>)
        ensures
            r is Some <==> text_member(text@, "logged_in_account"@) is Some,
            r is Some ==> Some(r.unwrap()@) == text_member(text@, "logged_in_account"@),
    {
        read_text(text, "logged_in_account")
    }

    /// The session as JSON text.
    pub fn session_to_json(&self) -> (text: String)
        ensures
            text@ == json_object_text(session_members(self.session())),
    {
        let value = match &self.session {
            Some(name) => JsonValue::Text(name.clone()),
            None => JsonValue::Null,
        };
        let mut members: Vec<(String, JsonValue)> = Vec::new();
        members.push((owned("logged_in_account"), value));
        proof {
            assert(members_view(members@) =~= session_members(self.session()));
        }
        write_object(&members)
    }

    /// The name of the account that is logged in, if any.
    pub fn logged_in_account(&self) -> (r: Option<&String>)
        ensures
            r is Some <==> self.session() is Some,
            r is Some ==> Some(r.unwrap()@) == self.session(),
    {
        match &self.session {
            Some(name) => Some(name),
            None => None,
        }
    }

    /// The record of an account, if the vault holds one of that name.
    pub fn get_account(&self, account_name: &str) -> (r: Option<&AccountRecord>)
        requires
            self.wf(),
        ensures
            r is Some <==> holds_account(self.accounts(), account_name@),
            r is Some ==> r.unwrap()@ == self.record(account_name@),
    {
        match self.find(account_name) {
            Some(i) => Some(&self.accounts[i]),
            None => None,
        }
    }

    /// Creates an account from a recovery phrase and a key that were drawn
    /// for it: checks the password against its confirmation and the name
    /// against the vault, encrypts password and phrase, each with a nonce of
    /// its own, and adds the record. Whatever fails, the vault stays as it
    /// was.
    pub fn create_account_with(
        &mut self,
        account_name: &str,
        password: &str,
        password_confirmation: &str,
        seed_phrase: &str,
        encryption_key: &[u8; 32],
    ) -> (r: Result<(), WalletError>)
        requires
            old(self).wf(),
        ensures
            final(self).wf(),
            final(self).session() == old(self).session(),
            r == Err::<(), WalletError>(WalletError::PasswordMismatch) <==> password@
                != password_confirmation@,
            r == Err::<(), WalletError>(WalletError::DuplicateAccount) <==> password@
                == password_confirmation@ && holds_account(old(self).accounts(), account_name@),
            r == Err::<(), WalletError>(WalletError::Encryption) <==> password@
                == password_confirmation@ && !holds_account(old(self).accounts(), account_name@) && (
            encode_utf8(seed_phrase@).len() > MAX_PLAINTEXT_BYTES || encode_utf8(password@).len()
                > MAX_PLAINTEXT_BYTES),
            r is Ok <==> password@ == password_confirmation@ && !holds_account(
                old(self).accounts(),
                account_name@,
            ) && encode_utf8(seed_phrase@).len() <= MAX_PLAINTEXT_BYTES && encode_utf8(
                password@,
            ).len() <= MAX_PLAINTEXT_BYTES,
            r is Err ==> final(self).accounts() == old(self).accounts(),
            r is Ok ==> final(self).accounts().len() == old(self).accounts().len() + 1
                && final(self).accounts().drop_last() == old(self).accounts(),
            r is Ok ==> ({
                let record = final(self).accounts().last();
                &&& record.account_name == account_name@
                &&& record.encryption_key == hex_text(encryption_key@)
                &&& record.password() == Ok::<Seq<char>, WalletError>(password@)
                &&& record.seed_phrase() == Ok::<Seq<char>, WalletError>(seed_phrase@)
            }),
    {
        if !same_text(password, password_confirmation) {
            return Err(WalletError::PasswordMismatch);
        }
        if self.find(account_name).is_some() {
            return Err(WalletError::DuplicateAccount);
        }
        let crypto_service = CryptoService {  };
        let encrypted_seed = match crypto_service.encrypt(seed_phrase, encryption_key) {
            Ok(pair) => pair,
            Err(_) => { return Err(WalletError::Encryption); },
        };
        let encrypted_password = match crypto_service.encrypt(password, encryption_key) {
            Ok(pair) => pair,
            Err(_) => { return Err(WalletError::Encryption); },
        };
        let record = AccountRecord {
            account_name: owned(account_name),
            encrypted_password: encrypted_password.0,
            password_nonce: crate::hexcodec::encode(encrypted_password.1.as_slice()),
            encrypted_seed_phrase: encrypted_seed.0,
            seed_nonce: crate::hexcodec::encode(encrypted_seed.1.as_slice()),
            encryption_key: crate::hexcodec::encode(encryption_key.as_slice()),
        };
        proof {
            lemma_hex_round_trip(encrypted_password.1@);
            lemma_hex_round_trip(encrypted_seed.1@);
            lemma_hex_round_trip(encryption_key@);
        }
        let ghost before = self.accounts();
        self.accounts.push(record);
        proof {
            assert(self.accounts() =~= before.push(record@));
            assert(self.accounts().drop_last() =~= before);
        }
        Ok(())
    }

    /// Creates an account: draws a recovery phrase and a key, stores the
    /// record and returns the phrase, which is shown once and stored
    /// nowhere in plain text. Refused with `PasswordMismatch` where the
    /// confirmation differs, else with `DuplicateAccount` where the name is
    /// taken, else with `Encryption` where the password is longer than the
    /// cipher accepts. Whatever fails, the vault stays as it was.
    pub fn create_account(&mut self, account_name: &str, password: &str, password_confirmation: &str) -> (r:
        Result<String, WalletError>)
        requires
            old(self).wf(),
        ensures
            final(self).wf(),
            final(self).session() == old(self).session(),
            password@ != password_confirmation@ ==> r == Err::<String, WalletError>(
                WalletError::PasswordMismatch,
            ),
            password@ == password_confirmation@ && holds_account(old(self).accounts(), account_name@)
                ==> r == Err::<String, WalletError>(WalletError::DuplicateAccount),
            password@ == password_confirmation@ && !holds_account(
                old(self).accounts(),
                account_name@,
            ) && encode_utf8(password@).len() > MAX_PLAINTEXT_BYTES ==> r == Err::<
                String,
                WalletError,
            >(WalletError::Encryption),
            r is Ok <==> password@ == password_confirmation@ && !holds_account(
                old(self).accounts(),
                account_name@,
            ) && encode_utf8(password@).len() <= MAX_PLAINTEXT_BYTES,
            r is Err ==> final(self).accounts() == old(self).accounts(),
            r is Ok ==> final(self).accounts().len() == old(self).accounts().len() + 1
                && final(self).accounts().drop_last() == old(self).accounts(),
            r is Ok ==> ({
                let record = final(self).accounts().last();
                &&& record.account_name == account_name@
                &&& record.password() == Ok::<Seq<char>, WalletError>(password@)
                &&& record.seed_phrase() == Ok::<Seq<char>, WalletError>(r.unwrap()@)
                &&& mnemonic_seed(r.unwrap()@) is Some
            }),
    {
        if !same_text(password, password_confirmation) {
            return Err(WalletError::PasswordMismatch);
        }
        let seed_phrase = KeyManager::generate_recovery_phrase();
        let encryption_key = CryptoService::generate_key();
        proof {
            is_ascii_chars_encode_utf8(seed_phrase@);
        }
        match self.create_account_with(
            account_name,
            password,
            password_confirmation,
            seed_phrase.as_str(),
            &encryption_key,
        ) {
            Ok(()) => Ok(seed_phrase),
            Err(e) => Err(e),
        }
    }

    /// Logs an account in: decrypts the stored password and compares it
    /// with the one given. Fails with `NotFound` where the vault holds no
    /// such account, and otherwise as the record decides: with
    /// `Authentication` on a wrong password. A failed login leaves the
    /// session as it was; a successful one replaces it.
    pub fn login(&mut self, account_name: &str, password: &str) -> (r: Result<(), WalletError>)
        requires
            old(self).wf(),
        ensures
            final(self).wf(),
            final(self).accounts() == old(self).accounts(),
            !holds_account(old(self).accounts(), account_name@) ==> r == Err::<(), WalletError>(
                WalletError::NotFound,
            ),
            holds_account(old(self).accounts(), account_name@) ==> r == old(self).record(
                account_name@,
            ).login_result(password@),
            r is Ok ==> final(self).session() == Some(account_name@),
            r is Err ==> final(self).session() == old(self).session(),
    {
        let i = match self.find(account_name) {
            None => { return Err(WalletError::NotFound); },
            Some(i) => i,
        };
        let stored = match Self::decrypt_stored(
            self.accounts[i].encrypted_password.as_str(),
            self.accounts[i].password_nonce.as_str(),
            self.accounts[i].encryption_key.as_str(),
        ) {
            Err(e) => { return Err(e); },
            Ok(text) => text,
        };
        if !same_text(stored.as_str(), password) {
            return Err(WalletError::Authentication);
        }
        self.session = Some(owned(account_name));
        proof {
            assert(self.accounts() =~= old(self).accounts());
        }
        Ok(())
    }

    /// Logs out. Fails with `NoSession` where nobody is logged in.
    pub fn logout(&mut self) -> (r: Result<(), WalletError>)
        ensures
            final(self).accounts() == old(self).accounts(),
            final(self).session() is None,
            r is Ok <==> old(self).session() is Some,
            r is Err ==> r == Err::<(), WalletError>(WalletError::NoSession),
    {
        let was = self.session.is_some();
        self.session = None;
        proof {
            assert(self.accounts() =~= old(self).accounts());
        }
        if was {
            Ok(())
        } else {
            Err(WalletError::NoSession)
        }
    }

    /// The names of the accounts, in the order in which they were added. A
    /// record under the name of the session's own storage is passed over.
    pub fn list(&self) -> (names: Vec<String>)
        ensures
            names@.len() == listed(self.accounts()).len(),
            forall|i: int| 0 <= i < names@.len() ==> (#[trigger] names@[i])@ == listed(
                self.accounts(),
            )[i],
    {
        let mut names: Vec<String> = Vec::new();
        let mut i: usize = 0;
        proof {
            assert(self.accounts().take(0) =~= Seq::<AccountRecordView>::empty());
        }
        while i < self.accounts.len()
            invariant
                i <= self.accounts@.len(),
                self.accounts().len() == self.accounts@.len(),
                names@.len() == listed(self.accounts().take(i as int)).len(),
                forall|j: int| 0 <= j < names@.len() ==> (#[trigger] names@[j])@ == listed(
                    self.accounts().take(i as int),
                )[j],
            decreases self.accounts@.len() - i,
        {
            proof {
                let next = self.accounts().take(i + 1);
                assert(next.drop_last() =~= self.accounts().take(i as int));
                assert(next.last() == self.accounts@[i as int]@);
            }
            if !same_text(self.accounts[i].account_name.as_str(), "state") {
                names.push(self.accounts[i].account_name.clone());
            }
            i += 1;
        }
        proof {
            assert(self.accounts().take(i as int) =~= self.accounts());
        }
        names
    }

    fn decrypt_stored(ciphertext: &str, nonce: &str, key: &str) -> (r: Result<String, WalletError>)
        ensures
            r is Ok <==> stored_secret(ciphertext@, nonce@, key@) is Ok,
            r matches Ok(text) ==> stored_secret(ciphertext@, nonce@, key@) == Ok::<
                Seq<char>,
                WalletError,
            >(text@),
            r matches Err(e) ==> stored_secret(ciphertext@, nonce@, key@) == Err::<
                Seq<char>,
                WalletError,
            >(e),
    {
        let key_bytes = match CryptoService::hex_to_key(key) {
            Err(_) => { return Err(WalletError::Parse); },
            Ok(bytes) => bytes,
        };
        let nonce_bytes = match CryptoService::hex_to_nonce(nonce) {
            Err(_) => { return Err(WalletError::Parse); },
            Ok(bytes) => bytes,
        };
        CryptoService::decrypt(ciphertext, &key_bytes, &nonce_bytes)
    }

    /// The signing identity of the account that is logged in: decrypts its
    /// recovery phrase and derives the key again. Fails with `NoSession`
    /// where nobody is logged in, with `NotFound` where the account's
    /// record is missing, and otherwise as the record decides.
    pub fn unlock(&self) -> (r: Result<Wallet, WalletError>)
        requires
            self.wf(),
        ensures
            r is Ok <==> self.unlocked() is Ok,
            r matches Ok(wallet) ==> wallet.wf() && self.unlocked() == Ok::<Seq<u8>, WalletError>(
                wallet.secret(),
            ),
            r matches Err(e) ==> self.unlocked() == Err::<Seq<u8>, WalletError>(e),
    {
        let name = match &self.session {
            None => { return Err(WalletError::NoSession); },
            Some(name) => name,
        };
        let i = match self.find(name.as_str()) {
            None => { return Err(WalletError::NotFound); },
            Some(i) => i,
        };
        let phrase = match Self::decrypt_stored(
            self.accounts[i].encrypted_seed_phrase.as_str(),
            self.accounts[i].seed_nonce.as_str(),
            self.accounts[i].encryption_key.as_str(),
        ) {
            Err(e) => { return Err(e); },
            Ok(text) => text,
        };
        KeyManager::derive_signing_key(phrase.as_str())
    }

    /// The signing identity of the account that is logged in, if there is
    /// one and it can be unlocked.
    pub fn get_wallet(&self) -> (r: Option<Wallet>)
        requires
            self.wf(),
        ensures
            r is Some <==> self.unlocked() is Ok,
            r matches Some(wallet) ==> wallet.wf() && self.unlocked() == Ok::<Seq<u8>, WalletError>(
                wallet.secret(),
            ),
    {
        match self.unlock() {
            Ok(wallet) => Some(wallet),
            Err(_) => None,
        }
    }

    /// Reveals the account that is logged in: its name, its address and its
    /// private key. Fails as `unlock` does.
    pub fn account_info(&self) -> (r: Result<AccountInfo, WalletError>)
        requires
            self.wf(),
        ensures
            r is Ok <==> self.unlocked() is Ok,
            r matches Err(e) ==> self.unlocked() == Err::<Seq<u8>, WalletError>(e),
            r matches Ok(info) ==> ({
                let secret = self.unlocked().unwrap();
                &&& Some(info.account_name@) == self.session()
                &&& info.private_key@ == hex_text(secret)
                &&& info.address@ == prefixed_hex(crate::keys::secret_address(secret))
            }),
    {
        let wallet = match self.unlock() {
            Err(e) => { return Err(e); },
            Ok(wallet) => wallet,
        };
        let name = match &self.session {
            None => { return Err(WalletError::NoSession); },
            Some(name) => name.clone(),
        };
        let key = wallet.private_key();
        Ok(
            AccountInfo {
                account_name: name,
                address: wallet.get_address().to_text(),
                private_key: crate::hexcodec::encode(key.as_slice()),
            },
        )
    }
}

/// With no name standing twice, the record of a name stands where the name
/// is found.
pub proof fn lemma_account_index(accounts: Seq<AccountRecordView>, name: Seq<char>, i: int)
    requires
        names_unique(accounts),
        0 <= i < accounts.len(),
        accounts[i].account_name == name,
    ensures
        holds_account(accounts, name),
        account_index(accounts, name) == i,
{
    let j = account_index(accounts, name);
    if j < i {
        assert(accounts[j].account_name != accounts[i].account_name);
    } else if i < j {
        assert(accounts[i].account_name != accounts[j].account_name);
    }
}

/// A login with the password that an account was created with succeeds, and
/// one with any other password is refused with `Authentication`. The key
/// that the account reveals is the one that its recovery phrase stands
/// for, whenever it is asked.
pub proof fn lemma_login_after_create(
    record: AccountRecordView,
    created_with: Seq<char>,
    seed_phrase: Seq<char>,
    password: Seq<char>,
)
    requires
        record.password() == Ok::<Seq<char>, WalletError>(created_with),
        record.seed_phrase() == Ok::<Seq<char>, WalletError>(seed_phrase),
    ensures
        password == created_with ==> record.login_result(password) == Ok::<(), WalletError>(()),
        password != created_with ==> record.login_result(password) == Err::<(), WalletError>(
            WalletError::Authentication,
        ),
        record.secret() == match secret_of_phrase(seed_phrase) {
            Some(secret) => Ok::<Seq<u8>, WalletError>(secret),
            None => Err::<Seq<u8>, WalletError>(WalletError::InvalidPhrase),
        },
{
}

} // verus!

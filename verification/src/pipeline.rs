//! The sending of a transaction, step by step. The driver performs what
//! each step asks of the provider and hands the reply back; everything that
//! is decided is decided here.
//!
//! A send passes through `Draft`, `GasPriced`, `GasLimited`, `Nonced`,
//! `ChainBound`, `Signed` and `Broadcast`. Nonce and chain id always come
//! from the provider, gas price and gas limit whenever the caller gave
//! none. `ChainBound` is passed through within the step that signs.

use vstd::prelude::*;
use vstd::string::*;
use ethers::types::U256 as EthU256;
use ethers::signers::LocalWallet;
use ethers::types::transaction::eip2718::TypedTransaction;
use ethers::types::{Eip1559TransactionRequest, TransactionRequest, H160};
use ethers::providers::{Http, Provider};
use crate::errors::WalletError;
use crate::keys::Wallet;
use crate::numeric::{
    decimal_text,
    be_bytes,
    lemma_be_bytes_of_be_nat,
    decimal_value,
    fixed_hash_of,
    is_amount_text,
    prefixed_hex,
    Address,
    TxHash,
    U256,
};
use crate::text::owned;
use crate::transaction::{
    amount_or_zero,
    balance_call_data,
    encode_balance_of,
    HistoryLine,
    encode_transfer,
    record_of,
    text_view,
    transfer_call_data,
    StoredTransaction,
    StoredTransactionView,
    TransactionKind,
    TransactionView,
    UnsignedTransaction,
};

verus! {

/// The smallest units in one whole unit of the native asset.
pub const WEI_PER_ETH: u64 = 1_000_000_000_000_000_000;

/// The largest chain id that a signature can be bound to.
pub const MAX_CHAIN_ID: u64 = 0x7FFF_FFFF_FFFF_FFED;

/// The wire encoding of a legacy transaction with its signature under a
/// private key; `None` where the key yields no signature.
pub uninterp spec fn legacy_signed(
    secret: Seq<u8>,
    to: Seq<u8>,
    value: nat,
    data: Seq<u8>,
    gas_price: nat,
    gas: nat,
    nonce: nat,
    chain_id: u64,
) -> Option<Seq<u8>>;

/// The wire encoding of a fee-market transaction, both fees alike and no
/// access list, with its signature under a private key; `None` where the
/// key yields no signature.
pub uninterp spec fn fee_market_signed(
    secret: Seq<u8>,
    to: Seq<u8>,
    value: nat,
    data: Seq<u8>,
    fee: nat,
    gas: nat,
    nonce: nat,
    chain_id: u64,
) -> Option<Seq<u8>>;

/// Whether a text parses as the address of a provider.
pub uninterp spec fn is_provider_url(url: Seq<char>) -> bool;

/// `LocalWallet::sign_transaction_sync` and `TypedTransaction::rlp_signed`
/// on a legacy transaction: the signed wire encoding, which depends on the
/// key and the transaction's fields alone. Nothing is claimed of when the
/// key yields a signature. Believed of the `ethers` crate, not proved.
#[verifier::external_body]
fn sign_legacy(
    secret: &[u8; 32],
    to: &Address,
    value: &U256,
    data: &Vec<u8>,
    gas_price: &U256,
    gas: &U256,
    nonce: &U256,
    chain_id: u64,
) -> (signed: Option<Vec<u8>>)
    requires
        chain_id <= MAX_CHAIN_ID,
    ensures
        signed is Some <==> legacy_signed(
            secret@,
            to@,
            value.value(),
            data@,
            gas_price.value(),
            gas.value(),
            nonce.value(),
            chain_id,
        ) is Some,
        signed is Some ==> Some(signed.unwrap()@) == legacy_signed(
            secret@,
            to@,
            value.value(),
            data@,
            gas_price.value(),
            gas.value(),
            nonce.value(),
            chain_id,
        ),
{
    let tx: TypedTransaction = TransactionRequest::new()
        .to(H160(to.bytes))
        .value(EthU256::from_big_endian(&value.bytes))
        .data(data.clone())
        .gas_price(EthU256::from_big_endian(&gas_price.bytes))
        .gas(EthU256::from_big_endian(&gas.bytes))
        .nonce(EthU256::from_big_endian(&nonce.bytes))
        .chain_id(chain_id)
        .into();
    let wallet = LocalWallet::from_bytes(secret).ok()?;
    let signature = wallet.sign_transaction_sync(&tx).ok()?;
    Some(tx.rlp_signed(&signature).to_vec())
}

/// `LocalWallet::sign_transaction_sync` and `TypedTransaction::rlp_signed`
/// on a fee-market transaction whose two fees are alike: the signed wire
/// encoding, which depends on the key and the transaction's fields alone.
/// Nothing is claimed of when the key yields a signature. Believed of the
/// `ethers` crate, not proved.
#[verifier::external_body]
fn sign_fee_market(
    secret: &[u8; 32],
    to: &Address,
    value: &U256,
    data: &Vec<u8>,
    fee: &U256,
    gas: &U256,
    nonce: &U256,
    chain_id: u64,
) -> (signed: Option<Vec<u8>>)
    requires
        chain_id <= MAX_CHAIN_ID,
    ensures
        signed is Some <==> fee_market_signed(
            secret@,
            to@,
            value.value(),
            data@,
            fee.value(),
            gas.value(),
            nonce.value(),
            chain_id,
        ) is Some,
        signed is Some ==> Some(signed.unwrap()@) == fee_market_signed(
            secret@,
            to@,
            value.value(),
            data@,
            fee.value(),
            gas.value(),
            nonce.value(),
            chain_id,
        ),
{
    let tx: TypedTransaction = Eip1559TransactionRequest::new()
        .to(H160(to.bytes))
        .value(EthU256::from_big_endian(&value.bytes))
        .data(data.clone())
        .max_fee_per_gas(EthU256::from_big_endian(&fee.bytes))
        .max_priority_fee_per_gas(EthU256::from_big_endian(&fee.bytes))
        .gas(EthU256::from_big_endian(&gas.bytes))
        .nonce(EthU256::from_big_endian(&nonce.bytes))
        .chain_id(chain_id)
        .into();
    let wallet = LocalWallet::from_bytes(secret).ok()?;
    let signature = wallet.sign_transaction_sync(&tx).ok()?;
    Some(tx.rlp_signed(&signature).to_vec())
}

/// `Provider::<Http>::try_from` on a text: whether it parses as the address
/// of a provider, which depends on the text alone. Believed of the `ethers`
/// crate, not proved.
#[verifier::external_body]
fn provider_url_parses(url: &str) -> (ok: bool)
    ensures
        ok == is_provider_url(url@),
{
    Provider::<Http>::try_from(url).is_ok()
}

/// Where a send stands.
#[derive(Clone, Copy, Debug, PartialEq, Eq, Structural)]
pub enum Stage {
    Draft,
    GasPriced,
    GasLimited,
    Nonced,
    ChainBound,
    Signed,
    Broadcast,
    Failed,
}

/// What the provider answered.
#[derive(Debug, Clone)]
pub enum ProviderReply {
    GasPrice(U256),
    GasEstimate(U256),
    TransactionCount(U256),
    ChainId(U256),
    TransactionHash(TxHash),
    /// The call failed.
    Failure,
}

/// A reply as plain values.
pub enum ReplyView {
    GasPrice(nat),
    GasEstimate(nat),
    TransactionCount(nat),
    ChainId(nat),
    TransactionHash(Seq<u8>),
    Failure,
}

impl View for ProviderReply {
    type V = ReplyView;

    open spec fn view(&self) -> ReplyView {
        match *self {
            ProviderReply::GasPrice(v) => ReplyView::GasPrice(v.value()),
            ProviderReply::GasEstimate(v) => ReplyView::GasEstimate(v.value()),
            ProviderReply::TransactionCount(v) => ReplyView::TransactionCount(v.value()),
            ProviderReply::ChainId(v) => ReplyView::ChainId(v.value()),
            ProviderReply::TransactionHash(h) => ReplyView::TransactionHash(h@),
            ProviderReply::Failure => ReplyView::Failure,
        }
    }
}

/// What the driver is to do next.
#[derive(Debug, Clone)]
pub enum Action {
    /// Ask the provider for the current gas price.
    GetGasPrice,
    /// Ask the provider to estimate the gas of the drafted call.
    EstimateGas(UnsignedTransaction),
    /// Ask the provider for the sender's transaction count.
    GetTransactionCount(Address),
    /// Ask the provider for its chain id.
    GetChainId,
    /// Submit the signed bytes to the provider.
    SendRawTransaction(Vec<u8>),
    /// The send is done: append the record to the history and report the
    /// hash.
    Finish { hash: String, record: StoredTransaction },
    /// The send failed. Nothing is to be recorded.
    Abort(WalletError),
}

/// An action as plain values.
pub enum ActionView {
    GetGasPrice,
    EstimateGas(TransactionView),
    GetTransactionCount(Seq<u8>),
    GetChainId,
    SendRawTransaction(Seq<u8>),
    Finish { hash: Seq<char>, record: StoredTransactionView },
    Abort(WalletError),
}

impl View for Action {
    type V = ActionView;

    open spec fn view(&self) -> ActionView {
        match *self {
            Action::GetGasPrice => ActionView::GetGasPrice,
            Action::EstimateGas(tx) => ActionView::EstimateGas(tx@),
            Action::GetTransactionCount(a) => ActionView::GetTransactionCount(a@),
            Action::GetChainId => ActionView::GetChainId,
            Action::SendRawTransaction(bytes) => ActionView::SendRawTransaction(bytes@),
            Action::Finish { hash, record } => ActionView::Finish { hash: hash@, record: record@ },
            Action::Abort(e) => ActionView::Abort(e),
        }
    }
}

/// Data that may be absent, or none in their place.
pub open spec fn or_empty(data: Option<Seq<u8>>) -> Seq<u8> {
    match data {
        Some(d) => d,
        None => Seq::empty(),
    }
}

/// Whether a transaction has all that a signature covers.
pub open spec fn is_complete(tx: TransactionView) -> bool {
    &&& tx.kind != TransactionKind::Eip2930
    &&& tx.to is Some
    &&& tx.gas_price is Some
    &&& tx.gas is Some
    &&& tx.nonce is Some
    &&& tx.chain_id is Some
    &&& tx.chain_id.unwrap() <= MAX_CHAIN_ID
}

/// The signed wire encoding of a complete transaction under a private key.
pub open spec fn signed_encoding(secret: Seq<u8>, tx: TransactionView) -> Option<Seq<u8>> {
    if tx.kind == TransactionKind::Legacy {
        legacy_signed(
            secret,
            tx.to.unwrap(),
            amount_or_zero(tx.value),
            or_empty(tx.data),
            tx.gas_price.unwrap(),
            tx.gas.unwrap(),
            tx.nonce.unwrap(),
            tx.chain_id.unwrap(),
        )
    } else {
        fee_market_signed(
            secret,
            tx.to.unwrap(),
            amount_or_zero(tx.value),
            or_empty(tx.data),
            tx.gas_price.unwrap(),
            tx.gas.unwrap(),
            tx.nonce.unwrap(),
            tx.chain_id.unwrap(),
        )
    }
}

/// A send as plain values.
pub struct PipelineView {
    pub stage: Stage,
    pub tx: TransactionView,
    /// The gas limit as the caller gave it, read once the gas price is
    /// known.
    pub gas_limit: Option<Seq<char>>,
    pub secret: Seq<u8>,
    pub signed: Seq<u8>,
    pub hash: Option<Seq<u8>>,
    pub error: Option<WalletError>,
}

impl PipelineView {
    /// The send's invariant: each stage has what the stages before it
    /// resolved.
    pub open spec fn wf(self) -> bool {
        &&& self.stage != Stage::ChainBound
        &&& self.tx.kind != TransactionKind::Eip2930
        &&& self.tx.from is Some
        &&& self.tx.to is Some
        &&& self.stage == Stage::Draft ==> self.tx.gas_price is None
        &&& self.stage == Stage::Draft || self.stage == Stage::GasPriced ==> self.tx.gas is None
        &&& self.stage == Stage::Draft || self.stage == Stage::GasPriced || self.stage
            == Stage::GasLimited ==> self.tx.nonce is None
        &&& self.stage == Stage::Draft || self.stage == Stage::GasPriced || self.stage
            == Stage::GasLimited || self.stage == Stage::Nonced ==> self.tx.chain_id is None
        &&& self.stage == Stage::GasPriced || self.stage == Stage::GasLimited || self.stage
            == Stage::Nonced ==> self.tx.gas_price is Some
        &&& self.stage == Stage::GasLimited || self.stage == Stage::Nonced ==> self.tx.gas is Some
        &&& self.stage == Stage::Nonced ==> self.tx.nonce is Some
        &&& self.stage == Stage::Signed || self.stage == Stage::Broadcast ==> is_complete(self.tx)
            && signed_encoding(self.secret, self.tx) == Some(self.signed)
        &&& self.stage == Stage::Broadcast ==> self.hash is Some
        &&& self.stage == Stage::Failed <==> self.error is Some
    }

    /// The send, failed.
    pub open spec fn fail(self, error: WalletError) -> PipelineView {
        PipelineView { stage: Stage::Failed, error: Some(error), ..self }
    }

    /// The send with its gas limit.
    pub open spec fn limited(self, gas: nat) -> PipelineView {
        PipelineView {
            stage: Stage::GasLimited,
            tx: TransactionView { gas: Some(gas), ..self.tx },
            ..self
        }
    }

    /// The send with its gas price, and with the caller's gas limit where
    /// one was given: a gas limit that does not read as an amount fails the
    /// send with `Validation`.
    pub open spec fn priced(self, gas_price: nat) -> PipelineView {
        let priced = PipelineView {
            stage: Stage::GasPriced,
            tx: TransactionView { gas_price: Some(gas_price), ..self.tx },
            ..self
        };
        match self.gas_limit {
            None => priced,
            Some(text) => if is_amount_text(text) {
                priced.limited(decimal_value(text))
            } else {
                priced.fail(WalletError::Validation)
            },
        }
    }

    /// The send with its nonce.
    pub open spec fn nonced(self, nonce: nat) -> PipelineView {
        PipelineView {
            stage: Stage::Nonced,
            tx: TransactionView { nonce: Some(nonce), ..self.tx },
            ..self
        }
    }

    /// The send bound to a chain and signed: a chain id that no signature
    /// can be bound to fails it with `Network`, a key that yields no
    /// signature with `Signing`.
    pub open spec fn chain_bound(self, chain_id: nat) -> PipelineView {
        if chain_id > MAX_CHAIN_ID {
            self.fail(WalletError::Network)
        } else {
            let tx = TransactionView { chain_id: Some(chain_id as u64), ..self.tx };
            match signed_encoding(self.secret, tx) {
                Some(signed) => PipelineView { stage: Stage::Signed, tx, signed, ..self },
                None => PipelineView { tx, ..self }.fail(WalletError::Signing),
            }
        }
    }

    /// The send with the hash under which it was accepted.
    pub open spec fn broadcast(self, hash: Seq<u8>) -> PipelineView {
        PipelineView { stage: Stage::Broadcast, hash: Some(hash), ..self }
    }

    /// The send after a reply. A failed call, or a reply that the stage did
    /// not ask for, fails the send with `Network`; a send that is done or
    /// has failed stays as it is.
    pub open spec fn after(self, reply: ReplyView) -> PipelineView {
        match (self.stage, reply) {
            (Stage::Broadcast, _) => self,
            (Stage::Failed, _) => self,
            (Stage::Draft, ReplyView::GasPrice(price)) => self.priced(price),
            (Stage::GasPriced, ReplyView::GasEstimate(gas)) => self.limited(gas),
            (Stage::GasLimited, ReplyView::TransactionCount(nonce)) => self.nonced(nonce),
            (Stage::Nonced, ReplyView::ChainId(id)) => self.chain_bound(id),
            (Stage::Signed, ReplyView::TransactionHash(hash)) => self.broadcast(hash),
            _ => self.fail(WalletError::Network),
        }
    }

    /// What the send asks of the driver.
    pub open spec fn action(self) -> ActionView {
        match self.stage {
            Stage::Draft => ActionView::GetGasPrice,
            Stage::GasPriced => ActionView::EstimateGas(self.tx),
            Stage::GasLimited => ActionView::GetTransactionCount(self.tx.from.unwrap()),
            Stage::Nonced => ActionView::GetChainId,
            Stage::ChainBound => ActionView::Abort(WalletError::Signing),
            Stage::Signed => ActionView::SendRawTransaction(self.signed),
            Stage::Broadcast => ActionView::Finish {
                hash: prefixed_hex(self.hash.unwrap()),
                record: record_of(self.tx),
            },
            Stage::Failed => ActionView::Abort(self.error.unwrap()),
        }
    }

    /// The send after a run of replies, the first one first.
    pub open spec fn run(self, replies: Seq<ReplyView>) -> PipelineView
        decreases replies.len(),
    {
        if replies.len() == 0 {
            self
        } else {
            self.run(replies.drop_last()).after(replies.last())
        }
    }
}

/// The gas price that a caller's text gives: its number where it reads as
/// an amount; none where there is no text or it does not read as one.
pub open spec fn usable_gas_price(gas_price: Option<Seq<char>>) -> Option<nat> {
    match gas_price {
        Some(text) => if is_amount_text(text) {
            Some(decimal_value(text))
        } else {
            None
        },
        None => None,
    }
}

/// A draft with the caller's gas price, where there is one: then an
/// unreadable gas limit refuses the send at once.
pub open spec fn started(draft: PipelineView, gas_price: Option<nat>) -> Result<
    PipelineView,
    WalletError,
> {
    match gas_price {
        None => Ok(draft),
        Some(price) => if draft.priced(price).stage == Stage::Failed {
            Err(WalletError::Validation)
        } else {
            Ok(draft.priced(price))
        },
    }
}

/// The draft of a send: nothing resolved, nothing signed.
pub open spec fn draft_of(
    kind: TransactionKind,
    secret: Seq<u8>,
    from: Seq<u8>,
    to: Seq<u8>,
    value: Option<nat>,
    data: Option<Seq<u8>>,
    gas_limit: Option<Seq<char>>,
) -> PipelineView {
    PipelineView {
        stage: Stage::Draft,
        tx: TransactionView {
            kind,
            from: Some(from),
            to: Some(to),
            value,
            gas: None,
            gas_price: None,
            nonce: None,
            chain_id: None,
            data,
        },
        gas_limit,
        secret,
        signed: Seq::empty(),
        hash: None,
        error: None,
    }
}

/// One send on its way.
pub struct SendPipeline {
    stage: Stage,
    tx: UnsignedTransaction,
    gas_limit: Option<String>,
    secret: [u8; 32],
    signed: Vec<u8>,
    hash: Option<TxHash>,
    error: Option<WalletError>,
}

impl View for SendPipeline {
    type V = PipelineView;

    closed spec fn view(&self) -> PipelineView {
        PipelineView {
            stage: self.stage,
            tx: self.tx@,
            gas_limit: text_view(self.gas_limit),
            secret: self.secret@,
            signed: self.signed@,
            hash: match self.hash {
                Some(h) => Some(h@),
                None => None,
            },
            error: self.error,
        }
    }
}

impl SendPipeline {
    /// Where the send stands.
    pub fn stage(&self) -> (stage: Stage)
        ensures
            stage == self@.stage,
    {
        self.stage
    }

    /// The transaction as far as it is resolved.
    pub fn transaction(&self) -> (tx: UnsignedTransaction)
        ensures
            tx@ == self@.tx,
    {
        self.tx.copy()
    }

    /// The signed wire encoding, once the send is signed.
    pub fn signed_bytes(&self) -> (r: Option<Vec<u8>>)
        ensures
            r is Some <==> self@.stage == Stage::Signed || self@.stage == Stage::Broadcast,
            r is Some ==> r.unwrap()@ == self@.signed,
    {
        match self.stage {
            Stage::Signed => Some(self.signed.clone()),
            Stage::Broadcast => Some(self.signed.clone()),
            _ => None,
        }
    }

    fn fail(&mut self, error: WalletError)
        ensures
            final(self)@ == old(self)@.fail(error),
    {
        self.stage = Stage::Failed;
        self.error = Some(error);
    }

    fn set_limited(&mut self, gas: U256)
        ensures
            final(self)@ == old(self)@.limited(gas.value()),
    {
        self.stage = Stage::GasLimited;
        self.tx.gas = Some(gas);
    }

    fn set_priced(&mut self, gas_price: U256)
        ensures
            final(self)@ == old(self)@.priced(gas_price.value()),
    {
        self.stage = Stage::GasPriced;
        self.tx.gas_price = Some(gas_price);
        let parsed = match &self.gas_limit {
            None => { return ; },
            Some(text) => U256::from_dec_str(text.as_str()),
        };
        match parsed {
            Some(gas) => self.set_limited(gas),
            None => self.fail(WalletError::Validation),
        }
    }

    fn set_chain_bound(&mut self, chain_id: U256)
        requires
            old(self)@.wf(),
            old(self)@.stage == Stage::Nonced,
        ensures
            final(self)@ == old(self)@.chain_bound(chain_id.value()),
    {
        let id = match chain_id.as_u64() {
            None => {
                self.fail(WalletError::Network);
                return ;
            },
            Some(id) => id,
        };
        if id > MAX_CHAIN_ID {
            self.fail(WalletError::Network);
            return ;
        }
        self.tx.chain_id = Some(id);
        let to = self.tx.to.unwrap();
        let value = match self.tx.value {
            Some(v) => v,
            None => U256::from_u64(0),
        };
        let no_data: Vec<u8> = Vec::new();
        let data = match &self.tx.data {
            Some(d) => d,
            None => &no_data,
        };
        let gas_price = self.tx.gas_price.unwrap();
        let gas = self.tx.gas.unwrap();
        let nonce = self.tx.nonce.unwrap();
        let signed = match self.tx.kind {
            TransactionKind::Legacy => sign_legacy(
                &self.secret,
                &to,
                &value,
                data,
                &gas_price,
                &gas,
                &nonce,
                id,
            ),
            _ => sign_fee_market(&self.secret, &to, &value, data, &gas_price, &gas, &nonce, id),
        };
        match signed {
            Some(bytes) => {
                self.stage = Stage::Signed;
                self.signed = bytes;
            },
            None => self.fail(WalletError::Signing),
        }
    }

    /// Takes the provider's reply to what the send asked for and moves the
    /// send on.
    pub fn advance(&mut self, reply: ProviderReply)
        requires
            old(self)@.wf(),
        ensures
            final(self)@ == old(self)@.after(reply@),
            final(self)@.wf(),
    {
        match self.stage {
            Stage::Broadcast => {},
            Stage::Failed => {},
            Stage::Draft => match reply {
                ProviderReply::GasPrice(price) => self.set_priced(price),
                _ => self.fail(WalletError::Network),
            },
            Stage::GasPriced => match reply {
                ProviderReply::GasEstimate(gas) => self.set_limited(gas),
                _ => self.fail(WalletError::Network),
            },
            Stage::GasLimited => match reply {
                ProviderReply::TransactionCount(nonce) => {
                    self.stage = Stage::Nonced;
                    self.tx.nonce = Some(nonce);
                },
                _ => self.fail(WalletError::Network),
            },
            Stage::Nonced => match reply {
                ProviderReply::ChainId(id) => self.set_chain_bound(id),
                _ => self.fail(WalletError::Network),
            },
            Stage::Signed => match reply {
                ProviderReply::TransactionHash(hash) => {
                    self.stage = Stage::Broadcast;
                    self.hash = Some(hash);
                },
                _ => self.fail(WalletError::Network),
            },
            Stage::ChainBound => self.fail(WalletError::Network),
        }
    }

    /// What the driver is to do next.
    pub fn action(&self) -> (action: Action)
        requires
            self@.wf(),
        ensures
            action@ == self@.action(),
    {
        match self.stage {
            Stage::Draft => Action::GetGasPrice,
            Stage::GasPriced => Action::EstimateGas(self.tx.copy()),
            Stage::GasLimited => Action::GetTransactionCount(self.tx.from.unwrap()),
            Stage::Nonced => Action::GetChainId,
            Stage::ChainBound => Action::Abort(WalletError::Signing),
            Stage::Signed => Action::SendRawTransaction(self.signed.clone()),
            Stage::Broadcast => Action::Finish {
                hash: self.hash.unwrap().to_text(),
                record: StoredTransaction::from_typed_transaction(&self.tx),
            },
            Stage::Failed => Action::Abort(self.error.unwrap()),
        }
    }
}

/// What asks for a token's balance of an owner: the token's contract and
/// the call data.
#[derive(Debug, Clone)]
pub struct BalanceCall {
    pub token: Address,
    pub data: Vec<u8>,
}

/// The sender of transactions: the address of the provider and the
/// signing identity, once each is set.
pub struct TransactionService {
    provider: Option<String>,
    wallet: Option<Wallet>,
}

impl TransactionService {
    /// The address of the provider.
    pub closed spec fn provider(&self) -> Option<Seq<char>> {
        text_view(self.provider)
    }

    /// Whether a signing identity is set.
    pub closed spec fn has_wallet(&self) -> bool {
        self.wallet is Some
    }

    /// The private key of the signing identity.
    pub closed spec fn secret(&self) -> Seq<u8> {
        self.wallet.unwrap().secret()
    }

    /// The address of the signing identity.
    pub closed spec fn address(&self) -> Seq<u8> {
        self.wallet.unwrap().address()
    }

    /// The service's invariant: the signing identity, where one is set, is
    /// well formed.
    pub closed spec fn wf(&self) -> bool {
        self.wallet is Some ==> self.wallet.unwrap().wf()
    }

    /// What `check_ready` finds: `NoProvider` without a provider, else
    /// `NoWallet` without a signing identity.
    pub open spec fn ready(&self) -> Result<(), WalletError> {
        if self.provider() is None {
            Err(WalletError::NoProvider)
        } else if !self.has_wallet() {
            Err(WalletError::NoWallet)
        } else {
            Ok(())
        }
    }

    /// What `send` returns.
    pub open spec fn send_spec(
        &self,
        to: Seq<char>,
        value: Seq<char>,
        gas_price: Option<Seq<char>>,
        gas_limit: Option<Seq<char>>,
    ) -> Result<PipelineView, WalletError> {
        if fixed_hash_of(to, 20) is None || !is_amount_text(value) {
            Err(WalletError::Validation)
        } else if self.ready() is Err {
            Err(self.ready().unwrap_err())
        } else {
            started(
                draft_of(
                    TransactionKind::Legacy,
                    self.secret(),
                    self.address(),
                    fixed_hash_of(to, 20).unwrap(),
                    Some(decimal_value(value)),
                    None,
                    gas_limit,
                ),
                usable_gas_price(gas_price),
            )
        }
    }

    /// What `send_token` returns.
    pub open spec fn send_token_spec(
        &self,
        to: Seq<char>,
        value: Seq<char>,
        token_address: Seq<char>,
        gas_price: Option<Seq<char>>,
        gas_limit: Option<Seq<char>>,
    ) -> Result<PipelineView, WalletError> {
        if fixed_hash_of(to, 20) is None || !is_amount_text(value) {
            Err(WalletError::Validation)
        } else if self.ready() is Err {
            Err(self.ready().unwrap_err())
        } else if fixed_hash_of(token_address, 20) is None {
            Err(WalletError::Validation)
        } else {
            started(
                draft_of(
                    TransactionKind::Eip1559,
                    self.secret(),
                    self.address(),
                    fixed_hash_of(token_address, 20).unwrap(),
                    None,
                    Some(
                        transfer_call_data(
                            fixed_hash_of(to, 20).unwrap(),
                            be_bytes(decimal_value(value), 32),
                        ),
                    ),
                    gas_limit,
                ),
                usable_gas_price(gas_price),
            )
        }
    }

    /// A service with neither provider nor signing identity.
    pub fn new() -> (service: Self)
        ensures
            service.wf(),
            service.provider() is None,
            !service.has_wallet(),
    {
        TransactionService { provider: None, wallet: None }
    }

    /// Sets the provider's address. Refused with `Validation`, changing
    /// nothing, where the text does not parse as one.
    pub fn set_provider(&mut self, provider_url: &str) -> (r: Result<(), WalletError>)
        requires
            old(self).wf(),
        ensures
            final(self).wf(),
            final(self).has_wallet() == old(self).has_wallet(),
            final(self).has_wallet() ==> final(self).secret() == old(self).secret() && final(self).address() == old(self).address(),
            r is Ok <==> is_provider_url(provider_url@),
            r is Ok ==> final(self).provider() == Some(provider_url@),
            r is Err ==> r == Err::<(), WalletError>(WalletError::Validation) && final(self).provider() == old(self).provider(),
    {
        if provider_url_parses(provider_url) {
            self.provider = Some(owned(provider_url));
            Ok(())
        } else {
            Err(WalletError::Validation)
        }
    }

    /// Sets the signing identity.
    pub fn set_wallet(&mut self, wallet: Wallet)
        requires
            old(self).wf(),
            wallet.wf(),
        ensures
            final(self).wf(),
            final(self).has_wallet(),
            final(self).secret() == wallet.secret(),
            final(self).address() == wallet.address(),
            final(self).provider() == old(self).provider(),
    {
        self.wallet = Some(wallet);
    }

    /// The address of the provider, if one is set.
    pub fn provider_url(&self) -> (r: Option<&String>)
        ensures
            r is Some <==> self.provider() is Some,
            r is Some ==> Some(r.unwrap()@) == self.provider(),
    {
        match &self.provider {
            Some(url) => Some(url),
            None => None,
        }
    }

    /// The address whose balance of the native asset is to be asked of the
    /// provider. Fails with `NoWallet` without a signing identity, else
    /// with `NoProvider` without a provider.
    pub fn get_balance(&self) -> (r: Result<Address, WalletError>)
        requires
            self.wf(),
        ensures
            r is Ok <==> self.has_wallet() && self.provider() is Some,
            r matches Ok(a) ==> a@ == self.address(),
            r matches Err(e) ==> e == (if !self.has_wallet() {
                WalletError::NoWallet
            } else {
                WalletError::NoProvider
            }),
    {
        let wallet = match &self.wallet {
            None => { return Err(WalletError::NoWallet); },
            Some(w) => w,
        };
        if self.provider.is_none() {
            return Err(WalletError::NoProvider);
        }
        Ok(wallet.get_address())
    }

    /// The call that asks a token for the balance of the signing identity.
    /// Fails with `Validation` where the token's contract is no address,
    /// else with `NoWallet` without a signing identity, else with
    /// `NoProvider` without a provider.
    pub fn get_token_balance(&self, token_address: &str) -> (r: Result<BalanceCall, WalletError>)
        requires
            self.wf(),
        ensures
            r is Ok <==> fixed_hash_of(token_address@, 20) is Some && self.has_wallet()
                && self.provider() is Some,
            r matches Ok(call) ==> Some(call.token@) == fixed_hash_of(token_address@, 20)
                && call.data@ == balance_call_data(self.address()),
            r matches Err(e) ==> e == (if fixed_hash_of(token_address@, 20) is None {
                WalletError::Validation
            } else if !self.has_wallet() {
                WalletError::NoWallet
            } else {
                WalletError::NoProvider
            }),
    {
        let token = match Address::from_text(token_address) {
            None => { return Err(WalletError::Validation); },
            Some(a) => a,
        };
        let wallet = match &self.wallet {
            None => { return Err(WalletError::NoWallet); },
            Some(w) => w,
        };
        if self.provider.is_none() {
            return Err(WalletError::NoProvider);
        }
        Ok(BalanceCall { token, data: encode_balance_of(&wallet.get_address()) })
    }

    /// The hash of the transaction that is to be asked of the provider.
    /// Fails with `NoProvider` without a provider, else with `Validation`
    /// where the text is no hash.
    pub fn info(&self, tx_hash: &str) -> (r: Result<TxHash, WalletError>)
        ensures
            r is Ok <==> self.provider() is Some && fixed_hash_of(tx_hash@, 32) is Some,
            r matches Ok(h) ==> Some(h@) == fixed_hash_of(tx_hash@, 32),
            r matches Err(e) ==> e == (if self.provider() is None {
                WalletError::NoProvider
            } else {
                WalletError::Validation
            }),
    {
        if self.provider.is_none() {
            return Err(WalletError::NoProvider);
        }
        match TxHash::from_text(tx_hash) {
            None => Err(WalletError::Validation),
            Some(h) => Ok(h),
        }
    }

    /// What a reader is shown of a history: a line for each record, the
    /// oldest first; nothing where the history is empty.
    pub fn history(records: &Vec<StoredTransaction>) -> (r: Option<Vec<HistoryLine>>)
        ensures
            r is Some <==> records@.len() > 0,
            r matches Some(lines) ==> lines@.len() == records@.len() && forall|i: int|
                0 <= i < lines@.len() ==> (#[trigger] records@[i])@.shown_as(lines@[i]),
    {
        if records.len() == 0 {
            return None;
        }
        let mut lines: Vec<HistoryLine> = Vec::new();
        let mut i: usize = 0;
        while i < records.len()
            invariant
                i <= records@.len(),
                lines@.len() == i,
                forall|j: int| 0 <= j < i ==> (#[trigger] records@[j])@.shown_as(lines@[j]),
            decreases records@.len() - i,
        {
            lines.push(records[i].line());
            i += 1;
        }
        Some(lines)
    }

    /// An amount of the smallest unit in whole units: the whole units, a
    /// point, and what is left over, each in decimal digits.
    pub fn wei_to_eth(wei: &U256) -> (text: String)
        ensures
            text@ == decimal_text(wei.value() / WEI_PER_ETH as nat) + seq!['.'] + decimal_text(
                wei.value() % WEI_PER_ETH as nat,
            ),
    {
        let unit = U256::from_u64(WEI_PER_ETH);
        let (eth, remainder) = unit_split(wei, &unit);
        let text = eth.to_dec_string().concat(".").concat(remainder.to_dec_string().as_str());
        proof {
            reveal_strlit(".");
            assert("."@ =~= seq!['.']);
        }
        text
    }

    fn check_ready(&self) -> (r: Result<(), WalletError>)
        ensures
            r == self.ready(),
    {
        if self.provider.is_none() {
            Err(WalletError::NoProvider)
        } else if self.wallet.is_none() {
            Err(WalletError::NoWallet)
        } else {
            Ok(())
        }
    }

    fn start(
        &self,
        kind: TransactionKind,
        to: Address,
        value: Option<U256>,
        data: Option<Vec<u8>>,
        gas_price: Option<&str>,
        gas_limit: Option<&str>,
    ) -> (r: Result<SendPipeline, WalletError>)
        requires
            self.wf(),
            self.has_wallet(),
            kind != TransactionKind::Eip2930,
        ensures
            outcome_is(
                r,
                started(
                    draft_of(
                        kind,
                        self.secret(),
                        self.address(),
                        to@,
                        crate::transaction::amount_view(value),
                        crate::transaction::data_view(data),
                        text_option(gas_limit),
                    ),
                    usable_gas_price(text_option(gas_price)),
                ),
            ),
    {
        let wallet = self.wallet.as_ref().unwrap();
        let mut pipeline = SendPipeline {
            stage: Stage::Draft,
            tx: UnsignedTransaction {
                kind,
                from: Some(wallet.get_address()),
                to: Some(to),
                value,
                gas: None,
                gas_price: None,
                nonce: None,
                chain_id: None,
                data,
            },
            gas_limit: match gas_limit {
                Some(t) => Some(owned(t)),
                None => None,
            },
            secret: wallet.private_key(),
            signed: Vec::new(),
            hash: None,
            error: None,
        };
        let price = match gas_price {
            Some(text) => U256::from_dec_str(text),
            None => None,
        };
        match price {
            None => Ok(pipeline),
            Some(p) => {
                pipeline.set_priced(p);
                match pipeline.stage {
                    Stage::Failed => Err(WalletError::Validation),
                    _ => Ok(pipeline),
                }
            },
        }
    }

    /// Drafts the sending of an amount of the native asset. Refused with
    /// `Validation` where the recipient is no address or the amount no
    /// amount, else with `NoProvider` or `NoWallet` where one is missing. A
    /// gas price that reads as an amount is used, any other is asked of the
    /// provider; with a gas price in hand, a gas limit that does not read
    /// as an amount is refused with `Validation`.
    pub fn send(&self, to: &str, value: &str, gas_price: Option<&str>, gas_limit: Option<&str>) -> (r:
        Result<SendPipeline, WalletError>)
        requires
            self.wf(),
        ensures
            outcome_is(
                r,
                self.send_spec(to@, value@, text_option(gas_price), text_option(gas_limit)),
            ),
    {
        let to_address = match Address::from_text(to) {
            None => { return Err(WalletError::Validation); },
            Some(a) => a,
        };
        let amount = match U256::from_dec_str(value) {
            None => { return Err(WalletError::Validation); },
            Some(v) => v,
        };
        match self.check_ready() {
            Err(e) => { return Err(e); },
            Ok(()) => {},
        }
        self.start(TransactionKind::Legacy, to_address, Some(amount), None, gas_price, gas_limit)
    }

    /// Drafts the sending of an amount of a token: a call of the token's
    /// contract whose data name the recipient and the amount. Refused with
    /// `Validation` where the recipient is no address or the amount no
    /// amount, else with `NoProvider` or `NoWallet` where one is missing,
    /// else with `Validation` where the token's contract is no address.
    /// Gas price and gas limit are taken as `send` takes them.
    pub fn send_token(
        &self,
        to: &str,
        value: &str,
        token_address: &str,
        gas_price: Option<&str>,
        gas_limit: Option<&str>,
    ) -> (r: Result<SendPipeline, WalletError>)
        requires
            self.wf(),
        ensures
            outcome_is(
                r,
                self.send_token_spec(
                    to@,
                    value@,
                    token_address@,
                    text_option(gas_price),
                    text_option(gas_limit),
                ),
            ),
    {
        let to_address = match Address::from_text(to) {
            None => { return Err(WalletError::Validation); },
            Some(a) => a,
        };
        let amount = match U256::from_dec_str(value) {
            None => { return Err(WalletError::Validation); },
            Some(v) => v,
        };
        match self.check_ready() {
            Err(e) => { return Err(e); },
            Ok(()) => {},
        }
        let token = match Address::from_text(token_address) {
            None => { return Err(WalletError::Validation); },
            Some(a) => a,
        };
        let data = encode_transfer(&to_address, &amount);
        proof {
            lemma_be_bytes_of_be_nat(amount@);
        }
        self.start(TransactionKind::Eip1559, token, None, Some(data), gas_price, gas_limit)
    }
}

/// The replies to a send that was drafted without gas price and gas
/// limit, in the order in which it asks for them.
pub open spec fn replies_in_turn(gas_price: nat, gas: nat, nonce: nat, chain_id: nat, hash: Seq<u8>) -> Seq<
    ReplyView,
> {
    seq![
        ReplyView::GasPrice(gas_price),
        ReplyView::GasEstimate(gas),
        ReplyView::TransactionCount(nonce),
        ReplyView::ChainId(chain_id),
        ReplyView::TransactionHash(hash),
    ]
}

/// A send is decided by its draft and the replies alone: a draft without a
/// gas limit of the caller's that is answered in turn with a gas price, a
/// gas estimate, a transaction count, a chain id and a hash ends
/// broadcast, with exactly those values in the transaction, with the
/// encoding that the key and that transaction give, and with that hash; or
/// it ends failed with `Signing` where the key yields no signature.
pub proof fn lemma_send_is_determined(
    draft: PipelineView,
    gas_price: nat,
    gas: nat,
    nonce: nat,
    chain_id: nat,
    hash: Seq<u8>,
)
    requires
        draft.stage == Stage::Draft,
        draft.gas_limit is None,
        chain_id <= MAX_CHAIN_ID,
    ensures
        ({
            let tx = TransactionView {
                gas_price: Some(gas_price),
                gas: Some(gas),
                nonce: Some(nonce),
                chain_id: Some(chain_id as u64),
                ..draft.tx
            };
            let end = draft.run(replies_in_turn(gas_price, gas, nonce, chain_id, hash));
            match signed_encoding(draft.secret, tx) {
                Some(signed) => end == PipelineView {
                    stage: Stage::Broadcast,
                    tx,
                    signed,
                    hash: Some(hash),
                    ..draft
                },
                None => end == PipelineView { tx, ..draft }.fail(WalletError::Signing),
            }
        }),
{
    let r5 = replies_in_turn(gas_price, gas, nonce, chain_id, hash);
    let r4 = r5.drop_last();
    let r3 = r4.drop_last();
    let r2 = r3.drop_last();
    let r1 = r2.drop_last();
    let r0 = r1.drop_last();
    assert(r0.len() == 0);
    assert(draft.run(r0) == draft);
    assert(r1.last() == ReplyView::GasPrice(gas_price));
    assert(draft.run(r1) == draft.run(r0).after(r1.last()));
    assert(r2.last() == ReplyView::GasEstimate(gas));
    assert(draft.run(r2) == draft.run(r1).after(r2.last()));
    assert(r3.last() == ReplyView::TransactionCount(nonce));
    assert(draft.run(r3) == draft.run(r2).after(r3.last()));
    assert(r4.last() == ReplyView::ChainId(chain_id));
    assert(draft.run(r4) == draft.run(r3).after(r4.last()));
    assert(r5.last() == ReplyView::TransactionHash(hash));
    assert(draft.run(r5) == draft.run(r4).after(r5.last()));
}

/// A failure is final and nothing is recorded of it: a failed call fails
/// any send that is still on its way, with `Network`; a failed send stays
/// failed whatever is answered; and a record is offered for the history
/// only by a send that was broadcast.
pub proof fn lemma_failure_aborts(pipeline: PipelineView, reply: ReplyView)
    requires
        pipeline.wf(),
    ensures
        pipeline.stage != Stage::Broadcast && pipeline.stage != Stage::Failed ==> pipeline.after(
            ReplyView::Failure,
        ) == pipeline.fail(WalletError::Network),
        pipeline.stage == Stage::Failed ==> pipeline.after(reply) == pipeline && pipeline.action()
            == ActionView::Abort(pipeline.error.unwrap()),
        pipeline.action() is Finish <==> pipeline.stage == Stage::Broadcast,
        pipeline.after(reply).stage == Stage::Broadcast ==> pipeline.stage == Stage::Broadcast || (
        pipeline.stage == Stage::Signed && reply is TransactionHash),
{
}

/// Each reply leaves a send well formed.
pub proof fn lemma_after_keeps_wf(pipeline: PipelineView, reply: ReplyView)
    requires
        pipeline.wf(),
    ensures
        pipeline.after(reply).wf(),
{
}

fn unit_split(amount: &U256, unit: &U256) -> (r: (U256, U256))
    requires
        unit.value() != 0,
    ensures
        r.0.value() == amount.value() / unit.value(),
        r.1.value() == amount.value() % unit.value(),
{
    match amount.div_rem(unit) {
        Some(pair) => pair,
        None => (U256::from_u64(0), U256::from_u64(0)),
    }
}

/// A text that may be absent, as characters.
pub open spec fn text_option(text: Option<&str>) -> Option<Seq<char>> {
    match text {
        Some(t) => Some(t@),
        None => None,
    }
}

/// Whether what a draft returned is what was to be returned.
pub open spec fn outcome_is(r: Result<SendPipeline, WalletError>, expected: Result<
    PipelineView,
    WalletError,
>) -> bool {
    match r {
        Ok(p) => p@.wf() && expected == Ok::<PipelineView, WalletError>(p@),
        Err(e) => expected == Err::<PipelineView, WalletError>(e),
    }
}

} // verus!

//! Transactions before they are signed, the call data of a token transfer,
//! and the record that is kept of a transaction once it was sent.

use vstd::prelude::*;
use vstd::string::*;
use ethers::types::U256 as EthU256;
use ethers::abi::Token;
use ethers::types::H160;
use crate::numeric::{
    lemma_address_round_trip,
    lemma_be_nat_bound,
    lemma_decimal_round_trip,
    lemma_stored_hex_round_trip,
    lemma_u256_limit,
    pow256,
    be_nat,
    decimal_text,
    decimal_value,
    fixed_hash_of,
    hex_number_text,
    is_amount_text,
    prefixed_hex,
    Address,
    U256,
};
use crate::text::owned;

verus! {

/// The first four bytes of the call data of `transfer(address,uint256)`.
pub open spec fn transfer_selector() -> Seq<u8> {
    seq![0xa9u8, 0x05u8, 0x9cu8, 0xbbu8]
}

/// The first four bytes of the call data of `balanceOf(address)`.
pub open spec fn balance_selector() -> Seq<u8> {
    seq![0x70u8, 0xa0u8, 0x82u8, 0x31u8]
}

/// An address as a word of thirty-two bytes: twelve zero bytes before it.
pub open spec fn address_word(address: Seq<u8>) -> Seq<u8> {
    Seq::new(12, |i: int| 0u8) + address
}

/// Numbers as words of thirty-two bytes, one after the other.
pub open spec fn amount_words(amounts: Seq<U256>) -> Seq<u8>
    decreases amounts.len(),
{
    if amounts.len() == 0 {
        Seq::empty()
    } else {
        amount_words(amounts.drop_last()) + amounts.last()@
    }
}

/// The call data of a token transfer: the selector, the recipient as a
/// word and the amount as a word.
pub open spec fn transfer_call_data(to: Seq<u8>, amount: Seq<u8>) -> Seq<u8> {
    transfer_selector() + address_word(to) + amount
}

/// The call data that asks a token for the balance of an owner.
pub open spec fn balance_call_data(owner: Seq<u8>) -> Seq<u8> {
    balance_selector() + address_word(owner)
}

/// The recipient and the amount that call data holds, where it is that of a
/// token transfer: at least sixty-eight bytes that start with the selector.
pub open spec fn transfer_of(data: Seq<u8>) -> Option<(Seq<u8>, Seq<u8>)> {
    if data.len() >= 68 && data.take(4) == transfer_selector() {
        Some((data.subrange(16, 36), data.subrange(36, 68)))
    } else {
        None
    }
}

/// `ethers::abi::encode` on an address and numbers of 256 bits: one word of
/// thirty-two bytes for each, the address behind twelve zero bytes, each
/// number with its most significant byte first. Believed of the `ethers`
/// crate, not proved.
#[verifier::external_body]
fn abi_encode(account: &Address, amounts: &Vec<U256>) -> (data: Vec<u8>)
    ensures
        data@ == address_word(account@) + amount_words(amounts@),
{
    let mut tokens = vec![Token::Address(H160(account.bytes))];
    tokens.extend(amounts.iter().map(|a| Token::Uint(EthU256::from_big_endian(&a.bytes))));
    ethers::abi::encode(&tokens)
}

/// The call data of a transfer of an amount of a token to a recipient.
pub fn encode_transfer(to: &Address, amount: &U256) -> (data: Vec<u8>)
    ensures
        data@ == transfer_call_data(to@, amount@),
        data@.len() == 68,
{
    let mut data: Vec<u8> = Vec::new();
    data.push(0xa9);
    data.push(0x05);
    data.push(0x9c);
    data.push(0xbb);
    let mut amounts: Vec<U256> = Vec::new();
    amounts.push(*amount);
    let mut words = abi_encode(to, &amounts);
    proof {
        assert(amounts@.drop_last() =~= Seq::<U256>::empty());
        assert(amounts@.last() == *amount);
        assert(amount_words(Seq::<U256>::empty()) =~= Seq::<u8>::empty());
        assert(amount_words(amounts@) =~= amount@);
        assert(data@ =~= transfer_selector());
    }
    data.append(&mut words);
    proof {
        assert(data@ =~= transfer_call_data(to@, amount@));
    }
    data
}

/// The call data that asks a token for the balance of an owner.
pub fn encode_balance_of(owner: &Address) -> (data: Vec<u8>)
    ensures
        data@ == balance_call_data(owner@),
        data@.len() == 36,
{
    let mut data: Vec<u8> = Vec::new();
    data.push(0x70);
    data.push(0xa0);
    data.push(0x82);
    data.push(0x31);
    let amounts: Vec<U256> = Vec::new();
    let mut words = abi_encode(owner, &amounts);
    proof {
        assert(data@ =~= balance_selector());
    }
    data.append(&mut words);
    proof {
        assert(data@ =~= balance_call_data(owner@));
    }
    data
}

/// The balance that a token answered: the first word of its answer.
pub open spec fn balance_in(output: Seq<u8>) -> Option<Seq<u8>> {
    if output.len() >= 32 {
        Some(output.take(32))
    } else {
        None
    }
}

/// Reads the balance out of what a token answered to a call for it;
/// nothing where the answer is shorter than one word.
pub fn decode_balance(output: &[u8]) -> (r: Option<U256>)
    ensures
        r is Some <==> balance_in(output@) is Some,
        r is Some ==> Some(r.unwrap()@) == balance_in(output@),
{
    if output.len() < 32 {
        return None;
    }
    let mut amount = [0u8; 32];
    let mut k: usize = 0;
    while k < 32
        invariant
            k <= 32,
            output@.len() >= 32,
            forall|j: int| 0 <= j < k ==> amount@[j] == output@[j],
        decreases 32 - k,
    {
        amount[k] = output[k];
        k += 1;
    }
    assert(amount@ =~= output@.take(32));
    Some(U256 { bytes: amount })
}

/// Reads recipient and amount out of call data, where it is that of a
/// token transfer.
pub fn decode_transfer(data: &[u8]) -> (r: Option<(Address, U256)>)
    ensures
        r is Some <==> transfer_of(data@) is Some,
        r matches Some(pair) ==> transfer_of(data@) == Some((pair.0@, pair.1@)),
{
    if data.len() < 68 {
        return None;
    }
    if data[0] != 0xa9 || data[1] != 0x05 || data[2] != 0x9c || data[3] != 0xbb {
        assert(data@.take(4)[0] == data@[0]);
        assert(data@.take(4)[1] == data@[1]);
        assert(data@.take(4)[2] == data@[2]);
        assert(data@.take(4)[3] == data@[3]);
        return None;
    }
    assert(data@.take(4) =~= transfer_selector());
    let mut recipient = [0u8; 20];
    let mut i: usize = 0;
    while i < 20
        invariant
            i <= 20,
            data@.len() >= 68,
            forall|j: int| 0 <= j < i ==> recipient@[j] == data@[16 + j],
        decreases 20 - i,
    {
        recipient[i] = data[16 + i];
        i += 1;
    }
    let mut amount = [0u8; 32];
    let mut k: usize = 0;
    while k < 32
        invariant
            k <= 32,
            data@.len() >= 68,
            forall|j: int| 0 <= j < k ==> amount@[j] == data@[36 + j],
        decreases 32 - k,
    {
        amount[k] = data[36 + k];
        k += 1;
    }
    assert(recipient@ =~= data@.subrange(16, 36));
    assert(amount@ =~= data@.subrange(36, 68));
    Some((Address { bytes: recipient }, U256 { bytes: amount }))
}

/// Reading the call data of a token transfer gives back the recipient and
/// the amount it was written from.
pub proof fn lemma_transfer_round_trip(to: Seq<u8>, amount: Seq<u8>)
    requires
        to.len() == 20,
        amount.len() == 32,
    ensures
        transfer_of(transfer_call_data(to, amount)) == Some((to, amount)),
{
    let data = transfer_call_data(to, amount);
    assert(data.len() == 68);
    assert(data.take(4) =~= transfer_selector());
    assert(data.subrange(16, 36) =~= to);
    assert(data.subrange(36, 68) =~= amount);
}

/// The envelope of a transaction.
#[derive(Clone, Copy, Debug, PartialEq, Eq, Structural)]
pub enum TransactionKind {
    Legacy,
    Eip2930,
    Eip1559,
}

/// A transaction that is not signed yet. What is not known yet is absent.
/// In the newest envelope the gas price stands for both fees.
#[derive(Debug, Clone)]
pub struct UnsignedTransaction {
    pub kind: TransactionKind,
    pub from: Option<Address>,
    pub to: Option<Address>,
    pub value: Option<U256>,
    pub gas: Option<U256>,
    pub gas_price: Option<U256>,
    pub nonce: Option<U256>,
    pub chain_id: Option<u64>,
    pub data: Option<Vec<u8>>,
}

/// A transaction as plain values: addresses and data as bytes, amounts as
/// numbers.
pub struct TransactionView {
    pub kind: TransactionKind,
    pub from: Option<Seq<u8>>,
    pub to: Option<Seq<u8>>,
    pub value: Option<nat>,
    pub gas: Option<nat>,
    pub gas_price: Option<nat>,
    pub nonce: Option<nat>,
    pub chain_id: Option<u64>,
    pub data: Option<Seq<u8>>,
}

/// An address that may be absent, as bytes.
pub open spec fn address_view(address: Option<Address>) -> Option<Seq<u8>> {
    match address {
        Some(a) => Some(a@),
        None => None,
    }
}

/// An amount that may be absent, as a number.
pub open spec fn amount_view(amount: Option<U256>) -> Option<nat> {
    match amount {
        Some(a) => Some(a.value()),
        None => None,
    }
}

/// Data that may be absent, as bytes.
pub open spec fn data_view(data: Option<Vec<u8>>) -> Option<Seq<u8>> {
    match data {
        Some(d) => Some(d@),
        None => None,
    }
}

/// A text that may be absent, as characters.
pub open spec fn text_view(text: Option<String>) -> Option<Seq<char>> {
    match text {
        Some(t) => Some(t@),
        None => None,
    }
}

impl View for UnsignedTransaction {
    type V = TransactionView;

    open spec fn view(&self) -> TransactionView {
        TransactionView {
            kind: self.kind,
            from: address_view(self.from),
            to: address_view(self.to),
            value: amount_view(self.value),
            gas: amount_view(self.gas),
            gas_price: amount_view(self.gas_price),
            nonce: amount_view(self.nonce),
            chain_id: self.chain_id,
            data: data_view(self.data),
        }
    }
}

impl UnsignedTransaction {
    /// A copy of the transaction.
    pub fn copy(&self) -> (r: UnsignedTransaction)
        ensures
            r@ == self@,
    {
        UnsignedTransaction {
            kind: self.kind,
            from: self.from,
            to: self.to,
            value: self.value,
            gas: self.gas,
            gas_price: self.gas_price,
            nonce: self.nonce,
            chain_id: self.chain_id,
            data: match &self.data {
                Some(d) => Some(d.clone()),
                None => None,
            },
        }
    }
}

/// The record that is kept of a sent transaction. Every field is text:
/// addresses as `0x` and forty digits, gas, gas price and value as `0x` and
/// hexadecimal digits, the amount of a token transfer in decimal digits.
#[derive(Debug, Clone)]
pub struct StoredTransaction {
    pub tx_type: String,
    pub from: String,
    pub to: Option<String>,
    pub gas: String,
    pub gas_price: String,
    pub value: String,
    pub token_value: Option<String>,
}

/// A record as plain values.
pub struct StoredTransactionView {
    pub tx_type: Seq<char>,
    pub from: Seq<char>,
    pub to: Option<Seq<char>>,
    pub gas: Seq<char>,
    pub gas_price: Seq<char>,
    pub value: Seq<char>,
    pub token_value: Option<Seq<char>>,
}

impl View for StoredTransaction {
    type V = StoredTransactionView;

    open spec fn view(&self) -> StoredTransactionView {
        StoredTransactionView {
            tx_type: self.tx_type@,
            from: self.from@,
            to: text_view(self.to),
            gas: self.gas@,
            gas_price: self.gas_price@,
            value: self.value@,
            token_value: text_view(self.token_value),
        }
    }
}

/// The name of an envelope in a record.
pub open spec fn kind_name(kind: TransactionKind) -> Seq<char> {
    match kind {
        TransactionKind::Legacy => "Legacy"@,
        TransactionKind::Eip2930 => "Eip2930"@,
        TransactionKind::Eip1559 => "Eip1559"@,
    }
}

/// A number as `0x` and hexadecimal digits.
pub open spec fn hex_amount(n: nat) -> Seq<char> {
    seq!['0', 'x'] + hex_number_text(n)
}

/// A number that may be absent as `0x` and hexadecimal digits, or as a
/// text given for its absence.
pub open spec fn hex_amount_or(amount: Option<nat>, absent: Seq<char>) -> Seq<char> {
    match amount {
        Some(n) => hex_amount(n),
        None => absent,
    }
}

/// The transfer that the data of a transaction holds, if it has data and
/// they are the call data of a token transfer.
pub open spec fn transfer_in(data: Option<Seq<u8>>) -> Option<(Seq<u8>, Seq<u8>)> {
    match data {
        Some(d) => transfer_of(d),
        None => None,
    }
}

/// Whom a transaction pays, as a reader sees it: the recipient of the
/// token transfer that its data holds, or else the address it is sent to.
pub open spec fn shown_recipient(to: Option<Seq<u8>>, data: Option<Seq<u8>>) -> Option<Seq<u8>> {
    match transfer_in(data) {
        Some(pair) => Some(pair.0),
        None => to,
    }
}

/// The amount of the token transfer that the data of a transaction holds.
pub open spec fn shown_token_value(data: Option<Seq<u8>>) -> Option<nat> {
    match transfer_in(data) {
        Some(pair) => Some(be_nat(pair.1)),
        None => None,
    }
}

/// The record of a transaction.
pub open spec fn record_of(tx: TransactionView) -> StoredTransactionView {
    StoredTransactionView {
        tx_type: kind_name(tx.kind),
        from: match tx.from {
            Some(a) => prefixed_hex(a),
            None => Seq::empty(),
        },
        to: match shown_recipient(tx.to, tx.data) {
            Some(a) => Some(prefixed_hex(a)),
            None => None,
        },
        gas: hex_amount_or(tx.gas, Seq::empty()),
        gas_price: hex_amount_or(tx.gas_price, Seq::empty()),
        value: hex_amount_or(tx.value, "0x0"@),
        token_value: match shown_token_value(tx.data) {
            Some(n) => Some(decimal_text(n)),
            None => None,
        },
    }
}

/// The recipient and the amount of the token transfer that the data of a
/// transaction holds.
pub fn transfer_in_data(data: &Option<Vec<u8>>) -> (r: Option<(Address, U256)>)
    ensures
        r is Some <==> transfer_in(data_view(*data)) is Some,
        r matches Some(pair) ==> transfer_in(data_view(*data)) == Some((pair.0@, pair.1@)),
{
    match data {
        Some(d) => decode_transfer(d.as_slice()),
        None => None,
    }
}

fn hex_or(amount: &Option<U256>, absent: &str) -> (text: String)
    ensures
        text@ == hex_amount_or(amount_view(*amount), absent@),
{
    match amount {
        Some(a) => a.to_hex_string(),
        None => owned(absent),
    }
}

impl StoredTransaction {
    /// The record of a transaction: its envelope's name, the sender, the
    /// recipient as a reader sees it, gas, gas price and value, and the
    /// amount of the token transfer that its data holds.
    pub fn from_typed_transaction(tx: &UnsignedTransaction) -> (record: StoredTransaction)
        ensures
            record@ == record_of(tx@),
    {
        let tx_type = match tx.kind {
            TransactionKind::Legacy => owned("Legacy"),
            TransactionKind::Eip2930 => owned("Eip2930"),
            TransactionKind::Eip1559 => owned("Eip1559"),
        };
        let from = match &tx.from {
            Some(a) => a.to_text(),
            None => String::new(),
        };
        let (to, token_value) = match transfer_in_data(&tx.data) {
            Some(pair) => (Some(pair.0.to_text()), Some(pair.1.to_dec_string())),
            None => (
                match &tx.to {
                    Some(a) => Some(a.to_text()),
                    None => None,
                },
                None,
            ),
        };
        proof {
            reveal_strlit("");
            assert(""@ =~= Seq::<char>::empty());
        }
        StoredTransaction {
            tx_type,
            from,
            to,
            gas: hex_or(&tx.gas, ""),
            gas_price: hex_or(&tx.gas_price, ""),
            value: hex_or(&tx.value, "0x0"),
            token_value,
        }
    }
}

/// What a reader is shown of a sent transaction: the addresses and numbers
/// that its record stands for. An address or a number that does not read
/// counts as zero.
#[derive(Debug, Clone, Copy, PartialEq, Eq)]
pub struct HistoryLine {
    pub from: Address,
    pub to: Address,
    pub value: U256,
    pub token_value: U256,
    pub gas_price: U256,
    pub gas: U256,
}

/// Twenty zero bytes.
pub open spec fn zero_address() -> Seq<u8> {
    Seq::new(20, |i: int| 0u8)
}

/// The address that a text stands for, or the zero address.
pub open spec fn address_or_zero(text: Option<Seq<char>>) -> Seq<u8> {
    match text {
        Some(t) => match fixed_hash_of(t, 20) {
            Some(a) => a,
            None => zero_address(),
        },
        None => zero_address(),
    }
}

/// The number that a decimal text stands for, or zero.
pub open spec fn decimal_or_zero(text: Option<Seq<char>>) -> nat {
    match text {
        Some(t) => if is_amount_text(t) {
            decimal_value(t)
        } else {
            0
        },
        None => 0,
    }
}

impl StoredTransactionView {
    /// Whether a line shows what this record stands for.
    pub open spec fn shown_as(self, line: HistoryLine) -> bool {
        &&& line.from@ == address_or_zero(Some(self.from))
        &&& line.to@ == address_or_zero(self.to)
        &&& line.value.value() == U256::stored_hex_value(self.value)
        &&& line.token_value.value() == decimal_or_zero(self.token_value)
        &&& line.gas_price.value() == U256::stored_hex_value(self.gas_price)
        &&& line.gas.value() == U256::stored_hex_value(self.gas)
    }
}

impl StoredTransaction {
    /// The sender, where the record's text reads as an address.
    pub fn from_address(&self) -> (r: Option<Address>)
        ensures
            r is Some <==> fixed_hash_of(self@.from, 20) is Some,
            r is Some ==> Some(r.unwrap()@) == fixed_hash_of(self@.from, 20),
    {
        Address::from_text(self.from.as_str())
    }

    /// The recipient, where the record has one and its text reads as an
    /// address.
    pub fn to_address(&self) -> (r: Option<Address>)
        ensures
            r is Some <==> self@.to is Some && fixed_hash_of(self@.to.unwrap(), 20) is Some,
            r is Some ==> Some(r.unwrap()@) == fixed_hash_of(self@.to.unwrap(), 20),
    {
        match &self.to {
            Some(text) => Address::from_text(text.as_str()),
            None => None,
        }
    }

    /// The gas limit; zero where the record's text does not read.
    pub fn gas_as_u256(&self) -> (r: U256)
        ensures
            r.value() == U256::stored_hex_value(self@.gas),
    {
        U256::from_stored_hex(self.gas.as_str())
    }

    /// The gas price; zero where the record's text does not read.
    pub fn gas_price_as_u256(&self) -> (r: U256)
        ensures
            r.value() == U256::stored_hex_value(self@.gas_price),
    {
        U256::from_stored_hex(self.gas_price.as_str())
    }

    /// The value; zero where the record's text does not read.
    pub fn value_as_u256(&self) -> (r: U256)
        ensures
            r.value() == U256::stored_hex_value(self@.value),
    {
        U256::from_stored_hex(self.value.as_str())
    }

    /// The amount of the token transfer; zero where the record has none or
    /// its text does not read.
    pub fn token_value_as_u256(&self) -> (r: U256)
        ensures
            r.value() == decimal_or_zero(self@.token_value),
    {
        let parsed = match &self.token_value {
            Some(text) => U256::from_dec_str(text.as_str()),
            None => None,
        };
        match parsed {
            Some(v) => v,
            None => U256::from_u64(0),
        }
    }

    /// What a reader is shown of the record.
    pub fn line(&self) -> (line: HistoryLine)
        ensures
            self@.shown_as(line),
    {
        HistoryLine {
            from: match self.from_address() {
                Some(a) => a,
                None => Address::zero(),
            },
            to: match self.to_address() {
                Some(a) => a,
                None => Address::zero(),
            },
            value: self.value_as_u256(),
            token_value: self.token_value_as_u256(),
            gas_price: self.gas_price_as_u256(),
            gas: self.gas_as_u256(),
        }
    }
}

/// Whom a transaction that was read from the chain pays, and the amount of
/// the token transfer that its data holds: as its record would show them.
pub fn shown_transfer(to: &Option<Address>, data: &Option<Vec<u8>>) -> (r: (Option<Address>, Option<U256>))
    ensures
        address_view(r.0) == shown_recipient(address_view(*to), data_view(*data)),
        amount_view(r.1) == shown_token_value(data_view(*data)),
{
    match transfer_in_data(data) {
        Some(pair) => (Some(pair.0), Some(pair.1)),
        None => (*to, None),
    }
}

/// A number that may be absent, or zero in its place.
pub open spec fn amount_or_zero(amount: Option<nat>) -> nat {
    match amount {
        Some(n) => n,
        None => 0,
    }
}

/// Whether the addresses of a transaction have twenty bytes and its amounts
/// fit in 256 bits, as those of every transaction in memory do.
pub open spec fn is_well_sized(tx: TransactionView) -> bool {
    &&& tx.from is Some ==> tx.from.unwrap().len() == 20
    &&& tx.to is Some ==> tx.to.unwrap().len() == 20
    &&& amount_or_zero(tx.value) < pow256(32)
    &&& amount_or_zero(tx.gas) < pow256(32)
    &&& amount_or_zero(tx.gas_price) < pow256(32)
}

/// What is read out of the record of a transaction is what the transaction
/// held: the sender, the recipient as a reader sees it, value, gas, gas
/// price and the amount of a token transfer, with zero for what it did not
/// hold.
pub proof fn lemma_record_reads_back(tx: TransactionView, line: HistoryLine)
    requires
        is_well_sized(tx),
        record_of(tx).shown_as(line),
    ensures
        tx.from is Some ==> line.from@ == tx.from.unwrap(),
        line.to@ == match shown_recipient(tx.to, tx.data) {
            Some(a) => a,
            None => zero_address(),
        },
        line.value.value() == amount_or_zero(tx.value),
        line.gas.value() == amount_or_zero(tx.gas),
        line.gas_price.value() == amount_or_zero(tx.gas_price),
        line.token_value.value() == amount_or_zero(shown_token_value(tx.data)),
{
    if tx.from is Some {
        lemma_address_round_trip(tx.from.unwrap());
    }
    match shown_recipient(tx.to, tx.data) {
        Some(a) => {
            lemma_address_round_trip(a);
        },
        None => {},
    }
    lemma_hex_or_reads_back(tx.value, "0x0"@);
    lemma_hex_or_reads_back(tx.gas, Seq::empty());
    lemma_hex_or_reads_back(tx.gas_price, Seq::empty());
    match shown_token_value(tx.data) {
        Some(n) => {
            let amount = transfer_in(tx.data).unwrap().1;
            lemma_be_nat_bound(amount);
            lemma_decimal_round_trip(n);
            lemma_u256_limit();
        },
        None => {},
    }
}

/// A number of 256 bits that may be absent, written as a record holds it,
/// reads back as itself, or as zero where it was absent and the text given
/// for its absence is empty or `0x0`.
pub proof fn lemma_hex_or_reads_back(amount: Option<nat>, absent: Seq<char>)
    requires
        amount_or_zero(amount) < pow256(32),
        absent == Seq::<char>::empty() || absent == "0x0"@,
    ensures
        U256::stored_hex_value(hex_amount_or(amount, absent)) == amount_or_zero(amount),
{
    match amount {
        Some(n) => {
            lemma_stored_hex_round_trip(n);
        },
        None => {
            if absent == Seq::<char>::empty() {
                assert(crate::numeric::hex_number_value(absent) == 0);
            } else {
                reveal_strlit("0x0");
                assert("0x0"@ =~= seq!['0', 'x'] + hex_number_text(0));
                lemma_stored_hex_round_trip(0);
            }
        },
    }
}

/// The record of a token transfer names the recipient and the amount that
/// its call data was written from, not the token's contract.
pub proof fn lemma_record_of_transfer(tx: TransactionView, to: Seq<u8>, amount: Seq<u8>)
    requires
        to.len() == 20,
        amount.len() == 32,
        tx.data == Some(transfer_call_data(to, amount)),
    ensures
        record_of(tx).to == Some(prefixed_hex(to)),
        record_of(tx).token_value == Some(decimal_text(be_nat(amount))),
{
    lemma_transfer_round_trip(to, amount);
}

} // verus!

//! Addresses, hashes and 256-bit amounts as bytes, with the texts in which
//! they are written and read.

use vstd::prelude::*;
use vstd::string::*;
use ethers::types::U256 as EthU256;
use std::str::FromStr;
use ethers::types::{H160, H256};
use crate::hexcodec::{hex_bytes, hex_digit, hex_text, hex_value, is_hex_char, is_hex_text};

verus! {

/// The number that bytes stand for, the most significant byte first.
pub open spec fn be_nat(bytes: Seq<u8>) -> nat
    decreases bytes.len(),
{
    if bytes.len() == 0 {
        0
    } else {
        be_nat(bytes.drop_last()) * 256 + bytes.last() as nat
    }
}

/// A number in a given count of bytes, the most significant byte first.
pub open spec fn be_bytes(n: nat, len: nat) -> Seq<u8>
    decreases len,
{
    if len == 0 {
        Seq::empty()
    } else {
        be_bytes(n / 256, (len - 1) as nat).push((n % 256) as u8)
    }
}

/// The first number that 256 bits cannot hold.
pub open spec fn u256_limit() -> nat {
    0x1_0000_0000_0000_0000_0000_0000_0000_0000_0000_0000_0000_0000_0000_0000_0000_0000nat
}

/// Whether a text holds decimal digits and nothing else.
pub open spec fn is_decimal(text: Seq<char>) -> bool {
    forall|i: int| 0 <= i < text.len() ==> 48 <= (#[trigger] text[i]) as u32 <= 57
}

/// The number that decimal digits stand for; the empty text stands for zero.
pub open spec fn decimal_value(text: Seq<char>) -> nat
    decreases text.len(),
{
    if text.len() == 0 {
        0
    } else {
        decimal_value(text.drop_last()) * 10 + (text.last() as u32 - 48) as nat
    }
}

/// Whether a text reads as a number of 256 bits: decimal digits whose
/// number 256 bits can hold.
pub open spec fn is_amount_text(text: Seq<char>) -> bool {
    is_decimal(text) && decimal_value(text) < u256_limit()
}

/// A number in decimal digits, without leading zeros.
pub open spec fn decimal_text(n: nat) -> Seq<char>
    decreases n,
{
    if n < 10 {
        seq![hex_digit(n as int)]
    } else {
        decimal_text(n / 10).push(hex_digit((n % 10) as int))
    }
}

/// A number in lower-case hexadecimal digits, without leading zeros.
pub open spec fn hex_number_text(n: nat) -> Seq<char>
    decreases n,
{
    if n < 16 {
        seq![hex_digit(n as int)]
    } else {
        hex_number_text(n / 16).push(hex_digit((n % 16) as int))
    }
}

/// The number that hexadecimal digits stand for; the empty text stands for
/// zero.
pub open spec fn hex_number_value(text: Seq<char>) -> nat
    decreases text.len(),
{
    if text.len() == 0 {
        0
    } else {
        hex_number_value(text.drop_last()) * 16 + hex_value(text.last()) as nat
    }
}

/// Whether a text reads as a number of 256 bits in hexadecimal: after the
/// prefix `0x`, if there is one, at most sixty-four hexadecimal digits.
pub open spec fn is_hex_amount_text(text: Seq<char>) -> bool {
    let digits = strip_0x(text);
    &&& digits.len() <= 64
    &&& forall|i: int| 0 <= i < digits.len() ==> is_hex_char(#[trigger] digits[i])
}

/// A text without a prefix, as often as it starts with it.
pub open spec fn without_prefixes(text: Seq<char>, prefix: Seq<char>) -> Seq<char>
    decreases text.len(),
{
    if prefix.len() > 0 && prefix.is_prefix_of(text) {
        without_prefixes(text.skip(prefix.len() as int), prefix)
    } else {
        text
    }
}

/// A text without the prefix `0x`, where it has one.
pub open spec fn strip_0x(text: Seq<char>) -> Seq<char> {
    if text.len() >= 2 && text[0] == '0' && text[1] == 'x' {
        text.skip(2)
    } else {
        text
    }
}

/// Whether a character is one of the white spaces that are passed over
/// between hexadecimal digits.
pub open spec fn is_skipped(c: char) -> bool {
    c == ' ' || c == '\r' || c == '\n' || c == '\t'
}

/// The bytes that a text stands for as a hash of a given width: after the
/// prefix `0x`, if there is one, and with white space passed over, exactly
/// two hexadecimal digits for each byte.
pub open spec fn fixed_hash_of(text: Seq<char>, width: nat) -> Option<Seq<u8>> {
    let digits = strip_0x(text).filter(|c: char| !is_skipped(c));
    if digits.len() == 2 * width && is_hex_text(digits) {
        Some(hex_bytes(digits))
    } else {
        None
    }
}

/// The text of bytes as a hash: `0x` and two lower-case digits for each
/// byte.
pub open spec fn prefixed_hex(bytes: Seq<u8>) -> Seq<char> {
    seq!['0', 'x'] + hex_text(bytes)
}

/// An account's address: twenty bytes.
#[derive(Clone, Copy, Debug, PartialEq, Eq)]
pub struct Address {
    pub bytes: [u8; 20],
}

impl View for Address {
    type V = Seq<u8>;

    open spec fn view(&self) -> Seq<u8> {
        self.bytes@
    }
}

/// A transaction's hash: thirty-two bytes.
#[derive(Clone, Copy, Debug, PartialEq, Eq)]
pub struct TxHash {
    pub bytes: [u8; 32],
}

impl View for TxHash {
    type V = Seq<u8>;

    open spec fn view(&self) -> Seq<u8> {
        self.bytes@
    }
}

/// An unsigned number of 256 bits: thirty-two bytes, the most significant
/// first.
#[derive(Clone, Copy, Debug, PartialEq, Eq)]
pub struct U256 {
    pub bytes: [u8; 32],
}

impl View for U256 {
    type V = Seq<u8>;

    open spec fn view(&self) -> Seq<u8> {
        self.bytes@
    }
}

/// `H160::from_str`: reads twenty bytes from forty hexadecimal digits, of
/// either case, after an optional `0x` and with blanks, tabs and line ends
/// passed over; anything else is refused. Believed of the `ethers` crate,
/// not proved.
#[verifier::external_body]
fn address_from_text(text: &str) -> (r: Option<Address>)
    ensures
        r is Some <==> fixed_hash_of(text@, 20) is Some,
        r is Some ==> Some(r.unwrap()@) == fixed_hash_of(text@, 20),
{
    H160::from_str(text).ok().map(|h| Address { bytes: h.0 })
}

/// `H256::from_str`: reads thirty-two bytes from sixty-four hexadecimal
/// digits, of either case, after an optional `0x` and with blanks, tabs and
/// line ends passed over; anything else is refused. Believed of the
/// `ethers` crate, not proved.
#[verifier::external_body]
fn hash_from_text(text: &str) -> (r: Option<TxHash>)
    ensures
        r is Some <==> fixed_hash_of(text@, 32) is Some,
        r is Some ==> Some(r.unwrap()@) == fixed_hash_of(text@, 32),
{
    H256::from_str(text).ok().map(|h| TxHash { bytes: h.0 })
}

/// `U256::from_dec_str`: reads a number from decimal digits; refuses any
/// other character and a number that 256 bits cannot hold. The empty text
/// reads as zero. Believed of the `ethers` crate, not proved.
#[verifier::external_body]
fn amount_from_decimal(text: &str) -> (r: Option<U256>)
    ensures
        r is Some <==> is_amount_text(text@),
        r is Some ==> be_nat(r.unwrap()@) == decimal_value(text@),
{
    EthU256::from_dec_str(text).ok().map(|v| U256 { bytes: v.into() })
}

/// `U256::from_str_radix` with radix sixteen: reads a number from at most
/// sixty-four hexadecimal digits, of either case, after an optional `0x`;
/// anything else is refused. The empty text reads as zero. Believed of the
/// `ethers` crate, not proved.
#[verifier::external_body]
fn amount_from_hex(text: &str) -> (r: Option<U256>)
    ensures
        r is Some <==> is_hex_amount_text(text@),
        r is Some ==> be_nat(r.unwrap()@) == hex_number_value(strip_0x(text@)),
{
    EthU256::from_str_radix(text, 16).ok().map(|v| U256 { bytes: v.into() })
}

/// `str::trim_start_matches`: the text without a prefix that is not empty,
/// as often as it starts with it.
#[verifier::external_body]
fn trim_start<'a>(text: &'a str, prefix: &str) -> (rest: &'a str)
    requires
        prefix@.len() > 0,
    ensures
        rest@ == without_prefixes(text@, prefix@),
{
    text.trim_start_matches(prefix)
}

/// `Display` of the outside `U256`: the number in decimal digits, without
/// leading zeros. Believed of the `ethers` crate, not proved.
#[verifier::external_body]
fn amount_to_decimal(amount: &U256) -> (text: String)
    ensures
        text@ == decimal_text(be_nat(amount@)),
{
    EthU256::from_big_endian(&amount.bytes).to_string()
}

/// `LowerHex` of the outside `U256` in its alternate form: `0x` and the
/// number in lower-case hexadecimal digits, without leading zeros. Believed
/// of the `ethers` crate, not proved.
#[verifier::external_body]
fn amount_to_hex(amount: &U256) -> (text: String)
    ensures
        text@ == seq!['0', 'x'] + hex_number_text(be_nat(amount@)),
{
    format!("{:#x}", EthU256::from_big_endian(&amount.bytes))
}

/// `Div` and `Rem` of the outside `U256`: quotient and remainder of a
/// division by a number that is not zero. Believed of the `ethers` crate,
/// not proved.
#[verifier::external_body]
fn amount_div_rem(amount: &U256, by: &U256) -> (r: (U256, U256))
    requires
        be_nat(by@) != 0,
    ensures
        be_nat(r.0@) == be_nat(amount@) / be_nat(by@),
        be_nat(r.1@) == be_nat(amount@) % be_nat(by@),
{
    let a = EthU256::from_big_endian(&amount.bytes);
    let b = EthU256::from_big_endian(&by.bytes);
    (U256 { bytes: (a / b).into() }, U256 { bytes: (a % b).into() })
}

impl Address {
    /// Reads an address from its text.
    pub fn from_text(text: &str) -> (r: Option<Address>)
        ensures
            r is Some <==> fixed_hash_of(text@, 20) is Some,
            r is Some ==> Some(r.unwrap()@) == fixed_hash_of(text@, 20),
    {
        address_from_text(text)
    }

    /// The address of twenty zero bytes.
    pub fn zero() -> (r: Address)
        ensures
            r@ == Seq::new(20, |i: int| 0u8),
    {
        let r = Address { bytes: [0u8; 20] };
        assert(r@ =~= Seq::new(20, |i: int| 0u8));
        r
    }

    /// The address in text: `0x` and forty lower-case hexadecimal digits.
    pub fn to_text(&self) -> (text: String)
        ensures
            text@ == prefixed_hex(self@),
    {
        let digits = crate::hexcodec::encode(self.bytes.as_slice());
        let text = "0x".to_string().concat(digits.as_str());
        proof {
            reveal_strlit("0x");
            assert("0x"@ =~= seq!['0', 'x']);
        }
        text
    }
}

impl TxHash {
    /// Reads a hash from its text.
    pub fn from_text(text: &str) -> (r: Option<TxHash>)
        ensures
            r is Some <==> fixed_hash_of(text@, 32) is Some,
            r is Some ==> Some(r.unwrap()@) == fixed_hash_of(text@, 32),
    {
        hash_from_text(text)
    }

    /// The hash in text: `0x` and sixty-four lower-case hexadecimal digits.
    pub fn to_text(&self) -> (text: String)
        ensures
            text@ == prefixed_hex(self@),
    {
        let digits = crate::hexcodec::encode(self.bytes.as_slice());
        let text = "0x".to_string().concat(digits.as_str());
        proof {
            reveal_strlit("0x");
            assert("0x"@ =~= seq!['0', 'x']);
        }
        text
    }
}

impl U256 {
    /// The number that the bytes stand for.
    pub open spec fn value(&self) -> nat {
        be_nat(self@)
    }

    /// Reads a number from decimal digits. The empty text reads as zero.
    pub fn from_dec_str(text: &str) -> (r: Option<U256>)
        ensures
            r is Some <==> is_amount_text(text@),
            r is Some ==> r.unwrap().value() == decimal_value(text@),
    {
        amount_from_decimal(text)
    }

    /// What `from_stored_hex` reads out of a text: the number behind as
    /// many prefixes `0x` as it has, or zero where that is no number.
    pub open spec fn stored_hex_value(text: Seq<char>) -> nat {
        let digits = without_prefixes(text, seq!['0', 'x']);
        if is_hex_amount_text(digits) {
            hex_number_value(strip_0x(digits))
        } else {
            0
        }
    }

    /// Reads a number as a record holds it, `0x` and hexadecimal digits;
    /// what does not read as one counts as zero.
    pub fn from_stored_hex(text: &str) -> (r: U256)
        ensures
            r.value() == Self::stored_hex_value(text@),
    {
        proof {
            reveal_strlit("0x");
            assert("0x"@ =~= seq!['0', 'x']);
        }
        let digits = trim_start(text, "0x");
        match amount_from_hex(digits) {
            Some(v) => v,
            None => Self::from_u64(0),
        }
    }

    /// The number in decimal digits.
    pub fn to_dec_string(&self) -> (text: String)
        ensures
            text@ == decimal_text(self.value()),
    {
        amount_to_decimal(self)
    }

    /// The number as `0x` and hexadecimal digits.
    pub fn to_hex_string(&self) -> (text: String)
        ensures
            text@ == seq!['0', 'x'] + hex_number_text(self.value()),
    {
        amount_to_hex(self)
    }

    /// Quotient and remainder of a division by a number that is not zero;
    /// nothing where the divisor is zero.
    pub fn div_rem(&self, by: &U256) -> (r: Option<(U256, U256)>)
        ensures
            r is Some <==> by.value() != 0,
            r is Some ==> r.unwrap().0.value() == self.value() / by.value() && r.unwrap().1.value()
                == self.value() % by.value(),
    {
        if by.is_zero() {
            None
        } else {
            Some(amount_div_rem(self, by))
        }
    }

    /// Whether the number is zero.
    pub fn is_zero(&self) -> (r: bool)
        ensures
            r == (self.value() == 0),
    {
        let mut i: usize = 0;
        while i < 32
            invariant
                i <= 32,
                forall|j: int| 0 <= j < i ==> self@[j] == 0,
            decreases 32 - i,
        {
            if self.bytes[i] != 0 {
                proof {
                    lemma_be_nat_positive(self@, i as int);
                }
                return false;
            }
            i += 1;
        }
        proof {
            lemma_be_nat_zero(self@);
        }
        true
    }

    /// The number of a `u64`.
    pub fn from_u64(n: u64) -> (r: U256)
        ensures
            r.value() == n,
    {
        let mut bytes = [0u8; 32];
        let mut rest = n;
        let mut k: usize = 0;
        proof {
            assert(bytes@.skip(32) =~= Seq::<u8>::empty());
            assert(pow256(0) == 1);
        }
        while k < 8
            invariant
                k <= 8,
                forall|j: int| 0 <= j < 32 - k ==> bytes@[j] == 0,
                be_nat(bytes@.skip(32 - k)) + rest * pow256(k as nat) == n,
                be_nat(bytes@.skip(32 - k)) < pow256(k as nat),
            decreases 8 - k,
        {
            let ghost before = bytes@;
            bytes[31 - k] = (rest % 256) as u8;
            proof {
                let tail = before.skip(32 - k);
                assert(bytes@.skip(31 - k) =~= seq![(rest % 256) as u8] + tail);
                lemma_be_nat_prepend((rest % 256) as u8, tail);
                lemma_pow256_step(k as nat);
                assert(rest == (rest / 256) * 256 + rest % 256);
                assert((rest / 256) * pow256((k + 1) as nat) == (rest / 256) * 256 * pow256(
                    k as nat,
                )) by (nonlinear_arith)
                    requires
                        pow256((k + 1) as nat) == 256 * pow256(k as nat),
                ;
                assert(rest * pow256(k as nat) == (rest / 256) * 256 * pow256(k as nat) + (rest
                    % 256) * pow256(k as nat)) by (nonlinear_arith)
                    requires
                        rest == (rest / 256) * 256 + rest % 256,
                ;
                assert((rest % 256) * pow256(k as nat) + pow256(k as nat) <= 256 * pow256(
                    k as nat,
                )) by (nonlinear_arith)
                    requires
                        rest % 256 <= 255,
                ;
            }
            rest = rest / 256;
            k += 1;
        }
        proof {
            lemma_pow256_values();
            assert(rest == 0) by (nonlinear_arith)
                requires
                    rest * pow256(8) <= n,
                    n < 0x1_0000_0000_0000_0000int,
                    pow256(8) == 0x1_0000_0000_0000_0000int,
                    rest >= 0,
            ;
            lemma_be_nat_leading_zeros(bytes@, 24);
        }
        U256 { bytes }
    }

    /// The number as a `u64`, where it is small enough.
    pub fn as_u64(&self) -> (r: Option<u64>)
        ensures
            r is Some <==> self.value() <= u64::MAX,
            r is Some ==> r.unwrap() == self.value(),
    {
        let mut acc: u64 = 0;
        let mut i: usize = 0;
        while i < 32
            invariant
                i <= 32,
                acc == be_nat(self@.take(i as int)),
            decreases 32 - i,
        {
            let b = self.bytes[i];
            proof {
                assert(self@.take(i + 1).drop_last() =~= self@.take(i as int));
                assert(self@.take(i + 1).last() == b);
            }
            if acc > (u64::MAX - b as u64) / 256 {
                proof {
                    lemma_be_nat_prefix(self@, i + 1);
                }
                return None;
            }
            acc = acc * 256 + b as u64;
            i += 1;
        }
        proof {
            assert(self@.take(32) =~= self@);
        }
        Some(acc)
    }
}

/// Two hundred and fifty-six to a power.
pub open spec fn pow256(k: nat) -> nat
    decreases k,
{
    if k == 0 {
        1
    } else {
        256 * pow256((k - 1) as nat)
    }
}

/// Each power of 256 is 256 times the one before.
pub proof fn lemma_pow256_step(k: nat)
    ensures
        pow256(k + 1) == 256 * pow256(k),
        pow256(k) > 0,
    decreases k,
{
    if k > 0 {
        lemma_pow256_step((k - 1) as nat);
    }
}

/// The eighth power of 256 is the first number that 64 bits cannot hold.
pub proof fn lemma_pow256_values()
    ensures
        pow256(8) == 0x1_0000_0000_0000_0000int,
{
    reveal_with_fuel(pow256, 9);
}

/// Sixteen to a power.
pub open spec fn pow16(k: nat) -> nat
    decreases k,
{
    if k == 0 {
        1
    } else {
        16 * pow16((k - 1) as nat)
    }
}

/// Two digits of sixteen make one of two hundred and fifty-six.
pub proof fn lemma_pow16_pow256(k: nat)
    ensures
        pow16(2 * k) == pow256(k),
    decreases k,
{
    if k > 0 {
        lemma_pow16_pow256((k - 1) as nat);
        assert(pow16(2 * k) == 16 * pow16((2 * k - 1) as nat));
        assert(pow16((2 * k - 1) as nat) == 16 * pow16((2 * k - 2) as nat));
    }
}

/// The thirty-second power of 256 is the first number that 256 bits cannot
/// hold.
pub proof fn lemma_u256_limit()
    ensures
        pow256(32) == u256_limit(),
{
    reveal_with_fuel(pow256, 33);
}

/// Bytes stand for a number below 256 to the power of their count.
pub proof fn lemma_be_nat_bound(bytes: Seq<u8>)
    ensures
        be_nat(bytes) < pow256(bytes.len()),
{
    lemma_be_nat_prepend(0u8, bytes);
}

/// A filter keeps a sequence whose every element passes.
pub proof fn lemma_filter_keeps_all(text: Seq<char>, pred: spec_fn(char) -> bool)
    requires
        forall|i: int| 0 <= i < text.len() ==> pred(#[trigger] text[i]),
    ensures
        text.filter(pred) == text,
    decreases text.len(),
{
    reveal(Seq::filter);
    if text.len() > 0 {
        lemma_filter_keeps_all(text.drop_last(), pred);
        assert(text.drop_last().push(text.last()) =~= text);
    }
}

/// A number written in decimal digits reads back as itself.
pub proof fn lemma_decimal_round_trip(n: nat)
    ensures
        is_decimal(decimal_text(n)),
        decimal_value(decimal_text(n)) == n,
    decreases n,
{
    let text = decimal_text(n);
    if n < 10 {
        assert(text.drop_last() =~= Seq::<char>::empty());
        assert(decimal_value(Seq::<char>::empty()) == 0);
        assert(text.last() == hex_digit(n as int));
    } else {
        lemma_decimal_round_trip(n / 10);
        assert(text.drop_last() =~= decimal_text(n / 10));
        assert(text.last() == hex_digit((n % 10) as int));
        assert forall|i: int| 0 <= i < text.len() implies 48 <= (#[trigger] text[i]) as u32 <= 57 by {
            if i < text.len() - 1 {
                assert(text[i] == decimal_text(n / 10)[i]);
            }
        }
    }
}

/// A number below sixteen to some power, written in hexadecimal digits,
/// has at most so many digits, each a hexadecimal digit, and reads back as
/// itself.
pub proof fn lemma_hex_number_round_trip(n: nat, digits: nat)
    requires
        digits >= 1,
        n < pow16(digits),
    ensures
        1 <= hex_number_text(n).len() <= digits,
        forall|i: int|
            0 <= i < hex_number_text(n).len() ==> is_hex_char(#[trigger] hex_number_text(n)[i]),
        hex_number_value(hex_number_text(n)) == n,
    decreases n,
{
    let text = hex_number_text(n);
    if n < 16 {
        assert(text.drop_last() =~= Seq::<char>::empty());
        assert(hex_number_value(Seq::<char>::empty()) == 0);
        crate::hexcodec::lemma_hex_digit_value(n as int);
    } else {
        assert(digits >= 2) by {
            assert(pow16(1) == 16 * pow16(0));
        }
        assert(pow16(digits) == 16 * pow16((digits - 1) as nat));
        lemma_hex_number_round_trip(n / 16, (digits - 1) as nat);
        crate::hexcodec::lemma_hex_digit_value((n % 16) as int);
        assert(text.drop_last() =~= hex_number_text(n / 16));
        assert(text.last() == hex_digit((n % 16) as int));
        assert forall|i: int| 0 <= i < text.len() implies is_hex_char(#[trigger] text[i]) by {
            if i < text.len() - 1 {
                assert(text[i] == hex_number_text(n / 16)[i]);
            }
        }
    }
}

/// A number of 256 bits that a record holds as `0x` and hexadecimal digits
/// reads back as itself.
pub proof fn lemma_stored_hex_round_trip(n: nat)
    requires
        n < pow256(32),
    ensures
        U256::stored_hex_value(seq!['0', 'x'] + hex_number_text(n)) == n,
{
    let prefix = seq!['0', 'x'];
    let digits = hex_number_text(n);
    let text = prefix + digits;
    lemma_pow16_pow256(32);
    lemma_hex_number_round_trip(n, 64);
    assert(prefix.is_prefix_of(text)) by {
        assert(text.subrange(0, 2) =~= prefix);
    }
    assert(text.skip(2) =~= digits);
    assert(!prefix.is_prefix_of(digits)) by {
        if digits.len() >= 2 {
            assert(is_hex_char(digits[1]));
            assert(digits.subrange(0, 2)[1] == digits[1]);
        }
    }
    assert(without_prefixes(digits, prefix) == digits);
    assert(without_prefixes(text, prefix) == digits);
    assert(strip_0x(digits) == digits) by {
        if digits.len() >= 2 {
            assert(is_hex_char(digits[1]));
        }
    }
}

/// The text of an address reads back as the address.
pub proof fn lemma_address_round_trip(address: Seq<u8>)
    requires
        address.len() == 20,
    ensures
        fixed_hash_of(prefixed_hex(address), 20) == Some(address),
{
    lemma_fixed_hash_round_trip(address);
}

/// The text of bytes as a hash reads back as the bytes.
pub proof fn lemma_fixed_hash_round_trip(bytes: Seq<u8>)
    ensures
        fixed_hash_of(prefixed_hex(bytes), bytes.len()) == Some(bytes),
{
    let digits = hex_text(bytes);
    let text = prefixed_hex(bytes);
    crate::hexcodec::lemma_hex_round_trip(bytes);
    assert(text.skip(2) =~= digits);
    assert(strip_0x(text) == digits);
    let pred = |c: char| !is_skipped(c);
    assert forall|i: int| 0 <= i < digits.len() implies pred(#[trigger] digits[i]) by {
        assert(is_hex_char(digits[i]));
    }
    lemma_filter_keeps_all(digits, pred);
}

/// Bytes that are all zero stand for zero.
pub proof fn lemma_be_nat_zero(bytes: Seq<u8>)
    requires
        forall|i: int| 0 <= i < bytes.len() ==> bytes[i] == 0,
    ensures
        be_nat(bytes) == 0,
    decreases bytes.len(),
{
    if bytes.len() > 0 {
        lemma_be_nat_zero(bytes.drop_last());
    }
}

/// Bytes one of which is not zero stand for a number that is not zero.
pub proof fn lemma_be_nat_positive(bytes: Seq<u8>, i: int)
    requires
        0 <= i < bytes.len(),
        bytes[i] != 0,
    ensures
        be_nat(bytes) > 0,
    decreases bytes.len(),
{
    if i < bytes.len() - 1 {
        lemma_be_nat_positive(bytes.drop_last(), i);
    }
}

/// A byte put before others adds its value at their height.
pub proof fn lemma_be_nat_prepend(b: u8, rest: Seq<u8>)
    ensures
        be_nat(seq![b] + rest) == b * pow256(rest.len()) + be_nat(rest),
        be_nat(rest) < pow256(rest.len()),
    decreases rest.len(),
{
    if rest.len() == 0 {
        assert(seq![b] + rest =~= seq![b]);
        assert(seq![b].drop_last() =~= Seq::<u8>::empty());
        assert(be_nat(Seq::<u8>::empty()) == 0);
        assert(be_nat(seq![b]) == be_nat(seq![b].drop_last()) * 256 + b as nat);
        assert(pow256(0) == 1);
    } else {
        let front = rest.drop_last();
        let high = pow256(front.len());
        lemma_be_nat_prepend(b, front);
        assert((seq![b] + rest).drop_last() =~= seq![b] + front);
        assert((seq![b] + rest).last() == rest.last());
        lemma_pow256_step(front.len());
        assert(pow256(rest.len()) == 256 * high);
        assert(be_nat(seq![b] + rest) == (b * high + be_nat(front)) * 256 + rest.last() as nat);
        assert((b * high + be_nat(front)) * 256 == b * (256 * high) + be_nat(front) * 256)
            by (nonlinear_arith);
        assert(be_nat(rest) == be_nat(front) * 256 + rest.last() as nat);
    }
}

/// Zero bytes in front change nothing.
pub proof fn lemma_be_nat_leading_zeros(bytes: Seq<u8>, zeros: int)
    requires
        0 <= zeros <= bytes.len(),
        forall|i: int| 0 <= i < zeros ==> bytes[i] == 0,
    ensures
        be_nat(bytes) == be_nat(bytes.skip(zeros)),
    decreases zeros,
{
    if zeros > 0 {
        lemma_be_nat_leading_zeros(bytes, zeros - 1);
        let tail = bytes.skip(zeros);
        assert(bytes.skip(zeros - 1) =~= seq![0u8] + tail);
        lemma_be_nat_prepend(0u8, tail);
    } else {
        assert(bytes.skip(0) =~= bytes);
    }
}

/// Bytes are the bytes of the number they stand for.
pub proof fn lemma_be_bytes_of_be_nat(bytes: Seq<u8>)
    ensures
        be_bytes(be_nat(bytes), bytes.len()) == bytes,
    decreases bytes.len(),
{
    if bytes.len() > 0 {
        lemma_be_bytes_of_be_nat(bytes.drop_last());
        let front = be_nat(bytes.drop_last());
        assert((front * 256 + bytes.last() as nat) / 256 == front);
        assert((front * 256 + bytes.last() as nat) % 256 == bytes.last() as nat);
        assert(be_bytes(be_nat(bytes), bytes.len()) =~= bytes);
    } else {
        assert(be_bytes(be_nat(bytes), bytes.len()) =~= bytes);
    }
}

/// The number of a prefix is at most the number of the whole.
pub proof fn lemma_be_nat_prefix(bytes: Seq<u8>, n: int)
    requires
        0 <= n <= bytes.len(),
    ensures
        be_nat(bytes.take(n)) <= be_nat(bytes),
    decreases bytes.len() - n,
{
    if n < bytes.len() {
        lemma_be_nat_prefix(bytes, n + 1);
        assert(bytes.take(n + 1).drop_last() =~= bytes.take(n));
    } else {
        assert(bytes.take(n) =~= bytes);
    }
}

} // verus!

//! Fixed-size Ethereum values held as plain bytes, and the calls into
//! `ethers` that hash, encode, parse and print them.

use vstd::prelude::*;
use ethers::abi::AbiEncode;
use crate::text::{all_digits, decimal_of, digits_value, utf8_bytes, utf8_len};
use ethers::types::{H160 as EthAddress, H256 as EthH256, U256 as EthU256};

verus! {

/// A 20-byte account address.
#[derive(Clone, Copy, Debug, PartialEq, Eq)]
pub struct Address {
    pub bytes: [u8; 20],
}

/// A 32-byte hash.
#[derive(Clone, Copy, Debug, PartialEq, Eq)]
pub struct H256 {
    pub bytes: [u8; 32],
}

/// A 256-bit unsigned integer, held as its 32 big-endian bytes.
#[derive(Clone, Copy, Debug, PartialEq, Eq)]
pub struct U256 {
    pub be: [u8; 32],
}

/// The numeric value of a big-endian byte sequence.
pub open spec fn be_value(bytes: Seq<u8>) -> nat
    decreases bytes.len(),
{
    if bytes.len() == 0 {
        0
    } else {
        be_value(bytes.drop_last()) * 256 + bytes.last() as nat
    }
}

impl U256 {
    /// The number this value stands for.
    pub open spec fn value(self) -> nat {
        be_value(self.be@)
    }
}

/// The 32-byte ABI word of a `uint64`: 24 zero bytes, then the value
/// big-endian.
pub open spec fn u64_word(x: u64) -> Seq<u8> {
    Seq::new(32, |i: int| if i < 24 { 0u8 } else { ((x as int / pow256(31 - i)) % 256) as u8 })
}

/// `256^n`.
pub open spec fn pow256(n: int) -> int
    decreases n,
{
    if n <= 0 {
        1
    } else {
        256 * pow256(n - 1)
    }
}

/// `256^n` is positive.
pub proof fn lemma_pow256_pos(n: int)
    ensures
        pow256(n) > 0,
    decreases n,
{
    if n > 0 {
        lemma_pow256_pos(n - 1);
    }
}

/// `256^n` grows with `n`.
pub proof fn lemma_pow256_grows(n: int, m: int)
    requires
        0 <= n <= m,
    ensures
        pow256(n) <= pow256(m),
    decreases m - n,
{
    if n < m {
        lemma_pow256_grows(n, m - 1);
        lemma_pow256_pos(m - 1);
    }
}

/// The first `k` bytes of the word of `x` read, big-endian, as what is
/// left of `x` after its last `32 - k` bytes are cut off.
proof fn lemma_u64_word_prefix(x: u64, k: int)
    requires
        0 <= k <= 32,
    ensures
        be_value(u64_word(x).take(k)) == x as int / pow256(32 - k),
    decreases k,
{
    let w = u64_word(x);
    let p = pow256(32 - k);
    lemma_pow256_pos(32 - k);
    assert(pow256(8) == 0x1_0000_0000_0000_0000) by {
        reveal_with_fuel(pow256, 9);
    }
    if k == 0 {
        lemma_pow256_grows(8, 32);
        vstd::arithmetic::div_mod::lemma_basic_div(x as int, p);
        assert(w.take(0) =~= Seq::<u8>::empty());
    } else {
        lemma_u64_word_prefix(x, k - 1);
        assert(w.take(k).drop_last() =~= w.take(k - 1));
        assert(pow256(33 - k) == 256 * p);
        vstd::arithmetic::div_mod::lemma_div_denominator(x as int, p, 256);
        vstd::arithmetic::div_mod::lemma_fundamental_div_mod(x as int / p, 256);
        if k <= 24 {
            lemma_pow256_grows(8, 32 - k);
            vstd::arithmetic::div_mod::lemma_basic_div(x as int, p);
        }
        assert(w[k - 1] as int == (x as int / p) % 256);
    }
}

/// The ABI word of a `uint64` reads back, big-endian, as that number.
pub proof fn lemma_u64_word_value(x: u64)
    ensures
        u64_word(x).len() == 32,
        be_value(u64_word(x)) == x,
{
    lemma_u64_word_prefix(x, 32);
    assert(u64_word(x).take(32) =~= u64_word(x));
    assert(pow256(0) == 1);
}

/// A big-endian number of `n` bytes is below `256^n`.
pub proof fn lemma_be_value_bound(bytes: Seq<u8>)
    ensures
        be_value(bytes) < pow256(bytes.len() as int),
    decreases bytes.len(),
{
    if bytes.len() > 0 {
        lemma_be_value_bound(bytes.drop_last());
    }
}

/// A big-endian number of eight bytes fits in a `u64`.
pub proof fn lemma_be_value_fits_u64(bytes: Seq<u8>)
    requires
        bytes.len() == 8,
    ensures
        be_value(bytes) <= u64::MAX,
{
    lemma_be_value_bound(bytes);
    assert(pow256(8) == 0x1_0000_0000_0000_0000) by {
        reveal_with_fuel(pow256, 9);
    }
}

/// Bytes that end with the word of `x`: their last 32 bytes read as `x`,
/// and what comes before them is what came before the word.
pub proof fn lemma_ends_with_u64_word(head: Seq<u8>, x: u64)
    ensures
        ({
            let d = head + u64_word(x);
            &&& d.len() >= 32
            &&& be_value(d.subrange(d.len() - 32, d.len() as int)) == x
            &&& d.subrange(0, d.len() - 32) == head
        }),
{
    lemma_u64_word_value(x);
    let d = head + u64_word(x);
    assert(d.subrange(d.len() - 32, d.len() as int) =~= u64_word(x));
    assert(d.subrange(0, d.len() - 32) =~= head);
}

/// The 32-byte ABI word of an address: 12 zero bytes, then the address.
pub open spec fn address_word(a: Seq<u8>) -> Seq<u8> {
    Seq::new(12, |i: int| 0u8) + a
}

/// The Keccak-256 digest of `data`.
pub uninterp spec fn keccak256_of(data: Seq<u8>) -> Seq<u8>;

/// Calls `ethers::utils::keccak256`. Claimed: the 32-byte digest is a
/// function of the input bytes alone.
#[verifier::external_body]
pub(crate) fn keccak256(data: &[u8]) -> (res: [u8; 32])
    ensures
        res@ == keccak256_of(data@),
{
    ethers::utils::keccak256(data)
}

/// Calls `AbiEncode::encode` on an `ethers` address. Claimed: the
/// address is left-padded with zeros to one 32-byte word, as the
/// contract ABI prescribes for `address`.
#[verifier::external_body]
pub(crate) fn abi_encode_address(a: Address) -> (res: Vec<u8>)
    ensures
        res@ == address_word(a.bytes@),
{
    EthAddress(a.bytes).encode()
}

/// Calls `AbiEncode::encode` on an `ethers` `U256`. Claimed: the word is
/// the 32 big-endian bytes of the number, as the ABI prescribes for
/// `uint256`.
#[verifier::external_body]
pub(crate) fn abi_encode_u256(x: U256) -> (res: Vec<u8>)
    ensures
        res@ == x.be@,
{
    EthU256::from_big_endian(&x.be).encode()
}

/// Calls `AbiEncode::encode` on an `ethers` `H256`. Claimed: the word is
/// the 32 bytes themselves, as the ABI prescribes for `bytes32`.
#[verifier::external_body]
pub(crate) fn abi_encode_h256(h: H256) -> (res: Vec<u8>)
    ensures
        res@ == h.bytes@,
{
    EthH256(h.bytes).encode()
}

/// Calls `AbiEncode::encode` on a `u64`. Claimed: the word is the value
/// big-endian, left-padded with zeros to 32 bytes, as the ABI prescribes
/// for `uint64`.
#[verifier::external_body]
pub(crate) fn abi_encode_u64(x: u64) -> (res: Vec<u8>)
    ensures
        res@ == u64_word(x),
{
    x.encode()
}

} // verus!

verus! {

/// Calls `U256::from(u64)` and `U256::to_big_endian`. Claimed: the 32
/// bytes are the value big-endian, left-padded with zeros.
#[verifier::external_body]
pub(crate) fn u256_from_u64(x: u64) -> (res: U256)
    ensures
        res.be@ == u64_word(x),
{
    let mut be = [0u8; 32];
    EthU256::from(x).to_big_endian(&mut be);
    U256 { be }
}

/// Calls `U256::low_u64`. Claimed: the result is the value's lowest 64
/// bits, the number of its last eight bytes.
#[verifier::external_body]
pub(crate) fn u256_low_u64(x: U256) -> (res: u64)
    ensures
        res == be_value(x.be@.subrange(24, 32)),
{
    EthU256::from_big_endian(&x.be).low_u64()
}

/// Appends the bytes of `src` to `dst`.
pub fn append_bytes(dst: &mut Vec<u8>, src: &[u8])
    ensures
        final(dst)@ == old(dst)@ + src@,
{
    let n = src.len();
    let mut i: usize = 0;
    while i < n
        invariant
            n == src@.len(),
            i <= n,
            dst@ == old(dst)@ + src@.subrange(0, i as int),
        decreases n - i,
    {
        dst.push(src[i]);
        i = i + 1;
        proof {
            assert(src@.subrange(0, i as int) =~= src@.subrange(0, i - 1).push(src@[i - 1]));
        }
    }
    proof {
        assert(src@.subrange(0, n as int) =~= src@);
    }
}

} // verus!

verus! {

/// A character that hex decoding passes over: space, tab, CR, LF.
pub open spec fn is_hex_skip(c: char) -> bool {
    c == ' ' || c == '\t' || c == '\r' || c == '\n'
}

/// One of `0-9`, `a-f`, `A-F`.
pub open spec fn is_hex_digit(c: char) -> bool {
    ('0' <= c && c <= '9') || ('a' <= c && c <= 'f') || ('A' <= c && c <= 'F')
}

/// The value of a hex digit.
pub open spec fn hex_value(c: char) -> int {
    if '0' <= c && c <= '9' {
        c as int - '0' as int
    } else if 'a' <= c && c <= 'f' {
        c as int - 'a' as int + 10
    } else {
        c as int - 'A' as int + 10
    }
}

/// The bytes that consecutive pairs of hex digits spell.
pub open spec fn hex_pairs(d: Seq<char>) -> Seq<u8> {
    Seq::new(d.len() / 2, |i: int| (hex_value(d[2 * i]) * 16 + hex_value(d[2 * i + 1])) as u8)
}

/// What `Address::from_str` reads: an optional `0x`, then exactly 40 hex
/// digits, with spaces, tabs and line breaks among them passed over.
pub open spec fn address_from_str(s: Seq<char>) -> Option<Seq<u8>> {
    let t = if s.len() >= 2 && s[0] == '0' && s[1] == 'x' {
        s.skip(2)
    } else {
        s
    };
    let d = t.filter(|c: char| !is_hex_skip(c));
    if d.len() == 40 && forall|i: int| 0 <= i < d.len() ==> is_hex_digit(#[trigger] d[i]) {
        Some(hex_pairs(d))
    } else {
        None
    }
}

/// The lower-case hex digit of a value below 16.
pub open spec fn lower_hex_digit(v: int) -> char {
    if v < 10 {
        (v + '0' as int) as char
    } else {
        (v - 10 + 'a' as int) as char
    }
}

/// Two lower-case hex digits per byte.
pub open spec fn lower_hex(bytes: Seq<u8>) -> Seq<char> {
    Seq::new(
        bytes.len() * 2,
        |i: int|
            if i % 2 == 0 {
                lower_hex_digit(bytes[i / 2] as int / 16)
            } else {
                lower_hex_digit(bytes[i / 2] as int % 16)
            },
    )
}

/// `0x` followed by the lower-case hex digits of `bytes`: how `{:?}`
/// prints an address or a hash.
pub open spec fn hex_string(bytes: Seq<u8>) -> Seq<char> {
    seq!['0', 'x'] + lower_hex(bytes)
}

impl Address {
    /// Calls `Address::from_str`. Claimed: it succeeds exactly on an
    /// optional `0x` followed by 40 hex digits (spaces, tabs and line
    /// breaks among them passed over), and gives the bytes they spell.
    #[verifier::external_body]
    pub(crate) fn parse(s: &str) -> (res: Option<Address>)
        ensures
            match res {
                Some(a) => address_from_str(s@) == Some(a.bytes@),
                None => address_from_str(s@) is None,
            },
    {
        s.parse::<EthAddress>().ok().map(|a| Address { bytes: a.0 })
    }

    /// Calls `{:?}` on an `ethers` address. Claimed: `0x` followed by two
    /// lower-case hex digits per byte.
    #[verifier::external_body]
    pub(crate) fn to_hex_string(&self) -> (res: String)
        ensures
            res@ == hex_string(self.bytes@),
    {
        format!("{:?}", EthAddress(self.bytes))
    }
}

impl H256 {
    /// Calls `{:?}` on an `ethers` `H256`. Claimed: `0x` followed by two
    /// lower-case hex digits per byte.
    #[verifier::external_body]
    pub(crate) fn to_hex_string(&self) -> (res: String)
        ensures
            res@ == hex_string(self.bytes@),
    {
        format!("{:?}", EthH256(self.bytes))
    }
}

/// Wei in one ether.
pub open spec fn wei_per_ether() -> nat {
    1_000_000_000_000_000_000
}

/// `n` in decimal, left-padded with zeros to `width` digits.
pub open spec fn zero_padded(n: nat, width: nat) -> Seq<char> {
    let d = decimal_of(n);
    if d.len() >= width {
        d
    } else {
        Seq::new((width - d.len()) as nat, |i: int| '0') + d
    }
}

/// How an amount of wei is written in ether: the whole ether, a point,
/// and the rest as 18 digits.
pub open spec fn ether_text(wei: nat) -> Seq<char> {
    decimal_of(wei / wei_per_ether()) + seq!['.'] + zero_padded(wei % wei_per_ether(), 18)
}

impl U256 {
    /// Calls `U256`'s `Display`. Claimed: the decimal digits of the
    /// number, without leading zeros.
    #[verifier::external_body]
    pub(crate) fn to_string(&self) -> (res: String)
        ensures
            res@ == decimal_of(self.value()),
    {
        EthU256::from_big_endian(&self.be).to_string()
    }
}

/// `2^256`.
pub open spec fn two_256() -> nat {
    pow256(32) as nat
}

/// `2^255`.
pub open spec fn two_255() -> nat {
    (pow256(32) / 2) as nat
}

/// `10^n`.
pub open spec fn pow10(n: nat) -> nat
    decreases n,
{
    if n == 0 {
        1
    } else {
        10 * pow10((n - 1) as nat)
    }
}

/// The place of the first `c` in `s`.
pub open spec fn first_index(s: Seq<char>, c: char) -> Option<int>
    decreases s.len(),
{
    if s.len() == 0 {
        None
    } else if s[0] == c {
        Some(0)
    } else {
        match first_index(s.drop_first(), c) {
            Some(i) => Some(i + 1),
            None => None,
        }
    }
}

/// What `U256::from_dec_str` reads: decimal digits only (none reads as
/// zero), whose value fits in 256 bits.
pub open spec fn u256_dec(u: Seq<char>) -> Option<nat> {
    if (u.len() == 0 || all_digits(u)) && digits_value(u) < two_256() {
        Some(digits_value(u))
    } else {
        None
    }
}

/// What `I256::from_dec_str` reads: an optional sign, then what
/// `U256::from_dec_str` reads, where the signed value fits (a negative
/// zero does not).
pub open spec fn i256_dec(u: Seq<char>) -> Option<int> {
    let negative = u.len() > 0 && u[0] == '-';
    let body = if u.len() > 0 && (u[0] == '-' || u[0] == '+') {
        u.skip(1)
    } else {
        u
    };
    match u256_dec(body) {
        Some(a) => if negative {
            if 0 < a && a <= two_255() {
                Some(-(a as int))
            } else {
                None
            }
        } else if a < two_255() {
            Some(a as int)
        } else {
            None
        },
        None => None,
    }
}

/// The 256-bit pattern (two's complement) of a signed number.
pub open spec fn raw_256(n: int) -> nat {
    if n >= 0 {
        n as nat
    } else {
        (two_256() + n) as nat
    }
}

/// How many characters at the end of `u` make up its last `n` bytes;
/// none where byte `n` from the end falls inside a character.
pub open spec fn chars_in_last_bytes(u: Seq<char>, n: nat) -> Option<nat>
    decreases u.len(),
{
    if n == 0 {
        Some(0)
    } else if u.len() == 0 || utf8_len(u.last()) > n {
        None
    } else {
        match chars_in_last_bytes(u.drop_last(), (n - utf8_len(u.last())) as nat) {
            Some(k) => Some(k + 1),
            None => None,
        }
    }
}

/// The text `parse_ether` works on: `s` without underscores.
pub open spec fn ether_input(s: Seq<char>) -> Seq<char> {
    s.filter(|c: char| c != '_')
}

/// Whether the amount is negative: its text starts with `-`.
pub open spec fn ether_negative(s: Seq<char>) -> bool {
    ether_input(s).len() > 0 && ether_input(s)[0] == '-'
}

/// The characters of the amount with its first `.` taken out.
pub open spec fn ether_digits(s: Seq<char>) -> Seq<char> {
    let t = ether_input(s);
    match first_index(t, '.') {
        Some(d) => t.take(d) + t.skip(d + 1),
        None => t,
    }
}

/// The number of bytes after the amount's first `.`.
pub open spec fn ether_decimals(s: Seq<char>) -> nat {
    let t = ether_input(s);
    match first_index(t, '.') {
        Some(d) => utf8_bytes(t.skip(d + 1)),
        None => 0,
    }
}

/// Whether `parse_ether` panics on `s`: where more than 18 decimals are
/// cut off at a byte inside a character, or where the amount scaled to
/// wei overflows (256 bits for a positive amount; 255 bits for a
/// negative one, whose overflow panics where debug assertions are on).
pub open spec fn parse_ether_panics(s: Seq<char>) -> bool {
    let u = ether_digits(s);
    let d = ether_decimals(s);
    if d > 18 {
        chars_in_last_bytes(u, (d - 18) as nat) is None
    } else if ether_negative(s) {
        u != seq!['-'] && match i256_dec(u) {
            Some(n) => -n * pow10((18 - d) as nat) > two_255(),
            None => false,
        }
    } else {
        match u256_dec(u) {
            Some(v) => v * pow10((18 - d) as nat) >= two_256(),
            None => false,
        }
    }
}

/// What `parse_ether` reads from `s`, where it does not panic: the
/// amount of ether as wei (a negative amount as its 256-bit pattern),
/// decimals beyond 18 cut off; none where the text is no such amount.
/// After underscores are dropped and the first `.` taken out, the digits
/// are read as `U256::from_dec_str` does (as `I256::from_dec_str` does
/// for a negative amount, a lone `-` reading as zero).
pub open spec fn parse_ether_value(s: Seq<char>) -> Option<nat> {
    let u = ether_digits(s);
    let d = ether_decimals(s);
    if d > 18 {
        let w = u.take(u.len() - chars_in_last_bytes(u, (d - 18) as nat).unwrap());
        if ether_negative(s) {
            if w == seq!['-'] {
                Some(0)
            } else {
                match i256_dec(w) {
                    Some(n) => Some(raw_256(n)),
                    None => None,
                }
            }
        } else {
            u256_dec(w)
        }
    } else if ether_negative(s) {
        if u == seq!['-'] {
            Some(0)
        } else {
            match i256_dec(u) {
                Some(n) => Some(raw_256(n * pow10((18 - d) as nat))),
                None => None,
            }
        }
    } else {
        match u256_dec(u) {
            Some(v) => Some(v * pow10((18 - d) as nat)),
            None => None,
        }
    }
}

/// Calls `ethers::utils::parse_ether`, which reads a decimal amount of
/// ether as wei (`parse_units` with 18 decimals). Claimed: it succeeds
/// exactly where `parse_ether_value` gives a value, with that value.
/// Text on which it panics is left out.
#[verifier::external_body]
pub(crate) fn parse_ether(s: &str) -> (res: Option<U256>)
    requires
        !parse_ether_panics(s@),
    ensures
        match res {
            Some(v) => parse_ether_value(s@) == Some(v.value()),
            None => parse_ether_value(s@) is None,
        },
{
    match ethers::utils::parse_ether(s) {
        Ok(v) => {
            let mut be = [0u8; 32];
            v.to_big_endian(&mut be);
            Some(U256 { be })
        },
        Err(_) => None,
    }
}

/// Calls `ethers::utils::format_ether`. Claimed: it writes the whole
/// ether, a point and the remaining wei as 18 zero-padded digits (what
/// `format_units` does for a `U256` and 18 decimals).
#[verifier::external_body]
pub(crate) fn format_ether(wei: U256) -> (res: String)
    ensures
        res@ == ether_text(wei.value()),
{
    ethers::utils::format_ether(EthU256::from_big_endian(&wei.be))
}

} // verus!

verus! {

/// The text that `BigDecimal::from_str` followed by `to_string` gives.
pub uninterp spec fn big_decimal_text_of(s: Seq<char>) -> Option<Seq<char>>;

/// Calls `BigDecimal::from_str` and prints the number it reads with
/// `to_string`. Claimed: the outcome is a function of the text alone.
#[verifier::external_body]
pub(crate) fn big_decimal_text(s: &str) -> (res: Option<String>)
    ensures
        match res {
            Some(t) => big_decimal_text_of(s@) == Some(t@),
            None => big_decimal_text_of(s@) is None,
        },
{
    <bigdecimal::BigDecimal as std::str::FromStr>::from_str(s).ok().map(|d| d.to_string())
}

} // verus!

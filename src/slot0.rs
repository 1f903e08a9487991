//! Decoding of the packed 32-byte `slot0` storage word of a concentrated
//! liquidity pool into its current price and tick.

use vstd::prelude::*;
use vstd::arithmetic::power2::{pow2, lemma_pow2_adds, lemma2_to64};

verus! {

/// Placeholder for the protocol fee: the byte that holds it is not decoded.
pub const FEE_PROTOCOL_PLACEHOLDER: &'static str = "0x0";

/// Length of the `slot0` storage word in bytes.
pub const SLOT0_WORD_LEN: usize = 32;

pub open spec fn is_hex_digit(c: char) -> bool {
    ('0' <= c && c <= '9') || ('a' <= c && c <= 'f') || ('A' <= c && c <= 'F')
}

pub open spec fn hex_digit_value(c: char) -> int {
    if '0' <= c && c <= '9' {
        c as int - '0' as int
    } else if 'a' <= c && c <= 'f' {
        c as int - 'a' as int + 10
    } else {
        c as int - 'A' as int + 10
    }
}

/// The digits of a hex text: what follows a leading `0x` or `0X`, if any.
pub open spec fn hex_body(s: Seq<char>) -> Seq<char> {
    if s.len() >= 2 && s[0] == '0' && (s[1] == 'x' || s[1] == 'X') {
        s.subrange(2, s.len() as int)
    } else {
        s
    }
}

/// A well-formed hex text: an even number of characters, an optional `0x`
/// prefix, then hex digits of either case.
pub open spec fn is_hex_text(s: Seq<char>) -> bool {
    &&& s.len() % 2 == 0
    &&& forall|i: int| 0 <= i < hex_body(s).len() ==> is_hex_digit(#[trigger] hex_body(s)[i])
}

/// The bytes that a well-formed hex text spells, two digits to a byte.
pub open spec fn hex_bytes_of(s: Seq<char>) -> Seq<u8> {
    let b = hex_body(s);
    Seq::new(
        b.len() / 2,
        |i: int| (hex_digit_value(b[2 * i]) * 16 + hex_digit_value(b[2 * i + 1])) as u8,
    )
}

/// The unsigned integer that bytes spell, most significant byte first.
pub open spec fn be_value(b: Seq<u8>) -> nat
    decreases b.len(),
{
    if b.len() == 0 {
        0
    } else {
        be_value(b.drop_last()) * 256 + b.last() as nat
    }
}

pub open spec fn decimal_digit(d: nat) -> char {
    seq!['0', '1', '2', '3', '4', '5', '6', '7', '8', '9'][d as int]
}

/// The decimal numeral of `n`, without leading zeros.
pub open spec fn decimal_of(n: nat) -> Seq<char>
    decreases n,
{
    if n < 10 {
        seq![decimal_digit(n)]
    } else {
        decimal_of(n / 10).push(decimal_digit(n % 10))
    }
}

/// The storage word that a hex text holds, where it is well-formed and at
/// least 32 bytes long.
pub open spec fn slot0_word(s: Seq<char>) -> Option<Seq<u8>> {
    if is_hex_text(s) && hex_bytes_of(s).len() >= SLOT0_WORD_LEN {
        Some(hex_bytes_of(s))
    } else {
        None
    }
}

/// The tick: bytes 9 to 11 of the word as a big-endian two's-complement
/// 24-bit integer.
pub open spec fn tick_of(w: Seq<u8>) -> int {
    let u = w[9] * 65536 + w[10] * 256 + w[11];
    if w[9] >= 128 {
        u - 0x1000000
    } else {
        u
    }
}

/// The square root price: bytes 12 to 31 of the word as a big-endian
/// unsigned integer.
pub open spec fn sqrt_price_of(w: Seq<u8>) -> nat {
    be_value(w.subrange(12, 32))
}

/// What `slot0` decodes to.
#[derive(Debug, PartialEq, Eq)]
pub struct DecodedSlot0 {
    /// The square root price, as a decimal numeral.
    pub sqrt_price_x96: String,
    pub tick: i32,
}

/// Relies on `alloy_primitives::hex::decode` (const-hex): it accepts an even
/// number of characters, strips one `0x` or `0X` prefix and reads hex digits of
/// either case, two to a byte; any other input is an error.
#[verifier::external_body]
fn decode_hex(s: &str) -> (r: Option<Vec<u8>>)
    ensures
        r is Some <==> is_hex_text(s@),
        r is Some ==> r->0@ == hex_bytes_of(s@),
{
    alloy_primitives::hex::decode(s).ok()
}

/// Relies on `alloy_primitives::U256::from_be_slice`, which reads at most 32
/// big-endian bytes, and on its `Display`, which writes the decimal numeral.
#[verifier::external_body]
fn be_decimal(b: &[u8]) -> (r: String)
    requires
        b@.len() <= 32,
    ensures
        r@ == decimal_of(be_value(b@)),
{
    alloy_primitives::U256::from_be_slice(b).to_string()
}

/// Decodes a hex-encoded `slot0` word; nothing where the text is not hex or
/// spells fewer than 32 bytes.
pub fn decode_slot0(hex: &str) -> (r: Option<DecodedSlot0>)
    ensures
        r is Some <==> slot0_word(hex@) is Some,
        r is Some ==> {
            let w = slot0_word(hex@)->0;
            &&& r->0.tick == tick_of(w)
            &&& r->0.sqrt_price_x96@ == decimal_of(sqrt_price_of(w))
        },
{
    let bytes = match decode_hex(hex) {
        Some(b) => b,
        None => return None,
    };
    if bytes.len() < SLOT0_WORD_LEN {
        return None;
    }
    let hi = bytes[9];
    let u: i32 = (hi as i32) * 65536 + (bytes[10] as i32) * 256 + bytes[11] as i32;
    let tick: i32 = if hi >= 128 {
        u - 0x1000000
    } else {
        u
    };
    let mut price: Vec<u8> = Vec::new();
    let mut i: usize = 12;
    while i < 32
        invariant
            12 <= i <= 32,
            bytes@.len() >= 32,
            price@ == bytes@.subrange(12, i as int),
        decreases 32 - i,
    {
        price.push(bytes[i]);
        i = i + 1;
        assert(price@ =~= bytes@.subrange(12, i as int));
    }
    let sqrt_price_x96 = be_decimal(price.as_slice());
    Some(DecodedSlot0 { sqrt_price_x96, tick })
}


/// Bytes spell a number below 2 to the power of eight times their count.
pub proof fn lemma_be_value_bound(b: Seq<u8>)
    ensures
        be_value(b) < pow2(8 * b.len()),
    decreases b.len(),
{
    if b.len() == 0 {
        vstd::arithmetic::power2::lemma_pow2_pos(0);
        assert(pow2(0) == 1) by {
            lemma2_to64();
        }
    } else {
        let n = (b.len() - 1) as nat;
        lemma_be_value_bound(b.drop_last());
        lemma_pow2_adds(8 * n, 8);
        lemma2_to64();
        let p = pow2(8 * n);
        let v = be_value(b.drop_last());
        let l = b.last() as nat;
        assert(v * 256 + l < p * 256) by (nonlinear_arith)
            requires
                v < p,
                l < 256,
        ;
        assert(8 * n + 8 == 8 * b.len());
    }
}

/// Decoding depends on the bytes alone: two hex texts that spell the same
/// bytes yield the same word, hence the same price and tick.
pub proof fn lemma_decode_depends_on_bytes(a: Seq<char>, b: Seq<char>)
    requires
        is_hex_text(a),
        is_hex_text(b),
        hex_bytes_of(a) == hex_bytes_of(b),
    ensures
        slot0_word(a) == slot0_word(b),
        slot0_word(a) is Some ==> tick_of(slot0_word(a)->0) == tick_of(slot0_word(b)->0)
            && sqrt_price_of(slot0_word(a)->0) == sqrt_price_of(slot0_word(b)->0),
{
}

/// A hex text that spells fewer than 32 bytes decodes to nothing.
pub proof fn lemma_short_word_absent(s: Seq<char>)
    requires
        hex_bytes_of(s).len() < SLOT0_WORD_LEN,
    ensures
        slot0_word(s) is None,
{
}

/// The square root price fits in 160 bits and the tick in the signed 24-bit
/// range, for every word.
pub proof fn lemma_slot0_ranges(w: Seq<u8>)
    requires
        w.len() >= SLOT0_WORD_LEN,
    ensures
        0 <= sqrt_price_of(w) < pow2(160),
        -0x800000 <= tick_of(w) <= 0x7fffff,
{
    lemma_be_value_bound(w.subrange(12, 32));
    let (a, b, c) = (w[9] as int, w[10] as int, w[11] as int);
    assert(0 <= a * 65536 + b * 256 + c < 0x1000000) by (nonlinear_arith)
        requires
            0 <= a < 256,
            0 <= b < 256,
            0 <= c < 256,
    ;
    assert(a >= 128 ==> a * 65536 + b * 256 + c >= 0x800000) by (nonlinear_arith)
        requires
            0 <= b < 256,
            0 <= c < 256,
    ;
    assert(a < 128 ==> a * 65536 + b * 256 + c <= 0x7fffff) by (nonlinear_arith)
        requires
            0 <= a,
            0 <= b < 256,
            0 <= c < 256,
    ;
}

} // verus!

//! Assembly of the canonical pool snapshot from the `result` of an RPC
//! response, for each protocol version.

use vstd::prelude::*;
use crate::json::{
    Json, JsonModel, hex_zero, hex_zero_model, empty_str, empty_str_model, empty_object,
    empty_object_model,
};
use crate::slot0::{
    DecodedSlot0, decode_slot0, slot0_word, tick_of, sqrt_price_of, decimal_of, is_hex_digit,
    hex_digit_value,
};
use crate::ticks::{TickEntry, normalize_ticks, tick_table_model, normalized_ticks};

verus! {

/// Fee of every V2 pair, in hundredths of a basis point; not read from the RPC.
pub const V2_FEE: u64 = 2500;

/// Name of the exchange that every snapshot is recorded under.
pub const DEX_NAME: &'static str = "Pancake";

/// Placeholder for the protocol fees and global fee growth accumulators of a
/// V3 pool, which the RPC does not supply.
pub const V3_FEE_PLACEHOLDER: &'static str = "0x0";

/// The protocol version of a pool.
#[derive(Clone, Copy, Debug, PartialEq, Eq, Structural)]
pub enum Protocol {
    V2,
    V3,
}

impl Protocol {
    /// The store version, also the prefix of the snapshot's file name.
    pub fn version(&self) -> (r: &'static str)
        ensures
            r@ == (match *self {
                Protocol::V2 => "v2"@,
                Protocol::V3 => "v3"@,
            }),
    {
        match self {
            Protocol::V2 => "v2",
            Protocol::V3 => "v3",
        }
    }

    /// The name of the pool contract kind.
    pub fn contract(&self) -> (r: &'static str)
        ensures
            r@ == (match *self {
                Protocol::V2 => "V2Pair"@,
                Protocol::V3 => "V3Pool"@,
            }),
    {
        match self {
            Protocol::V2 => "V2Pair",
            Protocol::V3 => "V3Pool",
        }
    }

    /// The protocol name recorded with the pool.
    pub fn name(&self) -> (r: &'static str)
        ensures
            r@ == (match *self {
                Protocol::V2 => "V2"@,
                Protocol::V3 => "V3"@,
            }),
    {
        match self {
            Protocol::V2 => "V2",
            Protocol::V3 => "V3",
        }
    }
}

/// The store of a V2 pair.
#[derive(Debug, PartialEq, Eq)]
pub struct V2Store {
    pub reserve0: Json,
    pub reserve1: Json,
}

/// The store of a V3 pool.
#[derive(Debug, PartialEq, Eq)]
pub struct V3Store {
    pub fee: Json,
    pub tick_spacing: Json,
    pub liquidity: Json,
    pub tick_bitmap: Json,
    pub ticks: Vec<(String, TickEntry)>,
    /// The decoded `slot0`; nothing where it could not be decoded.
    pub slot0: Option<DecodedSlot0>,
}

/// The protocol-specific part of a snapshot.
#[derive(Debug, PartialEq, Eq)]
pub enum Store {
    V2(V2Store),
    V3(V3Store),
}

/// A pool as recorded in a snapshot.
#[derive(Debug, PartialEq, Eq)]
pub struct Pool {
    pub store: Store,
    pub address: Json,
    pub token0: Json,
    pub token1: Json,
}

/// The canonical snapshot of one pool at one block.
#[derive(Debug, PartialEq, Eq)]
pub struct PoolSnapshot {
    pub state_block: u64,
    pub pool: Pool,
}

impl PoolSnapshot {
    /// The protocol version of the snapshot's store.
    pub fn protocol(&self) -> (r: Protocol)
        ensures
            r == (match self.pool.store {
                Store::V2(_) => Protocol::V2,
                Store::V3(_) => Protocol::V3,
            }),
    {
        match &self.pool.store {
            Store::V2(_) => Protocol::V2,
            Store::V3(_) => Protocol::V3,
        }
    }
}

/// The text of `slot0` in a result: the empty text where it is missing or not
/// a string.
pub open spec fn slot0_text(result: JsonModel) -> Seq<char> {
    match result.field("slot0"@) {
        Some(JsonModel::Str(s)) => s,
        _ => Seq::empty(),
    }
}

/// `d` is what the decoder makes of `text`.
pub open spec fn slot0_decoded_from(d: Option<DecodedSlot0>, text: Seq<char>) -> bool {
    &&& (d is Some <==> slot0_word(text) is Some)
    &&& d is Some ==> {
        let w = slot0_word(text)->0;
        &&& d->0.tick == tick_of(w)
        &&& d->0.sqrt_price_x96@ == decimal_of(sqrt_price_of(w))
    }
}

pub open spec fn v2_store_of(s: V2Store, result: JsonModel) -> bool {
    &&& s.reserve0@ == result.field_or("reserve0"@, hex_zero_model())
    &&& s.reserve1@ == result.field_or("reserve1"@, hex_zero_model())
}

pub open spec fn v3_store_of(s: V3Store, result: JsonModel) -> bool {
    &&& s.fee@ == result.field_or("fee"@, hex_zero_model())
    &&& s.tick_spacing@ == result.field_or("tickSpacing"@, hex_zero_model())
    &&& s.liquidity@ == result.field_or("liquidity"@, hex_zero_model())
    &&& s.tick_bitmap@ == result.field_or("tickBitmap"@, empty_object_model())
    &&& tick_table_model(s.ticks@) == normalized_ticks(
        result.field_or("ticks"@, empty_object_model()),
    )
    &&& slot0_decoded_from(s.slot0, slot0_text(result))
}

/// `r` is the snapshot of `result` for `protocol` at `state_block`.
pub open spec fn is_snapshot_of(
    r: PoolSnapshot,
    protocol: Protocol,
    result: JsonModel,
    state_block: u64,
) -> bool {
    &&& r.state_block == state_block
    &&& r.pool.address@ == result.field_or("address"@, empty_str_model())
    &&& r.pool.token0@ == result.field_or("token0"@, empty_str_model())
    &&& r.pool.token1@ == result.field_or("token1"@, empty_str_model())
    &&& match protocol {
        Protocol::V2 => r.pool.store is V2 && v2_store_of(r.pool.store->V2_0, result),
        Protocol::V3 => r.pool.store is V3 && v3_store_of(r.pool.store->V3_0, result),
    }
}

fn pool_of(store: Store, result: &Json) -> (r: Pool)
    ensures
        r.store == store,
        r.address@ == result@.field_or("address"@, empty_str_model()),
        r.token0@ == result@.field_or("token0"@, empty_str_model()),
        r.token1@ == result@.field_or("token1"@, empty_str_model()),
{
    Pool {
        store,
        address: result.field_or("address", empty_str()),
        token0: result.field_or("token0", empty_str()),
        token1: result.field_or("token1", empty_str()),
    }
}

/// Assembles the snapshot of a V2 pair.
pub fn assemble_v2(result: &Json, state_block: u64) -> (r: PoolSnapshot)
    ensures
        is_snapshot_of(r, Protocol::V2, result@, state_block),
{
    let store = V2Store {
        reserve0: result.field_or("reserve0", hex_zero()),
        reserve1: result.field_or("reserve1", hex_zero()),
    };
    PoolSnapshot { state_block, pool: pool_of(Store::V2(store), result) }
}

/// Decodes the `slot0` field of a result.
pub fn slot0_of(result: &Json) -> (r: Option<DecodedSlot0>)
    ensures
        slot0_decoded_from(r, slot0_text(result@)),
{
    match result.field_or("slot0", Json::Null) {
        Json::Str(s) => decode_slot0(s.as_str()),
        _ => {
            let r = decode_slot0("");
            proof {
                reveal_strlit("");
            }
            assert(""@ =~= Seq::<char>::empty());
            r
        },
    }
}

/// Assembles the snapshot of a V3 pool.
pub fn assemble_v3(result: &Json, state_block: u64) -> (r: PoolSnapshot)
    ensures
        is_snapshot_of(r, Protocol::V3, result@, state_block),
{
    let raw_ticks = result.field_or("ticks", empty_object());
    let store = V3Store {
        fee: result.field_or("fee", hex_zero()),
        tick_spacing: result.field_or("tickSpacing", hex_zero()),
        liquidity: result.field_or("liquidity", hex_zero()),
        tick_bitmap: result.field_or("tickBitmap", empty_object()),
        ticks: normalize_ticks(&raw_ticks),
        slot0: slot0_of(result),
    };
    PoolSnapshot { state_block, pool: pool_of(Store::V3(store), result) }
}

/// Assembles the snapshot of a pool of either protocol version.
pub fn assemble(protocol: Protocol, result: &Json, state_block: u64) -> (r: PoolSnapshot)
    ensures
        is_snapshot_of(r, protocol, result@, state_block),
{
    match protocol {
        Protocol::V2 => assemble_v2(result, state_block),
        Protocol::V3 => assemble_v3(result, state_block),
    }
}


/// `s` with every leading `0x` removed, repeatedly.
pub open spec fn strip_hex_prefixes(s: Seq<char>) -> Seq<char>
    decreases s.len(),
{
    if s.len() >= 2 && s[0] == '0' && s[1] == 'x' {
        strip_hex_prefixes(s.subrange(2, s.len() as int))
    } else {
        s
    }
}

/// A hex quantity: hex digits of either case, with `_` allowed anywhere.
pub open spec fn is_hex_quantity(s: Seq<char>) -> bool {
    forall|i: int| 0 <= i < s.len() ==> is_hex_digit(#[trigger] s[i]) || s[i] == '_'
}

/// The value of a hex quantity; `_` is skipped and the empty text is zero.
pub open spec fn hex_quantity_value(s: Seq<char>) -> nat
    decreases s.len(),
{
    if s.len() == 0 {
        0
    } else if s.last() == '_' {
        hex_quantity_value(s.drop_last())
    } else {
        (hex_quantity_value(s.drop_last()) * 16 + hex_digit_value(s.last())) as nat
    }
}

/// The block number that a block-number text gives: its leading `0x`s removed,
/// the rest read as a hex quantity, zero where that fails or exceeds 64 bits.
pub open spec fn block_number_of(s: Seq<char>) -> u64 {
    let q = strip_hex_prefixes(s);
    if is_hex_quantity(q) && hex_quantity_value(q) <= u64::MAX {
        hex_quantity_value(q) as u64
    } else {
        0
    }
}

/// The block a result was read at: its `blockNumber` text, read as above;
/// zero where the field is missing or not a string.
pub open spec fn state_block_of(result: JsonModel) -> u64 {
    match result.field("blockNumber"@) {
        Some(JsonModel::Str(s)) => block_number_of(s),
        _ => 0,
    }
}

/// Relies on `str::trim_start_matches`, which removes every leading match of
/// the pattern, repeatedly.
#[verifier::external_body]
fn trim_hex_prefixes(s: &str) -> (r: &str)
    ensures
        r@ == strip_hex_prefixes(s@),
{
    s.trim_start_matches("0x")
}

/// Relies on `alloy_primitives::U256::from_str_radix` with radix 16, which
/// reads hex digits of either case, skips `_`, reads the empty text as zero and
/// fails past 256 bits or on any other character; and on `u64::try_from` of a
/// `U256`, which succeeds exactly on values that fit in 64 bits.
#[verifier::external_body]
fn parse_hex_u64(s: &str) -> (r: Option<u64>)
    ensures
        r == (if is_hex_quantity(s@) && hex_quantity_value(s@) <= u64::MAX {
            Some(hex_quantity_value(s@) as u64)
        } else {
            None
        }),
{
    match alloy_primitives::U256::from_str_radix(s, 16) {
        Ok(n) => u64::try_from(n).ok(),
        Err(_) => None,
    }
}

/// The block a result was read at, zero where it cannot be read.
pub fn state_block(result: &Json) -> (r: u64)
    ensures
        r == state_block_of(result@),
{
    match result.field_or("blockNumber", Json::Null) {
        Json::Str(s) => match parse_hex_u64(trim_hex_prefixes(s.as_str())) {
            Some(n) => n,
            None => 0,
        },
        _ => 0,
    }
}

/// The `result` member of an RPC response; null where there is none.
pub open spec fn result_of(response: JsonModel) -> JsonModel {
    response.field_or("result"@, JsonModel::Null)
}

/// Assembles the snapshot of a pool from a whole RPC response, at the block
/// that the response reports.
pub fn snapshot_of_response(protocol: Protocol, response: &Json) -> (r: PoolSnapshot)
    ensures
        is_snapshot_of(r, protocol, result_of(response@), state_block_of(result_of(response@))),
{
    let result = response.field_or("result", Json::Null);
    let block = state_block(&result);
    assemble(protocol, &result, block)
}

/// A block-number text that is not a hex quantity, once its leading `0x`s are
/// removed, gives block zero; assembly goes on with it.
pub proof fn lemma_malformed_block_number_is_zero(result: JsonModel, s: Seq<char>)
    requires
        result.field("blockNumber"@) == Some(JsonModel::Str(s)),
        !is_hex_quantity(strip_hex_prefixes(s)),
    ensures
        state_block_of(result) == 0,
{
}

/// A V3 result whose `ticks` is missing or empty and whose `slot0` cannot be
/// decoded gives an empty tick table and no `slot0`, the other fields taking
/// their values or defaults as for any result.
pub proof fn lemma_v3_without_ticks_or_slot0(r: PoolSnapshot, result: JsonModel, state_block: u64)
    requires
        is_snapshot_of(r, Protocol::V3, result, state_block),
        result.field("ticks"@) is None || result.field("ticks"@) == Some(empty_object_model()),
        slot0_word(slot0_text(result)) is None,
    ensures
        r.pool.store->V3_0.ticks@.len() == 0,
        r.pool.store->V3_0.slot0 is None,
        r.pool.store->V3_0.fee@ == result.field_or("fee"@, hex_zero_model()),
        r.pool.store->V3_0.tick_spacing@ == result.field_or("tickSpacing"@, hex_zero_model()),
        r.pool.store->V3_0.liquidity@ == result.field_or("liquidity"@, hex_zero_model()),
        r.pool.store->V3_0.tick_bitmap@ == result.field_or("tickBitmap"@, empty_object_model()),
{
    assert(tick_table_model(r.pool.store->V3_0.ticks@).len() == 0);
}

} // verus!

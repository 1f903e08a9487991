use amm_snapshot::json::Json;
use amm_snapshot::snapshot::{
    assemble, assemble_v2, assemble_v3, snapshot_of_response, state_block, Pool, PoolSnapshot,
    Protocol, Store, V2Store, DEX_NAME, V2_FEE,
};
use amm_snapshot::ticks::{normalize_ticks, TickEntry, FEE_GROWTH_OUTSIDE_PLACEHOLDER};

fn s(t: &str) -> Json {
    Json::Str(t.to_string())
}

fn obj(entries: Vec<(&str, Json)>) -> Json {
    Json::Object(entries.into_iter().map(|(k, v)| (k.to_string(), v)).collect())
}

fn word_hex(bytes: &[u8]) -> String {
    bytes.iter().map(|b| format!("{:02x}", b)).collect()
}

#[test]
fn v2_assembly_of_partial_result() {
    let result = obj(vec![("reserve0", s("0x5")), ("reserve1", s("0xa")), ("address", s("0xP"))]);
    let snap = assemble_v2(&result, 100);
    let expected = PoolSnapshot {
        state_block: 100,
        pool: Pool {
            store: Store::V2(V2Store { reserve0: s("0x5"), reserve1: s("0xa") }),
            address: s("0xP"),
            token0: s(""),
            token1: s(""),
        },
    };
    assert_eq!(snap, expected);
    assert_eq!(snap.protocol(), Protocol::V2);
    assert_eq!(Protocol::V2.version(), "v2");
    assert_eq!(Protocol::V2.contract(), "V2Pair");
    assert_eq!(Protocol::V2.name(), "V2");
    assert_eq!(V2_FEE, 2500);
    assert_eq!(DEX_NAME, "Pancake");
}

#[test]
fn v2_assembly_of_empty_result() {
    let snap = assemble(Protocol::V2, &obj(vec![]), 0);
    match snap.pool.store {
        Store::V2(st) => {
            assert_eq!(st.reserve0, s("0x0"));
            assert_eq!(st.reserve1, s("0x0"));
        }
        Store::V3(_) => panic!("expected a V2 store"),
    }
    assert_eq!(snap.pool.address, s(""));
}

#[test]
fn v3_assembly_without_ticks_and_bad_slot0() {
    let result = obj(vec![("ticks", obj(vec![])), ("slot0", s("zz"))]);
    let snap = assemble_v3(&result, 7);
    assert_eq!(snap.state_block, 7);
    assert_eq!(snap.protocol(), Protocol::V3);
    match snap.pool.store {
        Store::V3(st) => {
            assert!(st.ticks.is_empty());
            assert!(st.slot0.is_none());
            assert_eq!(st.fee, s("0x0"));
            assert_eq!(st.tick_spacing, s("0x0"));
            assert_eq!(st.liquidity, s("0x0"));
            assert_eq!(st.tick_bitmap, obj(vec![]));
        }
        Store::V2(_) => panic!("expected a V3 store"),
    }
    assert_eq!(snap.pool.token0, s(""));
    assert_eq!(Protocol::V3.version(), "v3");
    assert_eq!(Protocol::V3.contract(), "V3Pool");
    assert_eq!(Protocol::V3.name(), "V3");
}

#[test]
fn v3_assembly_passes_fields_through() {
    let mut w = vec![0u8; 32];
    w[11] = 3;
    w[31] = 9;
    let bitmap = obj(vec![("0", s("0x1"))]);
    let result = obj(vec![
        ("fee", s("0x64")),
        ("tickSpacing", Json::Number("10".to_string())),
        ("liquidity", s("0xff")),
        ("tickBitmap", obj(vec![("0", s("0x1"))])),
        ("slot0", s(&word_hex(&w))),
        ("ticks", obj(vec![("-10", obj(vec![("liquidityGross", s("0x2"))]))])),
        ("token0", s("0xT0")),
        ("token1", s("0xT1")),
    ]);
    let snap = assemble(Protocol::V3, &result, 1);
    match snap.pool.store {
        Store::V3(st) => {
            assert_eq!(st.fee, s("0x64"));
            assert_eq!(st.tick_spacing, Json::Number("10".to_string()));
            assert_eq!(st.liquidity, s("0xff"));
            assert_eq!(st.tick_bitmap, bitmap);
            let d = st.slot0.unwrap();
            assert_eq!(d.tick, 3);
            assert_eq!(d.sqrt_price_x96, "9");
            assert_eq!(st.ticks.len(), 1);
            assert_eq!(st.ticks[0].0, "-10");
            assert_eq!(st.ticks[0].1, TickEntry { liquidity_gross: s("0x2"), liquidity_net: s("0x0") });
        }
        Store::V2(_) => panic!("expected a V3 store"),
    }
    assert_eq!(snap.pool.token0, s("0xT0"));
    assert_eq!(snap.pool.token1, s("0xT1"));
}

#[test]
fn v3_slot0_that_is_not_a_string_is_absent() {
    let result = obj(vec![("slot0", Json::Number("5".to_string()))]);
    match assemble_v3(&result, 0).pool.store {
        Store::V3(st) => assert!(st.slot0.is_none()),
        Store::V2(_) => panic!("expected a V3 store"),
    }
}

#[test]
fn missing_liquidity_fields_default_to_hex_zero() {
    let raw = obj(vec![
        ("1", obj(vec![("liquidityNet", s("-0x3")), ("feeGrowthOutside0X128", s("0x9"))])),
        ("2", s("not an object")),
    ]);
    let t = normalize_ticks(&raw);
    assert_eq!(t.len(), 2);
    assert_eq!(t[0].0, "1");
    assert_eq!(t[0].1, TickEntry { liquidity_gross: s("0x0"), liquidity_net: s("-0x3") });
    assert_eq!(t[1].0, "2");
    assert_eq!(t[1].1, TickEntry { liquidity_gross: s("0x0"), liquidity_net: s("0x0") });
    assert_eq!(FEE_GROWTH_OUTSIDE_PLACEHOLDER, "0x0");
}

#[test]
fn normalizing_twice_changes_nothing() {
    let raw = obj(vec![
        ("5", obj(vec![("liquidityGross", s("0x7")), ("liquidityNet", s("0x8"))])),
        ("6", obj(vec![])),
    ]);
    let once = normalize_ticks(&raw);
    let back = Json::Object(
        once.iter()
            .map(|(k, e)| {
                (
                    k.clone(),
                    obj(vec![
                        ("liquidityGross", e.liquidity_gross.copy()),
                        ("liquidityNet", e.liquidity_net.copy()),
                    ]),
                )
            })
            .collect(),
    );
    let twice = normalize_ticks(&back);
    assert_eq!(once, twice);
}

#[test]
fn ticks_that_are_not_an_object_give_an_empty_table() {
    assert!(normalize_ticks(&Json::Array(vec![s("x")])).is_empty());
    assert!(normalize_ticks(&Json::Null).is_empty());
}

#[test]
fn malformed_block_number_gives_zero() {
    assert_eq!(state_block(&obj(vec![("blockNumber", s("not-hex"))])), 0);
}

#[test]
fn block_number_is_read_as_hex() {
    assert_eq!(state_block(&obj(vec![("blockNumber", s("0x64"))])), 100);
    assert_eq!(state_block(&obj(vec![("blockNumber", s("0x0x10"))])), 16);
    assert_eq!(state_block(&obj(vec![("blockNumber", s("0xffffffffffffffff"))])), u64::MAX);
    assert_eq!(state_block(&obj(vec![("blockNumber", s("0x10000000000000000"))])), 0);
    assert_eq!(state_block(&obj(vec![("blockNumber", Json::Number("12".to_string()))])), 0);
    assert_eq!(state_block(&obj(vec![])), 0);
    assert_eq!(state_block(&Json::Null), 0);
}

#[test]
fn response_is_assembled_at_its_block() {
    let response = obj(vec![
        ("jsonrpc", s("2.0")),
        ("result", obj(vec![("blockNumber", s("0x1f")), ("reserve0", s("0x1"))])),
    ]);
    let snap = snapshot_of_response(Protocol::V2, &response);
    assert_eq!(snap.state_block, 31);
    match snap.pool.store {
        Store::V2(st) => {
            assert_eq!(st.reserve0, s("0x1"));
            assert_eq!(st.reserve1, s("0x0"));
        }
        Store::V3(_) => panic!("expected a V2 store"),
    }
    let empty = snapshot_of_response(Protocol::V3, &obj(vec![]));
    assert_eq!(empty.state_block, 0);
}

#[test]
fn repeated_key_takes_the_last_value() {
    let v = obj(vec![("fee", s("0x1")), ("fee", s("0x2"))]);
    assert_eq!(v.field_or("fee", s("0x0")), s("0x2"));
    assert_eq!(v.field_or("other", s("d")), s("d"));
    assert_eq!(s("x").field_or("fee", Json::Null), Json::Null);
}

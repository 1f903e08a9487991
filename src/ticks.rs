//! The tick table: per-tick liquidity data renamed from the RPC's field names to
//! the snapshot's, with defaults for what is missing.

use vstd::prelude::*;
use crate::json::{Json, JsonModel, hex_zero, hex_zero_model};

verus! {

/// Placeholder for the per-tick fee growth accumulators, which the RPC does
/// not supply.
pub const FEE_GROWTH_OUTSIDE_PLACEHOLDER: &'static str = "0x0";

/// The canonical data of one tick.
#[derive(Debug, PartialEq, Eq)]
pub struct TickEntry {
    pub liquidity_gross: Json,
    pub liquidity_net: Json,
}

/// The model of a normalised tick table: tick key, gross and net liquidity.
pub type TickTableModel = Seq<(Seq<char>, JsonModel, JsonModel)>;

pub open spec fn tick_table_model(t: Seq<(String, TickEntry)>) -> TickTableModel {
    Seq::new(
        t.len(),
        |i: int| (t[i].0@, t[i].1.liquidity_gross@, t[i].1.liquidity_net@),
    )
}

/// One raw tick entry, normalised: its `liquidityGross` and `liquidityNet`
/// fields, each `"0x0"` where missing.
pub open spec fn normalize_entry(raw: JsonModel) -> (JsonModel, JsonModel) {
    (
        raw.field_or("liquidityGross"@, hex_zero_model()),
        raw.field_or("liquidityNet"@, hex_zero_model()),
    )
}

/// The normalised table of a raw `ticks` value: one entry per key of an
/// object, in order; nothing for any other kind of value.
pub open spec fn normalized_ticks(raw: JsonModel) -> TickTableModel {
    match raw {
        JsonModel::Object(es) => Seq::new(
            es.len(),
            |i: int| (es[i].0, normalize_entry(es[i].1).0, normalize_entry(es[i].1).1),
        ),
        _ => Seq::empty(),
    }
}

/// A normalised table written back in the RPC's naming, each tick an object
/// with `liquidityGross` and `liquidityNet`.
pub open spec fn raw_ticks_of(t: TickTableModel) -> JsonModel {
    JsonModel::Object(
        Seq::new(
            t.len(),
            |i: int|
                (
                    t[i].0,
                    JsonModel::Object(
                        seq![("liquidityGross"@, t[i].1), ("liquidityNet"@, t[i].2)],
                    ),
                ),
        ),
    )
}

/// Normalises a raw `ticks` value.
pub fn normalize_ticks(raw: &Json) -> (r: Vec<(String, TickEntry)>)
    ensures
        tick_table_model(r@) == normalized_ticks(raw@),
        r@.len() == normalized_ticks(raw@).len(),
{
    let mut out: Vec<(String, TickEntry)> = Vec::new();
    match raw {
        Json::Object(entries) => {
            let ghost model = match raw@ {
                JsonModel::Object(es) => es,
                _ => Seq::empty(),
            };
            let mut i: usize = 0;
            while i < entries.len()
                invariant
                    i <= entries@.len(),
                    raw@ == JsonModel::Object(model),
                    model.len() == entries@.len(),
                    forall|k: int|
                        0 <= k < entries@.len() ==> #[trigger] model[k] == (
                        entries@[k].0@,
                        entries@[k].1@,
                    ),
                    out@.len() == i,
                    forall|k: int|
                        0 <= k < i ==> (#[trigger] out@[k]).0@ == model[k].0 && out@[k].1.liquidity_gross@
                            == normalize_entry(model[k].1).0 && out@[k].1.liquidity_net@
                            == normalize_entry(model[k].1).1,
                decreases entries.len() - i,
            {
                let data = &entries[i].1;
                let liquidity_gross = data.field_or("liquidityGross", hex_zero());
                let liquidity_net = data.field_or("liquidityNet", hex_zero());
                out.push((entries[i].0.clone(), TickEntry { liquidity_gross, liquidity_net }));
                proof {
                    assert(model[i as int] == (entries@[i as int].0@, entries@[i as int].1@));
                }
                i = i + 1;
            }
            assert(tick_table_model(out@) =~= normalized_ticks(raw@));
            assert(tick_table_model(out@).len() == out@.len());
        },
        _ => {
            assert(tick_table_model(out@) =~= normalized_ticks(raw@));
        },
    }
    out
}

/// Normalising is idempotent: writing a normalised table back in the RPC's
/// naming and normalising it again gives the same table.
pub proof fn lemma_normalize_idempotent(raw: JsonModel)
    ensures
        normalized_ticks(raw_ticks_of(normalized_ticks(raw))) == normalized_ticks(raw),
{
    let t = normalized_ticks(raw);
    let again = normalized_ticks(raw_ticks_of(t));
    reveal_strlit("liquidityGross");
    reveal_strlit("liquidityNet");
    assert("liquidityGross"@[9] != "liquidityNet"@[9]);
    assert forall|i: int| 0 <= i < t.len() implies #[trigger] again[i] == t[i] by {
        let es = seq![("liquidityGross"@, t[i].1), ("liquidityNet"@, t[i].2)];
        assert(es.drop_last() =~= seq![("liquidityGross"@, t[i].1)]);
        assert(es.drop_last().drop_last() =~= Seq::<(Seq<char>, JsonModel)>::empty());
        assert(raw_ticks_of(t)->Object_0[i] == (t[i].0, JsonModel::Object(es)));
        assert(crate::json::lookup(es, "liquidityNet"@) == Some(t[i].2));
        assert("liquidityNet"@ != "liquidityGross"@);
        assert(es.last().0 == "liquidityNet"@);
        assert(crate::json::lookup(es.drop_last(), "liquidityGross"@) == Some(t[i].1));
        assert(crate::json::lookup(es, "liquidityGross"@) == Some(t[i].1));
    }
    assert(again =~= t);
}

/// A raw tick entry without `liquidityGross` or `liquidityNet` gets `"0x0"`
/// for that field.
pub proof fn lemma_missing_liquidity_defaults(raw: JsonModel, i: int)
    requires
        normalized_ticks(raw).len() > i >= 0,
    ensures
        ({
            let es = raw->Object_0;
            &&& es[i].1.field("liquidityGross"@) is None ==> normalized_ticks(raw)[i].1
                == hex_zero_model()
            &&& es[i].1.field("liquidityNet"@) is None ==> normalized_ticks(raw)[i].2
                == hex_zero_model()
        }),
{
}

} // verus!

//! A JSON value as the RPC layer delivers it, with its mathematical model and
//! the defaulting field accessor that the rest of the library relies on.

use vstd::prelude::*;

verus! {

/// A JSON value. Numbers keep their textual form, since the library never
/// computes with them.
#[derive(Debug, PartialEq, Eq)]
pub enum Json {
    Null,
    Bool(bool),
    Number(String),
    Str(String),
    Array(Vec<Json>),
    Object(Vec<(String, Json)>),
}

/// The mathematical model of a [`Json`] value: strings are character sequences.
pub enum JsonModel {
    Null,
    Bool(bool),
    Number(Seq<char>),
    Str(Seq<char>),
    Array(Seq<JsonModel>),
    Object(Seq<(Seq<char>, JsonModel)>),
}

pub open spec fn model_of(j: Json) -> JsonModel
    decreases j,
{
    match j {
        Json::Null => JsonModel::Null,
        Json::Bool(b) => JsonModel::Bool(b),
        Json::Number(n) => JsonModel::Number(n@),
        Json::Str(s) => JsonModel::Str(s@),
        Json::Array(items) => JsonModel::Array(
            Seq::new(
                items@.len(),
                |i: int|
                    if 0 <= i < items@.len() {
                        model_of(items@[i])
                    } else {
                        JsonModel::Null
                    },
            ),
        ),
        Json::Object(entries) => JsonModel::Object(
            Seq::new(
                entries@.len(),
                |i: int|
                    if 0 <= i < entries@.len() {
                        (entries@[i].0@, model_of(entries@[i].1))
                    } else {
                        (Seq::empty(), JsonModel::Null)
                    },
            ),
        ),
    }
}

impl View for Json {
    type V = JsonModel;

    open spec fn view(&self) -> JsonModel {
        model_of(*self)
    }
}


/// The value bound to `key` among `entries`; where a key repeats, the last
/// binding wins, as when the entries are inserted into a map in order.
pub open spec fn lookup(entries: Seq<(Seq<char>, JsonModel)>, key: Seq<char>) -> Option<JsonModel>
    decreases entries.len(),
{
    if entries.len() == 0 {
        None
    } else if entries.last().0 == key {
        Some(entries.last().1)
    } else {
        lookup(entries.drop_last(), key)
    }
}

impl JsonModel {
    /// The field `key` of an object; nothing for any other kind of value.
    pub open spec fn field(self, key: Seq<char>) -> Option<JsonModel> {
        match self {
            JsonModel::Object(entries) => lookup(entries, key),
            _ => None,
        }
    }

    /// The field `key` of an object, or `default` where there is none.
    pub open spec fn field_or(self, key: Seq<char>, default: JsonModel) -> JsonModel {
        match self.field(key) {
            Some(v) => v,
            None => default,
        }
    }
}

/// The model of the string value `"0x0"`, the library's default for a missing
/// numeric field.
pub open spec fn hex_zero_model() -> JsonModel {
    JsonModel::Str("0x0"@)
}

/// The model of the empty string, the default for a missing text field.
pub open spec fn empty_str_model() -> JsonModel {
    JsonModel::Str(Seq::empty())
}

/// The model of the empty object.
pub open spec fn empty_object_model() -> JsonModel {
    JsonModel::Object(Seq::empty())
}

/// The string value `"0x0"`.
pub fn hex_zero() -> (r: Json)
    ensures
        r@ == hex_zero_model(),
{
    Json::Str(String::from_str("0x0"))
}

/// The empty string value.
pub fn empty_str() -> (r: Json)
    ensures
        r@ == empty_str_model(),
{
    Json::Str(String::new())
}

/// The empty object.
pub fn empty_object() -> (r: Json)
    ensures
        r@ == empty_object_model(),
{
    let entries: Vec<(String, Json)> = Vec::new();
    let r = Json::Object(entries);
    assert(r@->Object_0 =~= Seq::<(Seq<char>, JsonModel)>::empty());
    r
}

proof fn lemma_lookup_skip(entries: Seq<(Seq<char>, JsonModel)>, i: int, key: Seq<char>)
    requires
        0 <= i < entries.len(),
        entries[i].0 != key,
    ensures
        lookup(entries.subrange(0, i + 1), key) == lookup(entries.subrange(0, i), key),
{
    assert(entries.subrange(0, i + 1).drop_last() =~= entries.subrange(0, i));
}

impl Json {
    /// A copy of this value.
    pub fn copy(&self) -> (r: Json)
        ensures
            r@ == self@,
        decreases self,
    {
        match self {
            Json::Null => Json::Null,
            Json::Bool(b) => Json::Bool(*b),
            Json::Number(n) => Json::Number(n.clone()),
            Json::Str(s) => Json::Str(s.clone()),
            Json::Array(items) => {
                let mut out: Vec<Json> = Vec::new();
                let mut i: usize = 0;
                while i < items.len()
                    invariant
                        i <= items@.len(),
                        *self == Json::Array(*items),
                        out@.len() == i,
                        forall|k: int| 0 <= k < i ==> (#[trigger] out@[k])@ == items@[k]@,
                    decreases items.len() - i,
                {
                    proof {
                        vstd::std_specs::vec::axiom_vec_index_decreases(*items, i as int);
                        assert(decreases_to!(*self => (*self)->Array_0));
                    }
                    let c = items[i].copy();
                    out.push(c);
                    i = i + 1;
                }
                let r = Json::Array(out);
                assert(r@->Array_0 =~= self@->Array_0);
                r
            },
            Json::Object(entries) => {
                let mut out: Vec<(String, Json)> = Vec::new();
                let mut i: usize = 0;
                while i < entries.len()
                    invariant
                        i <= entries@.len(),
                        *self == Json::Object(*entries),
                        out@.len() == i,
                        forall|k: int|
                            0 <= k < i ==> #[trigger] out@[k].0@ == entries@[k].0@ && out@[k].1@
                                == entries@[k].1@,
                    decreases entries.len() - i,
                {
                    proof {
                        vstd::std_specs::vec::axiom_vec_index_decreases(*entries, i as int);
                        assert(decreases_to!(*self => (*self)->Object_0));
                        assert(decreases_to!(entries@[i as int] => entries@[i as int].1));
                    }
                    let c = entries[i].1.copy();
                    out.push((entries[i].0.clone(), c));
                    i = i + 1;
                }
                let r = Json::Object(out);
                assert(r@->Object_0 =~= self@->Object_0);
                r
            },
        }
    }

    /// The field `key` of an object, copied, or `default` where this is not an
    /// object or has no such field.
    pub fn field_or(&self, key: &str, default: Json) -> (r: Json)
        ensures
            r@ == self@.field_or(key@, default@),
    {
        match self {
            Json::Object(entries) => {
                let wanted = String::from_str(key);
                let ghost model = match self@ {
                    JsonModel::Object(es) => es,
                    _ => Seq::empty(),
                };
                assert(model.len() == entries@.len());
                assert(self@ == JsonModel::Object(model));
                assert(model.subrange(0, entries@.len() as int) =~= model);
                let mut i: usize = entries.len();
                while i > 0
                    invariant
                        i <= entries@.len(),
                        self@ == JsonModel::Object(model),
                        wanted@ == key@,
                        model.len() == entries@.len(),
                        forall|k: int|
                            0 <= k < entries@.len() ==> #[trigger] model[k] == (
                            entries@[k].0@,
                            entries@[k].1@,
                        ),
                        lookup(model, key@) == lookup(model.subrange(0, i as int), key@),
                    decreases i,
                {
                    if entries[i - 1].0 == wanted {
                        assert(model[i - 1] == (entries@[i - 1].0@, entries@[i - 1].1@));
                        assert(model.subrange(0, i as int).last() == model[i - 1]);
                        assert(lookup(model, key@) == Some(entries@[i - 1].1@));
                        let r = entries[i - 1].1.copy();
                        assert(self@.field(key@) == Some(r@));
                        return r;
                    }
                    proof {
                        lemma_lookup_skip(model, i - 1, wanted@);
                    }
                    i = i - 1;
                }
                assert(model.subrange(0, 0).len() == 0);
                default
            },
            _ => default,
        }
    }
}

} // verus!

//! Parameter schemas and the parameter resolver.
//!
//! A simulation declares its tunable inputs as an ordered schema of
//! [`SimulationParameter`] entries. A request carries an untyped bag of
//! named raw values; the resolver walks the schema and, for each entry,
//! takes the caller's value when it is present and of the declared kind,
//! and the schema default otherwise. Malformed or missing input never
//! fails a request; it degrades to the default.
//!
//! Numeric values are carried in micro-units: one millionth of the
//! parameter's display unit (see [`crate::fixed`]).

use vstd::prelude::*;

verus! {

/// A raw parameter value as it arrives from a caller: a number
/// (micro-units) or a boolean.
#[derive(Clone, Copy, Debug, PartialEq, Eq, Structural)]
pub enum RawValue {
    Num(i64),
    Bool(bool),
}

/// The kind of a tunable parameter: a continuous numeric slider or a
/// boolean toggle.
#[derive(Clone, Copy, Debug, PartialEq, Eq, Structural)]
pub enum ParamKind {
    Slider,
    Toggle,
}

/// One entry of a simulation's parameter schema. Numeric fields are in
/// micro-units; `min`, `max` and `step` describe the slider's range for a
/// user interface and are advisory only — the resolver does not clamp to
/// them. For a toggle, `default` is zero for false, non-zero for true.
pub struct SimulationParameter {
    pub name: String,
    pub label: String,
    pub param_type: ParamKind,
    pub min: Option<i64>,
    pub max: Option<i64>,
    pub default: i64,
    pub step: Option<i64>,
}

/// The value the first entry named `name` holds, if any. Callers build the
/// bag from a JSON object, whose keys are unique, so first is only.
pub open spec fn sp_lookup(entries: Seq<(Seq<char>, RawValue)>, name: Seq<char>) -> Option<
    RawValue,
>
    decreases entries.len(),
{
    if entries.len() == 0 {
        None
    } else if entries[0].0 == name {
        Some(entries[0].1)
    } else {
        sp_lookup(entries.drop_first(), name)
    }
}

/// The view of a raw-value bag: each entry as its key's character sequence
/// paired with its value.
pub open spec fn sp_entries(entries: Seq<(String, RawValue)>) -> Seq<(Seq<char>, RawValue)> {
    entries.map_values(|e: (String, RawValue)| (e.0@, e.1))
}

/// What a schema entry resolves to against a raw-value bag: the caller's
/// value when present and of the declared kind, the default otherwise.
pub open spec fn sp_resolve_one(p: SimulationParameter, raw: Seq<(Seq<char>, RawValue)>) -> RawValue {
    match p.param_type {
        ParamKind::Slider => match sp_lookup(raw, p.name@) {
            Some(RawValue::Num(v)) => RawValue::Num(v),
            _ => RawValue::Num(p.default),
        },
        ParamKind::Toggle => match sp_lookup(raw, p.name@) {
            Some(RawValue::Bool(b)) => RawValue::Bool(b),
            _ => RawValue::Bool(p.default != 0),
        },
    }
}

/// Find the value stored under `name`, scanning in insertion order.
pub fn lookup(entries: &Vec<(String, RawValue)>, name: &String) -> (r: Option<RawValue>)
    ensures
        r == sp_lookup(sp_entries(entries@), name@),
{
    proof {
        assert(sp_entries(entries@).skip(0) =~= sp_entries(entries@));
    }
    let mut i: usize = 0;
    while i < entries.len()
        invariant
            i <= entries@.len(),
            sp_lookup(sp_entries(entries@), name@) == sp_lookup(
                sp_entries(entries@).skip(i as int),
                name@,
            ),
        decreases entries@.len() - i,
    {
        proof {
            let ghost k: int = i as int;
            assert(sp_entries(entries@).skip(k)[0] == (entries@[k].0@, entries@[k].1));
            assert(sp_entries(entries@).skip(k).drop_first() =~= sp_entries(entries@).skip(k + 1));
        }
        if entries[i].0 == *name {
            return Some(entries[i].1);
        }
        i = i + 1;
    }
    proof {
        assert(sp_entries(entries@).skip(entries@.len() as int).len() == 0);
    }
    None
}

/// Resolve a raw-value bag against a schema: one value per schema entry,
/// in schema order, the caller's where it is usable and the default where
/// it is not.
pub fn resolve(
    schema: &Vec<SimulationParameter>,
    raw: &Vec<(String, RawValue)>,
) -> (r: Vec<(String, RawValue)>)
    ensures
        r@.len() == schema@.len(),
        forall|i: int|
            0 <= i < schema@.len() ==> r@[i].0@ == schema@[i].name@ && r@[i].1
                == sp_resolve_one(schema@[i], sp_entries(raw@)),
{
    let mut out: Vec<(String, RawValue)> = Vec::new();
    let mut i: usize = 0;
    while i < schema.len()
        invariant
            i <= schema@.len(),
            out@.len() == i,
            forall|j: int|
                0 <= j < i ==> out@[j].0@ == schema@[j].name@ && out@[j].1
                    == sp_resolve_one(schema@[j], sp_entries(raw@)),
        decreases schema@.len() - i,
    {
        let found = lookup(raw, &schema[i].name);
        let value: RawValue = match schema[i].param_type {
            ParamKind::Slider => match found {
                Some(RawValue::Num(v)) => RawValue::Num(v),
                _ => RawValue::Num(schema[i].default),
            },
            ParamKind::Toggle => match found {
                Some(RawValue::Bool(b)) => RawValue::Bool(b),
                _ => RawValue::Bool(schema[i].default != 0),
            },
        };
        out.push((schema[i].name.clone(), value));
        i = i + 1;
    }
    out
}

} // verus!

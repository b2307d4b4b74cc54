//! The store's typed value model.
//!
//! `Value` is the executable tree handed to and received from the store;
//! `ValueV` is its mathematical view. A `Float` carries the bit pattern of
//! its 64-bit IEEE 754 value, so the tree itself stays purely structural.

use vstd::prelude::*;

verus! {

broadcast use vstd::std_specs::vec::group_vec_axioms;

/// A typed store value.
#[derive(Debug, PartialEq, Eq)]
pub enum Value {
    /// The null value.
    Null,
    /// A boolean.
    Bool(bool),
    /// A 64-bit signed integer.
    Int(i64),
    /// A 64-bit IEEE 754 number, held as its bit pattern.
    Float(u64),
    /// A string.
    Str(String),
    /// An ordered array.
    Arr(Vec<Value>),
    /// An object: field names with values, names unique.
    Obj(Vec<(String, Value)>),
}

/// The mathematical view of a [`Value`] tree.
#[verifier::ext_equal]
pub enum ValueV {
    /// The null value.
    Null,
    /// A boolean.
    Bool(bool),
    /// A 64-bit signed integer.
    Int(i64),
    /// A 64-bit IEEE 754 number, held as its bit pattern.
    Float(u64),
    /// A string.
    Str(Seq<char>),
    /// An ordered array.
    Arr(Seq<ValueV>),
    /// An object: field names with values.
    Obj(Seq<(Seq<char>, ValueV)>),
}

/// The view of a value tree.
pub open spec fn value_view(v: Value) -> ValueV
    decreases v,
{
    match v {
        Value::Null => ValueV::Null,
        Value::Bool(b) => ValueV::Bool(b),
        Value::Int(i) => ValueV::Int(i),
        Value::Float(bits) => ValueV::Float(bits),
        Value::Str(s) => ValueV::Str(s@),
        Value::Arr(items) => {
            proof {
                assert(decreases_to!(items => items@));
            }
            ValueV::Arr(value_view_seq(items@))
        },
        Value::Obj(fields) => {
            proof {
                assert(decreases_to!(fields => fields@));
            }
            ValueV::Obj(value_view_fields(fields@))
        },
    }
}

/// The views of the elements of an array, in order.
pub open spec fn value_view_seq(items: Seq<Value>) -> Seq<ValueV>
    decreases items,
{
    if items.len() == 0 {
        Seq::empty()
    } else {
        value_view_seq(items.subrange(0, items.len() - 1)).push(
            value_view(items[items.len() - 1]),
        )
    }
}

/// The views of the fields of an object, in order.
pub open spec fn value_view_fields(fields: Seq<(String, Value)>) -> Seq<(Seq<char>, ValueV)>
    decreases fields,
{
    if fields.len() == 0 {
        Seq::empty()
    } else {
        value_view_fields(fields.subrange(0, fields.len() - 1)).push(
            (fields[fields.len() - 1].0@, value_view(fields[fields.len() - 1].1)),
        )
    }
}

/// `value_view_seq` maps element views pointwise.
pub broadcast proof fn lemma_value_view_seq(items: Seq<Value>)
    ensures
        #[trigger] value_view_seq(items).len() == items.len(),
        forall|i: int| 0 <= i < items.len() ==> value_view_seq(items)[i] == value_view(items[i]),
    decreases items,
{
    if items.len() > 0 {
        lemma_value_view_seq(items.subrange(0, items.len() - 1));
    }
}

/// `value_view_fields` maps field views pointwise.
pub broadcast proof fn lemma_value_view_fields(fields: Seq<(String, Value)>)
    ensures
        #[trigger] value_view_fields(fields).len() == fields.len(),
        forall|i: int|
            0 <= i < fields.len() ==> value_view_fields(fields)[i] == (
                fields[i].0@,
                value_view(fields[i].1),
            ),
    decreases fields,
{
    if fields.len() > 0 {
        lemma_value_view_fields(fields.subrange(0, fields.len() - 1));
    }
}

impl View for Value {
    type V = ValueV;

    open spec fn view(&self) -> ValueV {
        value_view(*self)
    }
}

/// Every object in the tree has pairwise distinct field names.
pub open spec fn value_wf(v: ValueV) -> bool
    decreases v,
{
    match v {
        ValueV::Arr(items) => forall|i: int|
            0 <= i < items.len() ==> value_wf(#[trigger] items[i]),
        ValueV::Obj(fields) => {
            &&& forall|i: int, k: int|
                0 <= i < k < fields.len() ==> (#[trigger] fields[i].0) != (#[trigger] fields[k].0)
            &&& forall|i: int| 0 <= i < fields.len() ==> value_wf((#[trigger] fields[i]).1)
        },
        _ => true,
    }
}

} // verus!

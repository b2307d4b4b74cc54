//! The untyped JSON value model used on the wire.
//!
//! `Json` is the executable tree; `JsonV` is its mathematical view, with
//! sequences in place of vectors and strings. Numbers carry either an exact
//! 64-bit signed integer or the bit pattern of an IEEE 754 double; a number
//! that fits neither form is kept as its decimal text in `BigNum` and is
//! rejected by the value codec.

use vstd::prelude::*;

verus! {

broadcast use vstd::std_specs::vec::group_vec_axioms;

/// A JSON value.
#[derive(Debug, PartialEq, Eq)]
pub enum Json {
    /// JSON `null`.
    Null,
    /// A boolean.
    Bool(bool),
    /// A number exactly representable as a 64-bit signed integer.
    Int(i64),
    /// A number held as the bit pattern of its 64-bit IEEE 754 value.
    Float(u64),
    /// A number representable neither as `Int` nor as `Float`, as text.
    BigNum(String),
    /// A string.
    Str(String),
    /// An ordered array.
    Arr(Vec<Json>),
    /// An object: field names with values, names unique.
    Obj(Vec<(String, Json)>),
}

/// The mathematical view of a [`Json`] tree.
#[verifier::ext_equal]
pub enum JsonV {
    /// JSON `null`.
    Null,
    /// A boolean.
    Bool(bool),
    /// An integer number.
    Int(i64),
    /// A number as the bit pattern of its 64-bit IEEE 754 value.
    Float(u64),
    /// An out-of-range number, as text.
    BigNum(Seq<char>),
    /// A string.
    Str(Seq<char>),
    /// An ordered array.
    Arr(Seq<JsonV>),
    /// An object: field names with values.
    Obj(Seq<(Seq<char>, JsonV)>),
}

/// The view of a JSON tree.
pub open spec fn json_view(j: Json) -> JsonV
    decreases j,
{
    match j {
        Json::Null => JsonV::Null,
        Json::Bool(b) => JsonV::Bool(b),
        Json::Int(i) => JsonV::Int(i),
        Json::Float(bits) => JsonV::Float(bits),
        Json::BigNum(s) => JsonV::BigNum(s@),
        Json::Str(s) => JsonV::Str(s@),
        Json::Arr(items) => {
            proof {
                assert(decreases_to!(items => items@));
            }
            JsonV::Arr(json_view_seq(items@))
        },
        Json::Obj(fields) => {
            proof {
                assert(decreases_to!(fields => fields@));
            }
            JsonV::Obj(json_view_fields(fields@))
        },
    }
}

/// The views of the elements of an array, in order.
pub open spec fn json_view_seq(items: Seq<Json>) -> Seq<JsonV>
    decreases items,
{
    if items.len() == 0 {
        Seq::empty()
    } else {
        json_view_seq(items.subrange(0, items.len() - 1)).push(
            json_view(items[items.len() - 1]),
        )
    }
}

/// The views of the fields of an object, in order.
pub open spec fn json_view_fields(fields: Seq<(String, Json)>) -> Seq<(Seq<char>, JsonV)>
    decreases fields,
{
    if fields.len() == 0 {
        Seq::empty()
    } else {
        json_view_fields(fields.subrange(0, fields.len() - 1)).push(
            (fields[fields.len() - 1].0@, json_view(fields[fields.len() - 1].1)),
        )
    }
}

/// `json_view_seq` maps element views pointwise.
pub broadcast proof fn lemma_json_view_seq(items: Seq<Json>)
    ensures
        #[trigger] json_view_seq(items).len() == items.len(),
        forall|i: int| 0 <= i < items.len() ==> json_view_seq(items)[i] == json_view(items[i]),
    decreases items,
{
    if items.len() > 0 {
        lemma_json_view_seq(items.subrange(0, items.len() - 1));
    }
}

/// `json_view_fields` maps field views pointwise.
pub broadcast proof fn lemma_json_view_fields(fields: Seq<(String, Json)>)
    ensures
        #[trigger] json_view_fields(fields).len() == fields.len(),
        forall|i: int|
            0 <= i < fields.len() ==> json_view_fields(fields)[i] == (
                fields[i].0@,
                json_view(fields[i].1),
            ),
    decreases fields,
{
    if fields.len() > 0 {
        lemma_json_view_fields(fields.subrange(0, fields.len() - 1));
    }
}

impl View for Json {
    type V = JsonV;

    open spec fn view(&self) -> JsonV {
        json_view(*self)
    }
}

/// Looks a field name up in an object's field list: the first match wins.
pub open spec fn field_of(fields: Seq<(Seq<char>, JsonV)>, name: Seq<char>) -> Option<JsonV>
    decreases fields.len(),
{
    if fields.len() == 0 {
        None
    } else if fields[0].0 == name {
        Some(fields[0].1)
    } else {
        field_of(fields.drop_first(), name)
    }
}

/// Every object in the tree has pairwise distinct field names.
pub open spec fn json_wf(j: JsonV) -> bool
    decreases j,
{
    match j {
        JsonV::Arr(items) => forall|i: int| 0 <= i < items.len() ==> json_wf(#[trigger] items[i]),
        JsonV::Obj(fields) => {
            &&& forall|i: int, k: int|
                0 <= i < k < fields.len() ==> (#[trigger] fields[i].0) != (#[trigger] fields[k].0)
            &&& forall|i: int| 0 <= i < fields.len() ==> json_wf((#[trigger] fields[i]).1)
        },
        _ => true,
    }
}

} // verus!

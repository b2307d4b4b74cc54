//! The value codec: conversion between JSON values and typed store values,
//! and the typed argument helpers used by the tool handlers.
//!
//! Decoding is total over the JSON grammar except for numbers representable
//! neither as a 64-bit signed integer nor as a 64-bit IEEE 754 value; such a
//! number is rejected with an `InvalidArg` error. Encoding is total, and the
//! two directions invert each other: see [`lemma_decode_encode`] and
//! [`lemma_encode_decode`].

use vstd::prelude::*;

use crate::error::McpError;
use crate::json::{field_of, json_view, json_view_fields, json_view_seq, json_wf, Json, JsonV};
use crate::json::{lemma_json_view_fields, lemma_json_view_seq};
use crate::value::{value_view, value_view_fields, value_view_seq, value_wf, Value, ValueV};
use crate::value::{lemma_value_view_fields, lemma_value_view_seq};

verus! {

broadcast use vstd::std_specs::vec::group_vec_axioms, lemma_json_view_seq,
    lemma_json_view_fields, lemma_value_view_seq, lemma_value_view_fields;

/// What decoding a JSON value yields: the typed value, or nothing when a
/// number in the tree is out of range.
pub open spec fn decode_json(j: JsonV) -> Option<ValueV>
    decreases j,
{
    match j {
        JsonV::Null => Some(ValueV::Null),
        JsonV::Bool(b) => Some(ValueV::Bool(b)),
        JsonV::Int(i) => Some(ValueV::Int(i)),
        JsonV::Float(bits) => Some(ValueV::Float(bits)),
        JsonV::BigNum(_) => None,
        JsonV::Str(s) => Some(ValueV::Str(s)),
        JsonV::Arr(items) => match decode_json_seq(items) {
            Some(vs) => Some(ValueV::Arr(vs)),
            None => None,
        },
        JsonV::Obj(fields) => match decode_json_fields(fields) {
            Some(fs) => Some(ValueV::Obj(fs)),
            None => None,
        },
    }
}

/// Decodes the elements of an array; fails if any element fails.
pub open spec fn decode_json_seq(items: Seq<JsonV>) -> Option<Seq<ValueV>>
    decreases items,
{
    if items.len() == 0 {
        Some(Seq::empty())
    } else {
        match (
            decode_json_seq(items.subrange(0, items.len() - 1)),
            decode_json(items[items.len() - 1]),
        ) {
            (Some(init), Some(last)) => Some(init.push(last)),
            _ => None,
        }
    }
}

/// Decodes the fields of an object; fails if any field's value fails.
pub open spec fn decode_json_fields(fields: Seq<(Seq<char>, JsonV)>) -> Option<
    Seq<(Seq<char>, ValueV)>,
>
    decreases fields,
{
    if fields.len() == 0 {
        Some(Seq::empty())
    } else {
        match (
            decode_json_fields(fields.subrange(0, fields.len() - 1)),
            decode_json(fields[fields.len() - 1].1),
        ) {
            (Some(init), Some(last)) => Some(init.push((fields[fields.len() - 1].0, last))),
            _ => None,
        }
    }
}

/// What encoding a typed value yields. Total: integers and floats map back
/// to JSON numbers by construction.
pub open spec fn encode_value(v: ValueV) -> JsonV
    decreases v,
{
    match v {
        ValueV::Null => JsonV::Null,
        ValueV::Bool(b) => JsonV::Bool(b),
        ValueV::Int(i) => JsonV::Int(i),
        ValueV::Float(bits) => JsonV::Float(bits),
        ValueV::Str(s) => JsonV::Str(s),
        ValueV::Arr(items) => JsonV::Arr(encode_value_seq(items)),
        ValueV::Obj(fields) => JsonV::Obj(encode_value_fields(fields)),
    }
}

/// Encodes the elements of an array, in order.
pub open spec fn encode_value_seq(items: Seq<ValueV>) -> Seq<JsonV>
    decreases items,
{
    if items.len() == 0 {
        Seq::empty()
    } else {
        encode_value_seq(items.subrange(0, items.len() - 1)).push(
            encode_value(items[items.len() - 1]),
        )
    }
}

/// Encodes the fields of an object, in order.
pub open spec fn encode_value_fields(fields: Seq<(Seq<char>, ValueV)>) -> Seq<(Seq<char>, JsonV)>
    decreases fields,
{
    if fields.len() == 0 {
        Seq::empty()
    } else {
        encode_value_fields(fields.subrange(0, fields.len() - 1)).push(
            (fields[fields.len() - 1].0, encode_value(fields[fields.len() - 1].1)),
        )
    }
}

/// `encode_value_seq` maps element encodings pointwise.
pub broadcast proof fn lemma_encode_value_seq(items: Seq<ValueV>)
    ensures
        #[trigger] encode_value_seq(items).len() == items.len(),
        forall|i: int|
            0 <= i < items.len() ==> encode_value_seq(items)[i] == encode_value(items[i]),
    decreases items,
{
    if items.len() > 0 {
        lemma_encode_value_seq(items.subrange(0, items.len() - 1));
    }
}

/// `encode_value_fields` maps field encodings pointwise.
pub broadcast proof fn lemma_encode_value_fields(fields: Seq<(Seq<char>, ValueV)>)
    ensures
        #[trigger] encode_value_fields(fields).len() == fields.len(),
        forall|i: int|
            0 <= i < fields.len() ==> encode_value_fields(fields)[i] == (
                fields[i].0,
                encode_value(fields[i].1),
            ),
    decreases fields,
{
    if fields.len() > 0 {
        lemma_encode_value_fields(fields.subrange(0, fields.len() - 1));
    }
}

/// An array decodes exactly when each element decodes, elementwise.
pub proof fn lemma_decode_json_seq(items: Seq<JsonV>)
    ensures
        decode_json_seq(items) is Some <==> (forall|i: int|
            0 <= i < items.len() ==> decode_json(#[trigger] items[i]) is Some),
        decode_json_seq(items) matches Some(vs) ==> {
            &&& vs.len() == items.len()
            &&& forall|i: int|
                0 <= i < items.len() ==> Some(#[trigger] vs[i]) == decode_json(items[i])
        },
    decreases items,
{
    if items.len() > 0 {
        let init = items.subrange(0, items.len() - 1);
        lemma_decode_json_seq(init);
        assert(forall|i: int| 0 <= i < init.len() ==> init[i] == items[i]);
    }
}

/// An object decodes exactly when each field's value decodes, fieldwise.
pub proof fn lemma_decode_json_fields(fields: Seq<(Seq<char>, JsonV)>)
    ensures
        decode_json_fields(fields) is Some <==> (forall|i: int|
            0 <= i < fields.len() ==> decode_json((#[trigger] fields[i]).1) is Some),
        decode_json_fields(fields) matches Some(fs) ==> {
            &&& fs.len() == fields.len()
            &&& forall|i: int|
                0 <= i < fields.len() ==> #[trigger] fs[i] == (
                    fields[i].0,
                    decode_json(fields[i].1)->Some_0,
                )
        },
    decreases fields,
{
    if fields.len() > 0 {
        let init = fields.subrange(0, fields.len() - 1);
        lemma_decode_json_fields(init);
        assert(forall|i: int| 0 <= i < init.len() ==> init[i] == fields[i]);
    }
}

/// Round trip one way: decoding an encoded value gives the value back.
pub proof fn lemma_decode_encode(v: ValueV)
    ensures
        decode_json(encode_value(v)) == Some(v),
    decreases v,
{
    match v {
        ValueV::Arr(items) => {
            lemma_decode_encode_seq(items);
        },
        ValueV::Obj(fields) => {
            lemma_decode_encode_fields(fields);
        },
        _ => {},
    }
}

proof fn lemma_decode_encode_seq(items: Seq<ValueV>)
    ensures
        decode_json_seq(encode_value_seq(items)) == Some(items),
    decreases items,
{
    if items.len() == 0 {
        assert(items =~= Seq::<ValueV>::empty());
    } else {
        let init = items.subrange(0, items.len() - 1);
        let last = items[items.len() - 1];
        lemma_decode_encode_seq(init);
        lemma_decode_encode(last);
        let es = encode_value_seq(items);
        assert(es == encode_value_seq(init).push(encode_value(last)));
        broadcast use lemma_encode_value_seq;

        assert(es.subrange(0, es.len() - 1) =~= encode_value_seq(init));
        assert(es[es.len() - 1] == encode_value(last));
        assert(init.push(last) =~= items);
    }
}

proof fn lemma_decode_encode_fields(fields: Seq<(Seq<char>, ValueV)>)
    ensures
        decode_json_fields(encode_value_fields(fields)) == Some(fields),
    decreases fields,
{
    if fields.len() == 0 {
        assert(fields =~= Seq::<(Seq<char>, ValueV)>::empty());
    } else {
        let init = fields.subrange(0, fields.len() - 1);
        let last = fields[fields.len() - 1];
        lemma_decode_encode_fields(init);
        lemma_decode_encode(last.1);
        let es = encode_value_fields(fields);
        assert(es == encode_value_fields(init).push((last.0, encode_value(last.1))));
        broadcast use lemma_encode_value_fields;

        assert(es.subrange(0, es.len() - 1) =~= encode_value_fields(init));
        assert(es[es.len() - 1] == (last.0, encode_value(last.1)));
        assert(init.push(last) =~= fields);
    }
}

/// Round trip the other way: a JSON value whose numbers are in range is
/// given back unchanged by encoding its decoding.
pub proof fn lemma_encode_decode(j: JsonV)
    ensures
        decode_json(j) matches Some(v) ==> encode_value(v) == j,
    decreases j,
{
    match j {
        JsonV::Arr(items) => {
            lemma_encode_decode_seq(items);
        },
        JsonV::Obj(fields) => {
            lemma_encode_decode_fields(fields);
        },
        _ => {},
    }
}

proof fn lemma_encode_decode_seq(items: Seq<JsonV>)
    ensures
        decode_json_seq(items) matches Some(vs) ==> encode_value_seq(vs) == items,
    decreases items,
{
    if items.len() == 0 {
        if decode_json_seq(items) is Some {
            assert(encode_value_seq(Seq::<ValueV>::empty()) =~= items);
        }
    } else {
        let init = items.subrange(0, items.len() - 1);
        let last = items[items.len() - 1];
        lemma_encode_decode_seq(init);
        lemma_encode_decode(last);
        if decode_json_seq(items) is Some {
            let vs = decode_json_seq(items)->Some_0;
            let init_vs = decode_json_seq(init)->Some_0;
            let last_v = decode_json(last)->Some_0;
            assert(vs == init_vs.push(last_v));
            assert(vs.subrange(0, vs.len() - 1) =~= init_vs);
            assert(encode_value_seq(vs) == encode_value_seq(init_vs).push(encode_value(last_v)));
            assert(encode_value_seq(vs) =~= items);
        }
    }
}

proof fn lemma_encode_decode_fields(fields: Seq<(Seq<char>, JsonV)>)
    ensures
        decode_json_fields(fields) matches Some(fs) ==> encode_value_fields(fs) == fields,
    decreases fields,
{
    if fields.len() == 0 {
        if decode_json_fields(fields) is Some {
            assert(encode_value_fields(Seq::<(Seq<char>, ValueV)>::empty()) =~= fields);
        }
    } else {
        let init = fields.subrange(0, fields.len() - 1);
        let last = fields[fields.len() - 1];
        lemma_encode_decode_fields(init);
        lemma_encode_decode(last.1);
        if decode_json_fields(fields) is Some {
            let fs = decode_json_fields(fields)->Some_0;
            let init_fs = decode_json_fields(init)->Some_0;
            let last_v = decode_json(last.1)->Some_0;
            assert(fs == init_fs.push((last.0, last_v)));
            assert(fs.subrange(0, fs.len() - 1) =~= init_fs);
            assert(encode_value_fields(fs) == encode_value_fields(init_fs).push(
                (last.0, encode_value(last_v)),
            ));
            assert(encode_value_fields(fs) =~= fields);
        }
    }
}

/// Encoding keeps the object invariant: every object's field names stay
/// pairwise distinct, since encoding maps fields one to one by name.
pub proof fn lemma_encode_preserves_wf(v: ValueV)
    ensures
        value_wf(v) ==> json_wf(encode_value(v)),
    decreases v,
{
    broadcast use lemma_encode_value_seq, lemma_encode_value_fields;

    match v {
        ValueV::Arr(items) => {
            if value_wf(v) {
                let es = encode_value_seq(items);
                assert forall|i: int| 0 <= i < es.len() implies json_wf(#[trigger] es[i]) by {
                    assert(value_wf(items[i]));
                    lemma_encode_preserves_wf(items[i]);
                }
            }
        },
        ValueV::Obj(fields) => {
            if value_wf(v) {
                let es = encode_value_fields(fields);
                assert forall|i: int, k: int|
                    0 <= i < k < es.len() implies (#[trigger] es[i].0) != (#[trigger] es[k].0) by {
                    assert(fields[i].0 != fields[k].0);
                }
                assert forall|i: int| 0 <= i < es.len() implies json_wf((#[trigger] es[i]).1) by {
                    assert(value_wf(fields[i].1));
                    lemma_encode_preserves_wf(fields[i].1);
                }
            }
        },
        _ => {},
    }
}

/// Decoding keeps the object invariant the same way: field names are
/// carried over unchanged, so distinct names stay distinct.
pub proof fn lemma_decode_preserves_wf(j: JsonV)
    ensures
        json_wf(j) ==> (decode_json(j) matches Some(v) ==> value_wf(v)),
    decreases j,
{
    match j {
        JsonV::Arr(items) => {
            lemma_decode_json_seq(items);
            if json_wf(j) && decode_json_seq(items) is Some {
                let vs = decode_json_seq(items)->Some_0;
                assert forall|i: int| 0 <= i < vs.len() implies value_wf(#[trigger] vs[i]) by {
                    assert(json_wf(items[i]));
                    assert(Some(vs[i]) == decode_json(items[i]));
                    lemma_decode_preserves_wf(items[i]);
                }
            }
        },
        JsonV::Obj(fields) => {
            lemma_decode_json_fields(fields);
            if json_wf(j) && decode_json_fields(fields) is Some {
                let fs = decode_json_fields(fields)->Some_0;
                assert forall|i: int, k: int|
                    0 <= i < k < fs.len() implies (#[trigger] fs[i].0) != (#[trigger] fs[k].0) by {
                    assert(fs[i] == (fields[i].0, decode_json(fields[i].1)->Some_0));
                    assert(fs[k] == (fields[k].0, decode_json(fields[k].1)->Some_0));
                    assert(fields[i].0 != fields[k].0);
                }
                assert forall|i: int| 0 <= i < fs.len() implies value_wf((#[trigger] fs[i]).1) by {
                    assert(fs[i] == (fields[i].0, decode_json(fields[i].1)->Some_0));
                    assert(json_wf(fields[i].1));
                    lemma_decode_preserves_wf(fields[i].1);
                }
            }
        },
        _ => {},
    }
}

/// Is this the error decoding gives an out-of-range number?
pub open spec fn is_number_range_error(e: McpError) -> bool {
    &&& e matches McpError::InvalidArg { name, reason }
    &&& e->name@ == "value"@
    &&& e->reason@ == "Number out of range"@
}

/// Convert a JSON value to a typed store value.
#[verifier::loop_isolation(false)]
pub fn json_to_value(json: &Json) -> (r: Result<Value, McpError>)
    ensures
        r matches Ok(v) ==> decode_json(json@) == Some(v@),
        r matches Err(e) ==> decode_json(json@) is None && is_number_range_error(e),
    decreases json,
{
    match json {
        Json::Null => Ok(Value::Null),
        Json::Bool(b) => Ok(Value::Bool(*b)),
        Json::Int(i) => Ok(Value::Int(*i)),
        Json::Float(bits) => Ok(Value::Float(*bits)),
        Json::BigNum(_) => Err(
            McpError::InvalidArg {
                name: "value".to_owned(),
                reason: "Number out of range".to_owned(),
            },
        ),
        Json::Str(s) => Ok(Value::Str(s.clone())),
        Json::Arr(items) => {
            let mut out: Vec<Value> = Vec::new();
            let mut idx: usize = 0;
            while idx < items.len()
                invariant
                    idx <= items@.len(),
                    out@.len() == idx,
                    forall|k: int|
                        0 <= k < idx ==> decode_json(json_view(#[trigger] items@[k])) == Some(
                            value_view(out@[k]),
                        ),
                decreases items@.len() - idx,
            {
                proof {
                    assert(decreases_to!(*json => json->Arr_0));
                    assert(json->Arr_0 == *items);
                    assert(decreases_to!(*items => items@));
                }
                match json_to_value(&items[idx]) {
                    Ok(v) => {
                        out.push(v);
                    },
                    Err(e) => {
                        proof {
                            lemma_decode_json_seq(json_view_seq(items@));
                            assert(json_view_seq(items@)[idx as int] == json_view(
                                items@[idx as int],
                            ));
                        }
                        return Err(e);
                    },
                }
                idx = idx + 1;
            }
            proof {
                lemma_decode_json_seq(json_view_seq(items@));
                lemma_decode_json_seq_complete(items@, out@);
            }
            Ok(Value::Arr(out))
        },
        Json::Obj(fields) => {
            let mut out: Vec<(String, Value)> = Vec::new();
            let mut idx: usize = 0;
            while idx < fields.len()
                invariant
                    idx <= fields@.len(),
                    out@.len() == idx,
                    forall|k: int|
                        0 <= k < idx ==> (#[trigger] out@[k]).0@ == fields@[k].0@ && decode_json(
                            json_view(fields@[k].1),
                        ) == Some(value_view(out@[k].1)),
                decreases fields@.len() - idx,
            {
                proof {
                    assert(decreases_to!(*json => json->Obj_0));
                    assert(json->Obj_0 == *fields);
                    assert(decreases_to!(*fields => fields@));
                }
                let pair = &fields[idx];
                match json_to_value(&pair.1) {
                    Ok(v) => {
                        out.push((pair.0.clone(), v));
                    },
                    Err(e) => {
                        proof {
                            lemma_decode_json_fields(json_view_fields(fields@));
                            assert(json_view_fields(fields@)[idx as int].1 == json_view(
                                fields@[idx as int].1,
                            ));
                        }
                        return Err(e);
                    },
                }
                idx = idx + 1;
            }
            proof {
                lemma_decode_json_fields(json_view_fields(fields@));
                lemma_decode_json_fields_complete(fields@, out@);
            }
            Ok(Value::Obj(out))
        },
    }
}

proof fn lemma_decode_json_seq_complete(items: Seq<Json>, out: Seq<Value>)
    requires
        out.len() == items.len(),
        forall|k: int|
            0 <= k < items.len() ==> decode_json(json_view(#[trigger] items[k])) == Some(
                value_view(out[k]),
            ),
    ensures
        decode_json_seq(json_view_seq(items)) == Some(value_view_seq(out)),
{
    lemma_json_view_seq(items);
    lemma_value_view_seq(out);
    lemma_decode_json_seq(json_view_seq(items));
    let vs = decode_json_seq(json_view_seq(items))->Some_0;
    assert(vs =~~= value_view_seq(out));
}

proof fn lemma_decode_json_fields_complete(fields: Seq<(String, Json)>, out: Seq<(String, Value)>)
    requires
        out.len() == fields.len(),
        forall|k: int|
            0 <= k < fields.len() ==> (#[trigger] out[k]).0@ == fields[k].0@ && decode_json(
                json_view(fields[k].1),
            ) == Some(value_view(out[k].1)),
    ensures
        decode_json_fields(json_view_fields(fields)) == Some(value_view_fields(out)),
{
    lemma_json_view_fields(fields);
    lemma_value_view_fields(out);
    let jvf = json_view_fields(fields);
    lemma_decode_json_fields(jvf);
    assert forall|i: int| 0 <= i < jvf.len() implies decode_json((#[trigger] jvf[i]).1) is Some by {
        assert(out[i].0@ == fields[i].0@);
        assert(jvf[i] == (fields[i].0@, json_view(fields[i].1)));
    }
    assert(decode_json_fields(jvf) is Some);
    let fs = decode_json_fields(jvf)->Some_0;
    assert(fs.len() == fields.len());
    assert forall|i: int| 0 <= i < fields.len() implies fs[i] == value_view_fields(out)[i] by {
        assert(out[i].0@ == fields[i].0@);
        assert(jvf[i] == (fields[i].0@, json_view(fields[i].1)));
        assert(fs[i] == (jvf[i].0, decode_json(jvf[i].1)->Some_0));
        assert(value_view_fields(out)[i] == (out[i].0@, value_view(out[i].1)));
    }
    assert(fs =~= value_view_fields(out));
}

/// Convert a typed store value to a JSON value.
#[verifier::loop_isolation(false)]
pub fn value_to_json(value: &Value) -> (r: Json)
    ensures
        r@ == encode_value(value@),
    decreases value,
{
    match value {
        Value::Null => Json::Null,
        Value::Bool(b) => Json::Bool(*b),
        Value::Int(i) => Json::Int(*i),
        Value::Float(bits) => Json::Float(*bits),
        Value::Str(s) => Json::Str(s.clone()),
        Value::Arr(items) => {
            let mut out: Vec<Json> = Vec::new();
            let mut idx: usize = 0;
            while idx < items.len()
                invariant
                    idx <= items@.len(),
                    out@.len() == idx,
                    forall|k: int|
                        0 <= k < idx ==> json_view(#[trigger] out@[k]) == encode_value(
                            value_view(items@[k]),
                        ),
                decreases items@.len() - idx,
            {
                proof {
                    assert(decreases_to!(*value => value->Arr_0));
                    assert(value->Arr_0 == *items);
                    assert(decreases_to!(*items => items@));
                }
                let j = value_to_json(&items[idx]);
                out.push(j);
                idx = idx + 1;
            }
            let r = Json::Arr(out);
            proof {
                broadcast use lemma_encode_value_seq;

                assert(json_view_seq(r->Arr_0@) =~= encode_value_seq(value_view_seq(items@)));
            }
            r
        },
        Value::Obj(fields) => {
            let mut out: Vec<(String, Json)> = Vec::new();
            let mut idx: usize = 0;
            while idx < fields.len()
                invariant
                    idx <= fields@.len(),
                    out@.len() == idx,
                    forall|k: int|
                        0 <= k < idx ==> (#[trigger] out@[k]).0@ == fields@[k].0@ && json_view(
                            out@[k].1,
                        ) == encode_value(value_view(fields@[k].1)),
                decreases fields@.len() - idx,
            {
                proof {
                    assert(decreases_to!(*value => value->Obj_0));
                    assert(value->Obj_0 == *fields);
                    assert(decreases_to!(*fields => fields@));
                }
                let pair = &fields[idx];
                let j = value_to_json(&pair.1);
                out.push((pair.0.clone(), j));
                idx = idx + 1;
            }
            let r = Json::Obj(out);
            proof {
                broadcast use lemma_encode_value_fields;

                assert(json_view_fields(r->Obj_0@) =~~= encode_value_fields(
                    value_view_fields(fields@),
                ));
            }
            r
        },
    }
}

/// Is `e` an `InvalidArg` error naming this field, with this reason?
pub open spec fn invalid_arg_is(e: McpError, name: Seq<char>, reason: Seq<char>) -> bool {
    &&& e matches McpError::InvalidArg { .. }
    &&& e->name@ == name
    &&& e->reason@ == reason
}

/// Is `e` a `MissingArg` error naming this field?
pub open spec fn missing_arg_is(e: McpError, name: Seq<char>) -> bool {
    &&& e matches McpError::MissingArg(n)
    &&& n@ == name
}

proof fn lemma_field_of_step(fields: Seq<(Seq<char>, JsonV)>, name: Seq<char>, idx: int)
    requires
        0 <= idx < fields.len(),
        fields[idx].0 != name,
    ensures
        field_of(fields.skip(idx), name) == field_of(fields.skip(idx + 1), name),
{
    assert(fields.skip(idx)[0] == fields[idx]);
    assert(fields.skip(idx).drop_first() =~= fields.skip(idx + 1));
}

/// Looks a field up among the arguments: the first field of that name wins.
pub fn lookup_arg<'a>(args: &'a Vec<(String, Json)>, name: &str) -> (r: Option<&'a Json>)
    ensures
        match r {
            Some(j) => field_of(json_view_fields(args@), name@) == Some(j@),
            None => field_of(json_view_fields(args@), name@) is None,
        },
{
    let ghost fields = json_view_fields(args@);
    proof {
        assert(fields.skip(0) =~= fields);
    }
    let mut idx: usize = 0;
    while idx < args.len()
        invariant
            idx <= args@.len(),
            fields == json_view_fields(args@),
            field_of(fields, name@) == field_of(fields.skip(idx as int), name@),
        decreases args@.len() - idx,
    {
        proof {
            assert(fields[idx as int] == (args@[idx as int].0@, json_view(args@[idx as int].1)));
        }
        if crate::strutil::str_eq(args[idx].0.as_str(), name) {
            proof {
                assert(fields.skip(idx as int)[0] == fields[idx as int]);
            }
            return Some(&args[idx].1);
        }
        proof {
            lemma_field_of_step(fields, name@, idx as int);
        }
        idx = idx + 1;
    }
    proof {
        assert(fields.skip(idx as int) =~= Seq::<(Seq<char>, JsonV)>::empty());
    }
    None
}

/// Gets a required string argument.
pub fn get_string_arg(args: &Vec<(String, Json)>, name: &str) -> (r: Result<String, McpError>)
    ensures
        match field_of(json_view_fields(args@), name@) {
            Some(j) => match j {
                JsonV::Str(s) => r matches Ok(v) && v@ == s,
                _ => r matches Err(e) && invalid_arg_is(e, name@, "expected a string"@),
            },
            None => r matches Err(e) && missing_arg_is(e, name@),
        },
{
    match lookup_arg(args, name) {
        Some(Json::Str(s)) => Ok(s.clone()),
        Some(_) => Err(
            McpError::InvalidArg { name: name.to_owned(), reason: "expected a string".to_owned() },
        ),
        None => Err(McpError::MissingArg(name.to_owned())),
    }
}

/// Gets an optional string argument; absent or non-string gives `None`.
pub fn get_optional_string(args: &Vec<(String, Json)>, name: &str) -> (r: Option<String>)
    ensures
        match field_of(json_view_fields(args@), name@) {
            Some(j) => match j {
                JsonV::Str(s) => r matches Some(v) && v@ == s,
                _ => r is None,
            },
            None => r is None,
        },
{
    match lookup_arg(args, name) {
        Some(Json::Str(s)) => Some(s.clone()),
        _ => None,
    }
}

/// Does this JSON value carry an unsigned 64-bit integer, and which?
pub open spec fn as_u64(j: JsonV) -> Option<u64> {
    match j {
        JsonV::Int(i) => if i >= 0 {
            Some(i as u64)
        } else {
            None
        },
        _ => None,
    }
}

/// Gets a required unsigned integer argument.
pub fn get_u64_arg(args: &Vec<(String, Json)>, name: &str) -> (r: Result<u64, McpError>)
    ensures
        match field_of(json_view_fields(args@), name@) {
            Some(j) => match as_u64(j) {
                Some(n) => r == Ok::<u64, McpError>(n),
                None => r matches Err(e) && invalid_arg_is(
                    e,
                    name@,
                    "expected an unsigned integer"@,
                ),
            },
            None => r matches Err(e) && missing_arg_is(e, name@),
        },
{
    match lookup_arg(args, name) {
        Some(Json::Int(i)) => {
            if *i >= 0 {
                Ok(*i as u64)
            } else {
                Err(
                    McpError::InvalidArg {
                        name: name.to_owned(),
                        reason: "expected an unsigned integer".to_owned(),
                    },
                )
            }
        },
        Some(_) => Err(
            McpError::InvalidArg {
                name: name.to_owned(),
                reason: "expected an unsigned integer".to_owned(),
            },
        ),
        None => Err(McpError::MissingArg(name.to_owned())),
    }
}

/// Gets an optional unsigned integer argument; absent or unusable gives `None`.
pub fn get_optional_u64(args: &Vec<(String, Json)>, name: &str) -> (r: Option<u64>)
    ensures
        match field_of(json_view_fields(args@), name@) {
            Some(j) => r == as_u64(j),
            None => r is None,
        },
{
    match lookup_arg(args, name) {
        Some(Json::Int(i)) => {
            if *i >= 0 {
                Some(*i as u64)
            } else {
                None
            }
        },
        _ => None,
    }
}

/// Gets an optional boolean argument; absent or non-boolean gives `None`.
pub fn get_optional_bool(args: &Vec<(String, Json)>, name: &str) -> (r: Option<bool>)
    ensures
        match field_of(json_view_fields(args@), name@) {
            Some(j) => match j {
                JsonV::Bool(b) => r == Some(b),
                _ => r is None,
            },
            None => r is None,
        },
{
    match lookup_arg(args, name) {
        Some(Json::Bool(b)) => Some(*b),
        _ => None,
    }
}

/// The string argument of this name, if present and a string.
pub open spec fn opt_str_of(argsv: Seq<(Seq<char>, JsonV)>, name: Seq<char>) -> Option<Seq<char>> {
    match field_of(argsv, name) {
        Some(j) => match j {
            JsonV::Str(s) => Some(s),
            _ => None,
        },
        None => None,
    }
}

/// The unsigned integer argument of this name, if present and usable.
pub open spec fn opt_u64_of(argsv: Seq<(Seq<char>, JsonV)>, name: Seq<char>) -> Option<u64> {
    match field_of(argsv, name) {
        Some(j) => as_u64(j),
        None => None,
    }
}

/// Does this JSON value carry a number, and which?
pub open spec fn as_num(j: JsonV) -> Option<crate::command::Num> {
    match j {
        JsonV::Int(i) => Some(crate::command::Num::Int(i)),
        JsonV::Float(bits) => Some(crate::command::Num::Float(bits)),
        _ => None,
    }
}

/// Gets an optional numeric argument; absent or non-numeric gives `None`.
pub fn get_optional_num(args: &Vec<(String, Json)>, name: &str) -> (r: Option<
    crate::command::Num,
>)
    ensures
        match field_of(json_view_fields(args@), name@) {
            Some(j) => r == as_num(j),
            None => r is None,
        },
{
    match lookup_arg(args, name) {
        Some(Json::Int(i)) => Some(crate::command::Num::Int(*i)),
        Some(Json::Float(bits)) => Some(crate::command::Num::Float(*bits)),
        _ => None,
    }
}

/// Are all these JSON values strings?
pub open spec fn all_strings(items: Seq<JsonV>) -> bool {
    forall|i: int| 0 <= i < items.len() ==> (#[trigger] items[i]) is Str
}

/// Gets a required array-of-strings argument.
#[verifier::loop_isolation(false)]
pub fn get_string_list(args: &Vec<(String, Json)>, name: &str) -> (r: Result<
    Vec<String>,
    McpError,
>)
    ensures
        match field_of(json_view_fields(args@), name@) {
            Some(j) => match j {
                JsonV::Arr(items) => if all_strings(items) {
                    r matches Ok(v) && v@.len() == items.len() && (forall|i: int|
                        0 <= i < items.len() ==> (#[trigger] v@[i])@ == items[i]->Str_0)
                } else {
                    r matches Err(e) && invalid_arg_is(e, name@, "Expected array of strings"@)
                },
                _ => r matches Err(e) && invalid_arg_is(e, name@, "Expected array of strings"@),
            },
            None => r matches Err(e) && missing_arg_is(e, name@),
        },
{
    match lookup_arg(args, name) {
        Some(Json::Arr(items)) => {
            let ghost items_v = json_view_seq(items@);
            let mut out: Vec<String> = Vec::new();
            let mut idx: usize = 0;
            while idx < items.len()
                invariant
                    idx <= items@.len(),
                    out@.len() == idx,
                    items_v == json_view_seq(items@),
                    forall|k: int| 0 <= k < idx ==> items_v[k] is Str,
                    forall|k: int| 0 <= k < idx ==> (#[trigger] out@[k])@ == items_v[k]->Str_0,
                decreases items@.len() - idx,
            {
                proof {
                    crate::json::lemma_json_view_seq(items@);
                }
                match &items[idx] {
                    Json::Str(s) => {
                        out.push(s.clone());
                    },
                    _ => {
                        proof {
                            assert(items_v[idx as int] == crate::json::json_view(
                                items@[idx as int],
                            ));
                            assert(!(items_v[idx as int] is Str));
                        }
                        return Err(
                            McpError::InvalidArg {
                                name: name.to_owned(),
                                reason: "Expected array of strings".to_owned(),
                            },
                        );
                    },
                }
                idx = idx + 1;
            }
            proof {
                crate::json::lemma_json_view_seq(items@);
            }
            Ok(out)
        },
        Some(_) => Err(
            McpError::InvalidArg {
                name: name.to_owned(),
                reason: "Expected array of strings".to_owned(),
            },
        ),
        None => Err(McpError::MissingArg(name.to_owned())),
    }
}

/// Does this JSON value carry a token id: an integer within `u32` range?
pub open spec fn as_u32(j: JsonV) -> Option<u32> {
    match j {
        JsonV::Int(i) => if 0 <= i <= u32::MAX {
            Some(i as u32)
        } else {
            None
        },
        _ => None,
    }
}

/// Are all these JSON values token ids?
pub open spec fn all_u32s(items: Seq<JsonV>) -> bool {
    forall|i: int| 0 <= i < items.len() ==> as_u32(#[trigger] items[i]) is Some
}

/// Gets a required array-of-token-ids argument.
#[verifier::loop_isolation(false)]
pub fn get_u32_array(args: &Vec<(String, Json)>, name: &str) -> (r: Result<Vec<u32>, McpError>)
    ensures
        match field_of(json_view_fields(args@), name@) {
            Some(j) => match j {
                JsonV::Arr(items) => if all_u32s(items) {
                    r matches Ok(v) && v@.len() == items.len() && (forall|i: int|
                        0 <= i < items.len() ==> Some(#[trigger] v@[i]) == as_u32(items[i]))
                } else {
                    r matches Err(e) && invalid_arg_is(e, name@, "Expected array of integers"@)
                },
                _ => r matches Err(e) && invalid_arg_is(e, name@, "Expected array of integers"@),
            },
            None => r matches Err(e) && missing_arg_is(e, name@),
        },
{
    match lookup_arg(args, name) {
        Some(Json::Arr(items)) => {
            let ghost items_v = json_view_seq(items@);
            let mut out: Vec<u32> = Vec::new();
            let mut idx: usize = 0;
            while idx < items.len()
                invariant
                    idx <= items@.len(),
                    out@.len() == idx,
                    items_v == json_view_seq(items@),
                    forall|k: int| 0 <= k < idx ==> as_u32(#[trigger] items_v[k]) is Some,
                    forall|k: int| 0 <= k < idx ==> Some(#[trigger] out@[k]) == as_u32(items_v[k]),
                decreases items@.len() - idx,
            {
                proof {
                    crate::json::lemma_json_view_seq(items@);
                }
                let ok = match &items[idx] {
                    Json::Int(i) => {
                        if 0 <= *i && *i <= u32::MAX as i64 {
                            out.push(*i as u32);
                            true
                        } else {
                            false
                        }
                    },
                    _ => false,
                };
                if !ok {
                    proof {
                        assert(items_v[idx as int] == crate::json::json_view(items@[idx as int]));
                        assert(as_u32(items_v[idx as int]) is None);
                    }
                    return Err(
                        McpError::InvalidArg {
                            name: name.to_owned(),
                            reason: "Expected array of integers".to_owned(),
                        },
                    );
                }
                idx = idx + 1;
            }
            proof {
                crate::json::lemma_json_view_seq(items@);
            }
            Ok(out)
        },
        Some(_) => Err(
            McpError::InvalidArg {
                name: name.to_owned(),
                reason: "Expected array of integers".to_owned(),
            },
        ),
        None => Err(McpError::MissingArg(name.to_owned())),
    }
}

/// The token ids among these JSON values, in order, skipping the rest.
pub open spec fn collect_u32s(items: Seq<JsonV>) -> Seq<u32>
    decreases items,
{
    if items.len() == 0 {
        Seq::empty()
    } else {
        let init = collect_u32s(items.subrange(0, items.len() - 1));
        match as_u32(items[items.len() - 1]) {
            Some(n) => init.push(n),
            None => init,
        }
    }
}

/// Gets an optional array argument of token ids, keeping the usable
/// entries; absent or not an array gives `None`.
#[verifier::loop_isolation(false)]
pub fn get_optional_u32_array(args: &Vec<(String, Json)>, name: &str) -> (r: Option<Vec<u32>>)
    ensures
        match field_of(json_view_fields(args@), name@) {
            Some(j) => match j {
                JsonV::Arr(items) => r matches Some(v) && v@ == collect_u32s(items),
                _ => r is None,
            },
            None => r is None,
        },
{
    match lookup_arg(args, name) {
        Some(Json::Arr(items)) => {
            let ghost items_v = json_view_seq(items@);
            let mut out: Vec<u32> = Vec::new();
            let mut idx: usize = 0;
            while idx < items.len()
                invariant
                    idx <= items@.len(),
                    items_v == json_view_seq(items@),
                    out@ == collect_u32s(items_v.subrange(0, idx as int)),
                decreases items@.len() - idx,
            {
                proof {
                    crate::json::lemma_json_view_seq(items@);
                    assert(items_v[idx as int] == crate::json::json_view(items@[idx as int]));
                    assert(items_v.subrange(0, idx as int) =~= items_v.subrange(
                        0,
                        idx + 1 as int,
                    ).subrange(0, idx as int));
                }
                match &items[idx] {
                    Json::Int(i) => {
                        if 0 <= *i && *i <= u32::MAX as i64 {
                            out.push(*i as u32);
                        }
                    },
                    _ => {},
                }
                idx = idx + 1;
            }
            proof {
                assert(items_v.subrange(0, idx as int) =~= items_v);
            }
            Some(out)
        },
        _ => None,
    }
}

/// Gets a required value argument, decoded to a typed store value.
pub fn get_value_arg(args: &Vec<(String, Json)>, name: &str) -> (r: Result<Value, McpError>)
    ensures
        match field_of(json_view_fields(args@), name@) {
            Some(j) => match decode_json(j) {
                Some(v) => r matches Ok(got) && got@ == v,
                None => r matches Err(e) && is_number_range_error(e),
            },
            None => r matches Err(e) && missing_arg_is(e, name@),
        },
{
    match lookup_arg(args, name) {
        Some(j) => json_to_value(j),
        None => Err(McpError::MissingArg(name.to_owned())),
    }
}

} // verus!

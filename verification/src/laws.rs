//! Properties of the decoding rules as a whole.

use crate::access::{advance, position_after};
use crate::de::after_any;
use crate::encoding::{encodes, plain, reads_as, Tree};
use crate::error::Error;
use crate::rules::{
    decode, decode_consumes, decode_unimplemented, is_absent, lemma_special_words_differ, marker,
    read_bool, read_float, read_i64, read_map, read_seq, read_str, read_u64, read_unit, resolve,
    special_float, wrapped, Decoded, FloatSource, MapSource,
};
use crate::value::{tagged, Number, Value};
use vstd::prelude::*;

verus! {

/// A payload under its tag reads as the payload itself: `{"b": x}` as `x`,
/// `{"n": x}` as `x`, `{"s": x}` as `x`, `{"a": x}` as `x`, for every `x`
/// that is not itself an object.
pub proof fn law_tag_is_transparent(v: &Value)
    ensures
        tagged(v, "b"@) matches Some(x) ==> (!(*x is Object) ==> read_bool(v) == read_bool(x)),
        tagged(v, "n"@) matches Some(x) ==> (!(*x is Object) ==> read_u64(v) == read_u64(x)
            && read_i64(v) == read_i64(x)),
        tagged(v, "n"@) matches Some(x) ==> (*x is Number ==> read_float(v) == read_float(x)),
        tagged(v, "s"@) matches Some(x) ==> (!(*x is Object) ==> read_str(v) == read_str(x)),
        tagged(v, "a"@) matches Some(x) ==> (!(*x is Object) ==> read_seq(v) == read_seq(x)),
{
}

/// A plain JSON value reads, by a self-describing read, as itself: `null` as
/// unit, a boolean, a number by its kind, a string, an array.
pub proof fn law_plain_values_decode_as_themselves(v: &Value)
    ensures
        *v is Null ==> decode(v) == Ok::<Decoded, Error>(Decoded::Unit),
        *v matches Value::Bool(b) ==> decode(v) == Ok::<Decoded, Error>(Decoded::Bool(b)),
        *v matches Value::Number(Number::PosInt(n)) ==> decode(v) == Ok::<Decoded, Error>(
            Decoded::U64(n),
        ),
        *v matches Value::Number(Number::NegInt(n)) ==> decode(v) == Ok::<Decoded, Error>(
            Decoded::I64(n),
        ),
        *v matches Value::Number(Number::Float(bits)) ==> decode(v) == Ok::<Decoded, Error>(
            Decoded::F64(FloatSource::Number(Number::Float(bits))),
        ),
        v matches Value::String(s) ==> decode(v) == Ok::<Decoded, Error>(Decoded::Str(s)),
        v matches Value::Array(a) ==> decode(v) == Ok::<Decoded, Error>(Decoded::Array(a)),
        !(*v is Object) ==> decode_consumes(v) && !decode_unimplemented(v),
{
}

/// A value wrapped under `"v"` reads, by a self-describing read, as the value
/// itself, whatever else the wrapping object holds: the result, whether the
/// read is defined, and the stack it leaves over any rest `rest` below it are
/// those of a read of the wrapped value.
pub proof fn law_wrapping_is_transparent<'a>(v: &'a Value, rest: Seq<&'a Value>)
    ensures
        wrapped(v) matches Some(w) ==> {
            &&& resolve(v) == resolve(w)
            &&& decode(v) == decode(w)
            &&& decode_consumes(v) == decode_consumes(w)
            &&& decode_unimplemented(v) == decode_unimplemented(w)
            &&& after_any(rest, v) == after_any(rest, w)
        },
{
    if let Value::Object(m) = v {
        crate::value::lemma_find_bounds(m@, "v"@);
    }
}

/// Every form of an absent value (`null`, `{"v": "null"}`, `{"v": "undefined"}`)
/// reads as unit, by a unit read and by a self-describing read.
pub proof fn law_absent_reads_as_unit(v: &Value)
    ensures
        is_absent(v) <==> read_unit(v) is Ok,
        is_absent(v) ==> decode(v) == Ok::<Decoded, Error>(Decoded::Unit),
{
    lemma_special_words_differ();
    if let Value::Object(m) = v {
        crate::value::lemma_find_bounds(m@, "v"@);
    }
}

/// A special word under `"v"` stands for its floating-point value, where no
/// number is tagged `"n"` beside it.
pub proof fn law_special_words_read_as_floats(v: &Value)
    ensures
        tagged(v, "n"@) is None ==> (marker(v) matches Some(s) ==> (special_float(s@) matches Some(
            f,
        ) ==> read_float(v) == Ok::<FloatSource, Error>(f) && decode(v) == Ok::<Decoded, Error>(
            Decoded::F64(f),
        ))),
{
    lemma_special_words_differ();
    if let Value::Object(m) = v {
        crate::value::lemma_find_bounds(m@, "v"@);
    }
}

/// A self-describing read agrees with the typed read of the kind it finds,
/// applied to the unwrapped value.
pub proof fn law_decode_agrees_with_typed_reads(v: &Value)
    ensures
        decode(v) == Ok::<Decoded, Error>(Decoded::Unit) ==> read_unit(resolve(v)) is Ok,
        decode(v) matches Ok(Decoded::Bool(b)) ==> read_bool(resolve(v)) == Ok::<bool, Error>(b),
        decode(v) matches Ok(Decoded::U64(n)) ==> read_u64(resolve(v)) == Ok::<u64, Error>(n),
        decode(v) matches Ok(Decoded::I64(n)) ==> read_i64(resolve(v)) == Ok::<i64, Error>(n),
        decode(v) matches Ok(Decoded::F64(f)) ==> read_float(resolve(v)) == Ok::<FloatSource, Error>(
            f,
        ),
        decode(v) matches Ok(Decoded::Str(s)) ==> read_str(resolve(v)) == Ok::<&String, Error>(s),
        decode(v) matches Ok(Decoded::Array(a)) ==> read_seq(resolve(v)) == Ok::<&Vec<Value>, Error>(
            a,
        ),
        decode(v) matches Ok(Decoded::Object(s)) ==> read_map(resolve(v)) == Ok::<MapSource, Error>(s),
{
}

/// A self-describing read leaves a value on the stack only when it fails, and
/// then with `TypeMismatch`.
pub proof fn law_decode_keeps_value_only_on_mismatch(v: &Value)
    ensures
        !decode_consumes(v) ==> decode(v) == Err::<Decoded, Error>(Error::TypeMismatch),
{
}

/// An object with one tag reads, by a self-describing read, as its payload:
/// `{"b": x}` for a boolean `x`, `{"n": x}` for a number, `{"s": x}` for a
/// string, `{"a": x}` for an array; `{"o": x}` for an array `x` reads as a map
/// given by the pairs in `x`.
pub proof fn law_single_tag_decodes_as_payload(v: &Value)
    ensures
        v matches Value::Object(m) ==> (m@.len() == 1 ==> {
            let key = m@[0].0@;
            let x = &m@[0].1;
            &&& key == "b"@ && *x is Bool ==> decode(v) == decode(x)
            &&& key == "n"@ && *x is Number ==> decode(v) == decode(x)
            &&& key == "s"@ && *x is String ==> decode(v) == decode(x)
            &&& key == "a"@ && *x is Array ==> decode(v) == decode(x)
            &&& x matches Value::Array(a) ==> (key == "o"@ ==> decode(v) == Ok::<Decoded, Error>(
                Decoded::Object(MapSource::Pairs(a)),
            ))
        }),
{
    crate::value::lemma_tags_differ();
    reveal_with_fuel(crate::value::find_from, 2);
}

/// Successive calls of a cursor over `len` parts, from the start: the
/// `(k+1)`-th call finds the cursor at part `k` while `k < len` and leaves it
/// at `k + 1`, so that each part is reached once and in order; every call after
/// the last part finds the cursor at the end.
pub proof fn law_cursor_reaches_parts_in_order(len: nat, k: nat)
    ensures
        k <= len ==> position_after(len, k) == k,
        k >= len ==> position_after(len, k) == len,
        k < len ==> advance(position_after(len, k), len) == k + 1,
    decreases k,
{
    if k > 0 {
        law_cursor_reaches_parts_in_order(len, (k - 1) as nat);
    }
}

/// An array cursor, from the start: its `(k+1)`-th call finds the cursor at
/// element `k` while `k` is below the length, so (by `Array::next_element`) it
/// puts element `k` on the stack and returns `true`; every later call finds the
/// cursor at the end and returns `false` with the stack unchanged.
pub proof fn law_array_hands_out_elements_in_order(items: &Vec<Value>, k: nat)
    ensures
        k < items@.len() ==> position_after(items@.len(), k) == k,
        k >= items@.len() ==> position_after(items@.len(), k) >= items@.len(),
{
    law_cursor_reaches_parts_in_order(items@.len(), k);
}

/// A cursor over `{"k": .., "v": ..}` pairs, from the start, with a value
/// call after each key call (a value call does not move it): the `(k+1)`-th key
/// call finds the cursor at pair `k` while `k` is below the number of pairs,
/// so (by `ObjectArr::next_key`) it enters pair `k` and puts its `"k"` entry on
/// the stack, and the value call after it finds pair `k` entered last and puts
/// its `"v"` entry on the stack; every later key call returns `Ok(false)`.
pub proof fn law_pairs_hand_out_entries_in_order(pairs: &Vec<Value>, k: nat)
    ensures
        k < pairs@.len() ==> {
            &&& position_after(pairs@.len(), k) == k
            &&& advance(position_after(pairs@.len(), k), pairs@.len()) - 1 == k
        },
        k >= pairs@.len() ==> position_after(pairs@.len(), k) >= pairs@.len(),
{
    law_cursor_reaches_parts_in_order(pairs@.len(), k);
}

/// Data written in the tagged encoding reads back as itself, at every depth:
/// a reader that drives self-describing reads all the way down finds the data
/// that the value encodes.
pub proof fn law_encoding_reads_back(v: &Value, t: Tree)
    requires
        encodes(v, t),
    ensures
        reads_as(v, t),
    decreases t,
{
    crate::value::lemma_tags_differ();
    lemma_special_words_differ();
    reveal_with_fuel(crate::value::find_from, 2);
    law_single_tag_decodes_as_payload(v);
    law_absent_reads_as_unit(v);
    if let Value::Object(m) = v {
        let x = &m@[0].1;
        law_plain_values_decode_as_themselves(x);
        match t {
            Tree::Array(ts) => {
                if let Value::Array(xs) = x {
                    assert forall|i: int| 0 <= i < ts.len() implies reads_as(&xs@[i], ts[i]) by {
                        law_encoding_reads_back(&xs@[i], ts[i]);
                    }
                }
            },
            Tree::Object(es) => {
                if let Value::Array(ps) = x {
                    assert forall|i: int| #![trigger ps@[i]] 0 <= i < es.len() implies {
                        &&& tagged(&ps@[i], "k"@) matches Some(k) && read_str(k) matches Ok(s)
                            && s@ == es[i].0
                        &&& tagged(&ps@[i], "v"@) matches Some(y) && reads_as(y, es[i].1)
                    } by {
                        let y = tagged(&ps@[i], "v"@).unwrap();
                        law_encoding_reads_back(y, es[i].1);
                    }
                }
            },
            _ => {},
        }
    }
}

/// Plain JSON with no object in it reads as itself, at every depth.
pub proof fn law_plain_json_reads_back(v: &Value, t: Tree)
    requires
        plain(v, t),
    ensures
        reads_as(v, t),
    decreases t,
{
    law_plain_values_decode_as_themselves(v);
    if let Tree::Array(ts) = t {
        if let Value::Array(xs) = v {
            assert forall|i: int| 0 <= i < ts.len() implies reads_as(&xs@[i], ts[i]) by {
                law_plain_json_reads_back(&xs@[i], ts[i]);
            }
        }
    }
}

} // verus!

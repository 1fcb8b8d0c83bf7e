//! The value encoding as a whole: which values write which data, and what a
//! reader that drives self-describing reads all the way down finds in them.

use crate::error::Error;
use crate::rules::{
    decode, decode_consumes, decode_unimplemented, read_str, Decoded, FloatSource, MapSource,
};
use crate::value::{tagged, Number, Value};
use vstd::prelude::*;

verus! {

/// A piece of data as the encoding carries it. An object is the sequence of
/// its entries, in order.
pub enum Tree {
    Null,
    Bool(bool),
    Number(Number),
    String(Seq<char>),
    Array(Seq<Tree>),
    Object(Seq<(Seq<char>, Tree)>),
}

/// The value of the one entry of `v`, where `v` is an object with exactly one
/// entry, under `key`.
pub open spec fn sole_entry<'a>(v: &'a Value, key: Seq<char>) -> Option<&'a Value> {
    match v {
        Value::Object(m) => if m@.len() == 1 && m@[0].0@ == key {
            Some(&m@[0].1)
        } else {
            None
        },
        _ => None,
    }
}

/// `v` writes `t` in the tagged encoding: null as `{"v": "null"}`, a boolean
/// as `{"b": b}`, a number as `{"n": n}`, a string as `{"s": s}`, an array as
/// `{"a": [..]}` of the encoded elements, an object as `{"o": [..]}` of one
/// `{"k": key, "v": value}` pair per entry, with the value encoded.
pub open spec fn encodes(v: &Value, t: Tree) -> bool
    decreases t,
{
    match t {
        Tree::Null => sole_entry(v, "v"@) matches Some(Value::String(s)) && s@ == "null"@,
        Tree::Bool(b) => sole_entry(v, "b"@) matches Some(Value::Bool(c)) && *c == b,
        Tree::Number(n) => sole_entry(v, "n"@) matches Some(Value::Number(x)) && *x == n,
        Tree::String(s) => sole_entry(v, "s"@) matches Some(Value::String(x)) && x@ == s,
        Tree::Array(ts) => sole_entry(v, "a"@) matches Some(Value::Array(xs)) && xs@.len()
            == ts.len() && forall|i: int| 0 <= i < ts.len() ==> encodes(&xs@[i], ts[i]),
        Tree::Object(es) => sole_entry(v, "o"@) matches Some(Value::Array(ps)) && ps@.len()
            == es.len() && forall|i: int|
            #![trigger ps@[i]]
            0 <= i < es.len() ==> {
                &&& tagged(&ps@[i], "k"@) matches Some(Value::String(k)) && k@ == es[i].0
                &&& tagged(&ps@[i], "v"@) matches Some(x) && encodes(x, es[i].1)
            },
    }
}

/// `v` writes `t` as plain JSON, with no object anywhere in it.
pub open spec fn plain(v: &Value, t: Tree) -> bool
    decreases t,
{
    match t {
        Tree::Null => *v is Null,
        Tree::Bool(b) => *v matches Value::Bool(c) && c == b,
        Tree::Number(n) => *v matches Value::Number(x) && x == n,
        Tree::String(s) => v matches Value::String(x) && x@ == s,
        Tree::Array(ts) => v matches Value::Array(xs) && xs@.len() == ts.len() && forall|i: int|
            0 <= i < ts.len() ==> plain(&xs@[i], ts[i]),
        Tree::Object(_) => false,
    }
}

/// What a self-describing read yields for a number, by its kind.
pub open spec fn number_read<'a>(n: Number) -> Decoded<'a> {
    match n {
        Number::PosInt(u) => Decoded::U64(u),
        Number::NegInt(i) => Decoded::I64(i),
        Number::Float(bits) => Decoded::F64(FloatSource::Number(Number::Float(bits))),
    }
}

/// A reader that drives self-describing reads all the way down finds `t` in
/// `v`: the read of `v` is defined (no date), takes `v` off the stack, and
/// yields `t`'s kind and content; the elements of an array read as `t`'s
/// elements; an object comes as a list of pairs, the `"k"` entry of each reads
/// by a string read as the entry's key and the `"v"` entry as its value.
pub open spec fn reads_as(v: &Value, t: Tree) -> bool
    decreases t,
{
    &&& !decode_unimplemented(v)
    &&& decode_consumes(v)
    &&& match t {
        Tree::Null => decode(v) == Ok::<Decoded, Error>(Decoded::Unit),
        Tree::Bool(b) => decode(v) == Ok::<Decoded, Error>(Decoded::Bool(b)),
        Tree::Number(n) => decode(v) == Ok::<Decoded, Error>(number_read(n)),
        Tree::String(s) => decode(v) matches Ok(Decoded::Str(x)) && x@ == s,
        Tree::Array(ts) => decode(v) matches Ok(Decoded::Array(xs)) && xs@.len() == ts.len()
            && forall|i: int| 0 <= i < ts.len() ==> reads_as(&xs@[i], ts[i]),
        Tree::Object(es) => decode(v) matches Ok(Decoded::Object(MapSource::Pairs(ps)))
            && ps@.len() == es.len() && forall|i: int|
            #![trigger ps@[i]]
            0 <= i < es.len() ==> {
                &&& tagged(&ps@[i], "k"@) matches Some(k) && read_str(k) matches Ok(s) && s@
                    == es[i].0
                &&& tagged(&ps@[i], "v"@) matches Some(x) && reads_as(x, es[i].1)
            },
    }
}

} // verus!

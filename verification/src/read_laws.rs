//! What each read returns, stated by the shape of the value it reads.

use crate::error::Error;
use crate::rules::{
    decode, decode_consumes, decode_unimplemented, is_absent, lemma_special_words_differ, read_bool, read_enum,
    read_float, read_i16, read_i32, read_i64, read_i8, read_map, read_seq, read_str, read_u16,
    read_u32, read_u64, read_u8, read_unit, Decoded, EnumSource, FloatSource, MapSource,
};
use crate::value::{
    has_key, lemma_find_bounds, lemma_tags_differ, lookup, tagged, Number,
    Value,
};
use vstd::prelude::*;

verus! {

/// `v` is a JSON integer of value `i`, as the JSON decoder makes one: a
/// non-negative integer held unsigned, a negative one held signed.
pub open spec fn integer_of(v: &Value, i: int) -> bool {
    ||| (v matches Value::Number(Number::PosInt(u)) && u == i)
    ||| (v matches Value::Number(Number::NegInt(j)) && j == i && j < 0)
}

/// `v` holds the integer `i`, plain or under the tag `"n"`.
pub open spec fn holds_integer(v: &Value, i: int) -> bool {
    ||| integer_of(v, i)
    ||| (tagged(v, "n"@) matches Some(x) && integer_of(x, i))
}

/// Each integer read of a value that holds the integer `i` gives `i` where it
/// fits the target type, and refuses it with `TypeMismatch` where it does not.
pub proof fn law_integer_reads(v: &Value, i: int)
    requires
        holds_integer(v, i),
    ensures
        read_i8(v) == if i8::MIN <= i <= i8::MAX {
            Ok::<i8, Error>(i as i8)
        } else {
            Err(Error::TypeMismatch)
        },
        read_i16(v) == if i16::MIN <= i <= i16::MAX {
            Ok::<i16, Error>(i as i16)
        } else {
            Err(Error::TypeMismatch)
        },
        read_i32(v) == if i32::MIN <= i <= i32::MAX {
            Ok::<i32, Error>(i as i32)
        } else {
            Err(Error::TypeMismatch)
        },
        read_i64(v) == if i64::MIN <= i <= i64::MAX {
            Ok::<i64, Error>(i as i64)
        } else {
            Err(Error::TypeMismatch)
        },
        read_u8(v) == if 0 <= i <= u8::MAX {
            Ok::<u8, Error>(i as u8)
        } else {
            Err(Error::TypeMismatch)
        },
        read_u16(v) == if 0 <= i <= u16::MAX {
            Ok::<u16, Error>(i as u16)
        } else {
            Err(Error::TypeMismatch)
        },
        read_u32(v) == if 0 <= i <= u32::MAX {
            Ok::<u32, Error>(i as u32)
        } else {
            Err(Error::TypeMismatch)
        },
        read_u64(v) == if 0 <= i <= u64::MAX {
            Ok::<u64, Error>(i as u64)
        } else {
            Err(Error::TypeMismatch)
        },
{
}

/// Integer reads refuse, with `TypeMismatch`, a value that is neither a number
/// nor tagged `"n"` with one.
pub proof fn law_integer_reads_refuse_non_numbers(v: &Value)
    requires
        !(*v is Number),
        !(tagged(v, "n"@) matches Some(Value::Number(_))),
    ensures
        read_i8(v) == Err::<i8, Error>(Error::TypeMismatch),
        read_i16(v) == Err::<i16, Error>(Error::TypeMismatch),
        read_i32(v) == Err::<i32, Error>(Error::TypeMismatch),
        read_i64(v) == Err::<i64, Error>(Error::TypeMismatch),
        read_u8(v) == Err::<u8, Error>(Error::TypeMismatch),
        read_u16(v) == Err::<u16, Error>(Error::TypeMismatch),
        read_u32(v) == Err::<u32, Error>(Error::TypeMismatch),
        read_u64(v) == Err::<u64, Error>(Error::TypeMismatch),
{
}

/// A float read gives every JSON number as it is, plain or under `"n"` (the
/// tag first); otherwise the special word under `"v"`; otherwise `TypeMismatch`.
pub proof fn law_float_read(v: &Value)
    ensures
        tagged(v, "n"@) matches Some(Value::Number(n)) ==> read_float(v) == Ok::<
            FloatSource,
            Error,
        >(FloatSource::Number(*n)),
        v matches Value::Number(n) ==> read_float(v) == Ok::<FloatSource, Error>(
            FloatSource::Number(*n),
        ),
        !(*v is Number) && !(tagged(v, "n"@) matches Some(Value::Number(_))) ==> read_float(v)
            == (match tagged(v, "v"@) {
            Some(Value::String(s)) => if s@ == "Infinity"@ {
                Ok::<FloatSource, Error>(FloatSource::Infinity)
            } else if s@ == "-Infinity"@ {
                Ok(FloatSource::NegInfinity)
            } else if s@ == "-0"@ {
                Ok(FloatSource::NegZero)
            } else if s@ == "NaN"@ {
                Ok(FloatSource::NaN)
            } else {
                Err(Error::TypeMismatch)
            },
            _ => Err(Error::TypeMismatch),
        }),
{
}

/// A boolean read gives the boolean under `"b"`, else a plain boolean, else
/// `TypeMismatch`.
pub proof fn law_bool_read(v: &Value)
    ensures
        tagged(v, "b"@) matches Some(Value::Bool(b)) ==> read_bool(v) == Ok::<bool, Error>(*b),
        v matches Value::Bool(b) ==> read_bool(v) == Ok::<bool, Error>(*b),
        !(*v is Bool) && !(tagged(v, "b"@) matches Some(Value::Bool(_))) ==> read_bool(v) == Err::<
            bool,
            Error,
        >(Error::TypeMismatch),
{
}

/// A string read gives the string under `"s"`, else a plain string, else
/// `TypeMismatch`.
pub proof fn law_str_read(v: &Value)
    ensures
        tagged(v, "s"@) matches Some(Value::String(s)) ==> read_str(v) == Ok::<&String, Error>(s),
        v matches Value::String(s) ==> read_str(v) == Ok::<&String, Error>(s),
        !(*v is String) && !(tagged(v, "s"@) matches Some(Value::String(_))) ==> read_str(v)
            == Err::<&String, Error>(Error::TypeMismatch),
{
}

/// A sequence read gives the array under `"a"`, else a plain array, else
/// `TypeMismatch`.
pub proof fn law_seq_read(v: &Value)
    ensures
        tagged(v, "a"@) matches Some(Value::Array(a)) ==> read_seq(v) == Ok::<&Vec<Value>, Error>(
            a,
        ),
        v matches Value::Array(a) ==> read_seq(v) == Ok::<&Vec<Value>, Error>(a),
        !(*v is Array) && !(tagged(v, "a"@) matches Some(Value::Array(_))) ==> read_seq(v)
            == Err::<&Vec<Value>, Error>(Error::TypeMismatch),
{
}

/// An absent value is JSON `null` or an object whose `"v"` entry is the string
/// `"null"` or `"undefined"`; a unit read accepts exactly these, and an
/// optional read finds exactly these absent.
pub proof fn law_unit_read(v: &Value)
    ensures
        is_absent(v) <==> (*v is Null || (tagged(v, "v"@) matches Some(Value::String(s)) && (s@
            == "null"@ || s@ == "undefined"@))),
        read_unit(v) == if is_absent(v) {
            Ok::<(), Error>(())
        } else {
            Err(Error::TypeMismatch)
        },
{
}

/// An enum read gives a string as a variant name and an object as its
/// entries, and refuses anything else with `TypeMismatch`.
pub proof fn law_enum_read(v: &Value)
    ensures
        v matches Value::String(s) ==> read_enum(v) == Ok::<EnumSource, Error>(EnumSource::Name(s)),
        v matches Value::Object(m) ==> read_enum(v) == Ok::<EnumSource, Error>(
            EnumSource::Entries(m),
        ),
        !(*v is String) && !(*v is Object) ==> read_enum(v) == Err::<EnumSource, Error>(
            Error::TypeMismatch,
        ),
{
}

/// `m` has none of the tags of the encoding.
pub open spec fn untagged(m: &Vec<(String, Value)>) -> bool {
    &&& !has_key(m, "v"@)
    &&& !has_key(m, "a"@)
    &&& !has_key(m, "d"@)
    &&& !has_key(m, "o"@)
    &&& !has_key(m, "n"@)
    &&& !has_key(m, "s"@)
    &&& !has_key(m, "b"@)
}

/// A map read gives the entries of an untagged object (the empty one too),
/// and the pairs of an object tagged `"o"` with an array, where neither `"v"`,
/// `"a"` nor `"d"` is present; it refuses every other value with
/// `TypeMismatch`.
pub proof fn law_map_read(v: &Value)
    ensures
        v matches Value::Object(m) ==> {
            &&& untagged(m) ==> read_map(v) == Ok::<MapSource, Error>(MapSource::Entries(m))
            &&& has_key(m, "v"@) || has_key(m, "a"@) || has_key(m, "d"@) ==> read_map(v) == Err::<
                MapSource,
                Error,
            >(Error::TypeMismatch)
            &&& !has_key(m, "v"@) && !has_key(m, "a"@) && !has_key(m, "d"@) && has_key(m, "o"@)
                ==> read_map(v) == match tagged(v, "o"@) {
                Some(Value::Array(ps)) => Ok::<MapSource, Error>(MapSource::Pairs(ps)),
                _ => Err(Error::TypeMismatch),
            }
            &&& !has_key(m, "v"@) && !has_key(m, "a"@) && !has_key(m, "d"@) && !has_key(m, "o"@)
                && (has_key(m, "n"@) || has_key(m, "s"@) || has_key(m, "b"@)) ==> read_map(v)
                == Err::<MapSource, Error>(Error::TypeMismatch)
        },
        !(*v is Object) ==> read_map(v) == Err::<MapSource, Error>(Error::TypeMismatch),
{
}

/// A self-describing read of an object that is no wrapper reads it by the
/// first tag present, in the order `"v"`, `"a"`, `"d"`, `"o"`, `"n"`, `"s"`,
/// `"b"`: a special word, an array, (a date, not implemented), pairs, a number
/// by its kind, a string, a boolean; an object with none of the tags (the empty
/// one too) reads as a map of its entries.
pub proof fn law_decode_object(v: &Value)
    ensures
        v matches Value::Object(m) ==> {
            &&& untagged(m) ==> decode(v) == Ok::<Decoded, Error>(
                Decoded::Object(MapSource::Entries(m)),
            ) && !decode_unimplemented(v)
            &&& !has_key(m, "v"@) && has_key(m, "a"@) ==> decode(v) == match tagged(v, "a"@) {
                Some(Value::Array(xs)) => Ok::<Decoded, Error>(Decoded::Array(xs)),
                _ => Err(Error::TypeMismatch),
            }
            &&& !has_key(m, "v"@) && !has_key(m, "a"@) && has_key(m, "d"@) ==> decode_unimplemented(v)
            &&& !has_key(m, "v"@) && !has_key(m, "a"@) && !has_key(m, "d"@) && has_key(m, "o"@)
                ==> decode(v) == match tagged(v, "o"@) {
                Some(Value::Array(ps)) => Ok::<Decoded, Error>(Decoded::Object(MapSource::Pairs(ps))),
                _ => Err(Error::TypeMismatch),
            }
            &&& !has_key(m, "v"@) && !has_key(m, "a"@) && !has_key(m, "d"@) && !has_key(m, "o"@)
                && has_key(m, "n"@) ==> decode(v) == match tagged(v, "n"@) {
                Some(Value::Number(Number::PosInt(u))) => Ok::<Decoded, Error>(Decoded::U64(*u)),
                Some(Value::Number(Number::NegInt(j))) => Ok::<Decoded, Error>(Decoded::I64(*j)),
                Some(Value::Number(Number::Float(b))) => Ok::<Decoded, Error>(
                    Decoded::F64(FloatSource::Number(Number::Float(*b))),
                ),
                _ => Err(Error::TypeMismatch),
            }
            &&& !has_key(m, "v"@) && !has_key(m, "a"@) && !has_key(m, "d"@) && !has_key(m, "o"@)
                && !has_key(m, "n"@) && has_key(m, "s"@) ==> decode(v) == match tagged(v, "s"@) {
                Some(Value::String(s)) => Ok::<Decoded, Error>(Decoded::Str(s)),
                _ => Err(Error::TypeMismatch),
            }
            &&& !has_key(m, "v"@) && !has_key(m, "a"@) && !has_key(m, "d"@) && !has_key(m, "o"@)
                && !has_key(m, "n"@) && !has_key(m, "s"@) && has_key(m, "b"@) ==> decode(v)
                == match tagged(v, "b"@) {
                Some(Value::Bool(b)) => Ok::<Decoded, Error>(Decoded::Bool(*b)),
                _ => Err(Error::TypeMismatch),
            }
        },
{
    lemma_tags_differ();
    if let Value::Object(m) = v {
        lemma_find_bounds(m@, "v"@);
    }
}

/// A self-describing read of an object whose `"v"` entry is a special word:
/// a null word reads as unit; a float word reads as that float, unless a
/// number is tagged `"n"` beside it, which is then read instead.
pub proof fn law_decode_special_word(v: &Value)
    ensures
        tagged(v, "v"@) matches Some(Value::String(s)) ==> {
            &&& (s@ == "null"@ || s@ == "undefined"@) ==> decode(v) == Ok::<Decoded, Error>(
                Decoded::Unit,
            )
            &&& (s@ == "Infinity"@ || s@ == "-Infinity"@ || s@ == "-0"@ || s@ == "NaN"@) ==> {
                &&& tagged(v, "n"@) matches Some(Value::Number(n)) ==> decode(v) == Ok::<
                    Decoded,
                    Error,
                >(Decoded::F64(FloatSource::Number(*n)))
                &&& !(tagged(v, "n"@) matches Some(Value::Number(_))) ==> decode(v) == Ok::<
                    Decoded,
                    Error,
                >(
                    Decoded::F64(
                        if s@ == "Infinity"@ {
                            FloatSource::Infinity
                        } else if s@ == "-Infinity"@ {
                            FloatSource::NegInfinity
                        } else if s@ == "-0"@ {
                            FloatSource::NegZero
                        } else {
                            FloatSource::NaN
                        },
                    ),
                )
            }
        },
{
    lemma_special_words_differ();
    if let Value::Object(m) = v {
        lemma_find_bounds(m@, "v"@);
    }
}

/// An object whose `"v"` entry `x` is not one of the special words reads, by a
/// self-describing read, as `x`, whatever else it holds; the read of it is
/// defined, and takes the value off the stack, exactly where the read of `x` is.
pub proof fn law_wrapper_reads_as_inner(v: &Value)
    ensures
        tagged(v, "v"@) matches Some(x) ==> (!(x matches Value::String(s) && (s@ == "Infinity"@
            || s@ == "-Infinity"@ || s@ == "-0"@ || s@ == "NaN"@ || s@ == "null"@ || s@
            == "undefined"@)) ==> {
            &&& decode(v) == decode(x)
            &&& decode_unimplemented(v) == decode_unimplemented(x)
            &&& decode_consumes(v) == decode_consumes(x)
        }),
{
    if let Value::Object(m) = v {
        lemma_find_bounds(m@, "v"@);
    }
}

/// A self-describing read takes a plain value off the stack. Of an object
/// that is no wrapper it takes the value off too, except where the first tag
/// present is `"n"` and its entry is no number: then the read fails with
/// `TypeMismatch` and the value stays.
pub proof fn law_decode_consumes(v: &Value)
    ensures
        !(*v is Object) ==> decode_consumes(v),
        v matches Value::Object(m) ==> (!has_key(m, "v"@) ==> {
            &&& (has_key(m, "a"@) || has_key(m, "d"@) || has_key(m, "o"@) || !has_key(m, "n"@))
                ==> decode_consumes(v)
            &&& !has_key(m, "a"@) && !has_key(m, "d"@) && !has_key(m, "o"@) ==> (tagged(
                v,
                "n"@,
            ) matches Some(x) ==> (decode_consumes(v) <==> *x is Number))
            &&& !decode_consumes(v) ==> decode(v) == Err::<Decoded, Error>(Error::TypeMismatch)
        }),
{
    if let Value::Object(m) = v {
        lemma_find_bounds(m@, "v"@);
    }
}

/// Looking a key up in an object's entries finds the value of the first entry
/// with that key, and nothing where no entry has it.
pub proof fn law_lookup_finds_first_entry(m: &Vec<(String, Value)>, key: Seq<char>, j: int)
    ensures
        0 <= j < m@.len() && m@[j].0@ == key && (forall|i: int| 0 <= i < j ==> #[trigger] m@[i].0@
            != key) ==> lookup(m, key) == Some(&m@[j].1),
        (forall|i: int| 0 <= i < m@.len() ==> #[trigger] m@[i].0@ != key) ==> lookup(m, key) is None,
{
    lemma_find_bounds(m@, key);
    if 0 <= j < m@.len() && m@[j].0@ == key && (forall|i: int| 0 <= i < j ==> #[trigger] m@[i].0@
        != key) {
        lemma_find_from_prefix(m@, key, 0, j);
    }
}

proof fn lemma_find_from_prefix(m: Seq<(String, Value)>, key: Seq<char>, i: int, j: int)
    requires
        0 <= i <= j < m.len(),
        m[j].0@ == key,
        forall|k: int| 0 <= k < j ==> #[trigger] m[k].0@ != key,
    ensures
        crate::value::find_from(m, key, i) == Some(j),
    decreases j - i,
{
    if i < j {
        lemma_find_from_prefix(m, key, i + 1, j);
    }
}

} // verus!

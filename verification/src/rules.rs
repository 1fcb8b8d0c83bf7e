//! The decoding rules: what each kind of request reads out of one value.
//!
//! A value may carry its payload directly (`true`, `"x"`, `3`, `[..]`) or
//! under a tag inside an object: `{"b": ..}` for a boolean, `{"n": ..}` for a
//! number, `{"s": ..}` for a string, `{"a": [..]}` for an array, `{"o": [..]}`
//! for an object given as a list of `{"k": .., "v": ..}` pairs, and
//! `{"v": ..}` for a special word (`"Infinity"`, `"-Infinity"`, `"-0"`,
//! `"NaN"`, `"undefined"`, `"null"`) or a wrapped value.

use crate::error::Error;
use crate::value::{
    find, has_key, lemma_find_bounds, spec_array, spec_bool, spec_i64, spec_number, spec_string,
    spec_u64, tagged, Number, Value,
};
use vstd::prelude::*;

verus! {

/// Where a floating-point number comes from: a JSON number, or one of the
/// special words that stand for what JSON cannot write.
#[derive(Clone, Copy, Debug)]
pub enum FloatSource {
    Number(Number),
    Infinity,
    NegInfinity,
    NegZero,
    NaN,
}

/// The entries of a map: a list of `{"k": .., "v": ..}` objects, or the
/// entries of a plain object.
#[derive(Debug)]
pub enum MapSource<'de> {
    Pairs(&'de Vec<Value>),
    Entries(&'de Vec<(String, Value)>),
}

/// An enum value: a bare variant name, or an object whose first entry names
/// the variant and holds its content.
#[derive(Debug)]
pub enum EnumSource<'de> {
    Name(&'de String),
    Entries(&'de Vec<(String, Value)>),
}

/// What a self-describing read finds in a value.
#[derive(Debug)]
pub enum Decoded<'de> {
    Unit,
    Bool(bool),
    U64(u64),
    I64(i64),
    F64(FloatSource),
    Str(&'de String),
    Array(&'de Vec<Value>),
    Object(MapSource<'de>),
}

/// The first of two options that is present.
pub open spec fn first_some<T>(a: Option<T>, b: Option<T>) -> Option<T> {
    if a is Some {
        a
    } else {
        b
    }
}

/// A found payload, or `TypeMismatch`.
pub open spec fn or_mismatch<T>(o: Option<T>) -> Result<T, Error> {
    match o {
        Some(x) => Ok(x),
        None => Err(Error::TypeMismatch),
    }
}

/// The string that `v` holds under the tag `"v"`.
pub open spec fn marker<'a>(v: &'a Value) -> Option<&'a String> {
    match tagged(v, "v"@) {
        Some(w) => spec_string(w),
        None => None,
    }
}

/// The floating-point value that a special word stands for.
pub open spec fn special_float(s: Seq<char>) -> Option<FloatSource> {
    if s == "Infinity"@ {
        Some(FloatSource::Infinity)
    } else if s == "-Infinity"@ {
        Some(FloatSource::NegInfinity)
    } else if s == "-0"@ {
        Some(FloatSource::NegZero)
    } else if s == "NaN"@ {
        Some(FloatSource::NaN)
    } else {
        None
    }
}

/// The special words that stand for an absent value.
pub open spec fn is_null_word(s: Seq<char>) -> bool {
    s == "undefined"@ || s == "null"@
}

/// The words that have a meaning of their own under the tag `"v"`.
pub open spec fn is_special_word(s: Seq<char>) -> bool {
    special_float(s) is Some || is_null_word(s)
}

/// The special words differ from one another: a null word stands for no
/// floating-point value, and a floating-point word is no null word.
pub proof fn lemma_special_words_differ()
    ensures
        special_float("undefined"@) is None,
        special_float("null"@) is None,
        !is_null_word("Infinity"@),
        !is_null_word("-Infinity"@),
        !is_null_word("-0"@),
        !is_null_word("NaN"@),
{
    reveal_strlit("null");
    reveal_strlit("undefined");
    reveal_strlit("Infinity");
    reveal_strlit("-Infinity");
    reveal_strlit("-0");
    reveal_strlit("NaN");
    assert("null"@.len() == 4 && "undefined"@.len() == 9 && "Infinity"@.len() == 8);
    assert("-Infinity"@.len() == 9 && "-0"@.len() == 2 && "NaN"@.len() == 3);
    assert("undefined"@[0] == 'u' && "-Infinity"@[0] == '-');
}

pub open spec fn read_bool(v: &Value) -> Result<bool, Error> {
    let tagged_form = match tagged(v, "b"@) {
        Some(w) => spec_bool(w),
        None => None,
    };
    or_mismatch(first_some(tagged_form, spec_bool(v)))
}

pub open spec fn read_u64(v: &Value) -> Result<u64, Error> {
    let tagged_form = match tagged(v, "n"@) {
        Some(w) => spec_u64(w),
        None => None,
    };
    or_mismatch(first_some(tagged_form, spec_u64(v)))
}

pub open spec fn read_i64(v: &Value) -> Result<i64, Error> {
    let tagged_form = match tagged(v, "n"@) {
        Some(w) => spec_i64(w),
        None => None,
    };
    or_mismatch(first_some(tagged_form, spec_i64(v)))
}

/// An integer read as `i64`, kept if it lies in `lo..=hi`.
pub open spec fn narrow_signed(r: Result<i64, Error>, lo: int, hi: int) -> Result<int, Error> {
    match r {
        Ok(i) => if lo <= i <= hi {
            Ok(i as int)
        } else {
            Err(Error::TypeMismatch)
        },
        Err(e) => Err(e),
    }
}

/// An integer read as `u64`, kept if it is at most `hi`.
pub open spec fn narrow_unsigned(r: Result<u64, Error>, hi: int) -> Result<int, Error> {
    match r {
        Ok(i) => if i <= hi {
            Ok(i as int)
        } else {
            Err(Error::TypeMismatch)
        },
        Err(e) => Err(e),
    }
}

pub open spec fn read_i8(v: &Value) -> Result<i8, Error> {
    match narrow_signed(read_i64(v), i8::MIN as int, i8::MAX as int) {
        Ok(i) => Ok(i as i8),
        Err(e) => Err(e),
    }
}

pub open spec fn read_i16(v: &Value) -> Result<i16, Error> {
    match narrow_signed(read_i64(v), i16::MIN as int, i16::MAX as int) {
        Ok(i) => Ok(i as i16),
        Err(e) => Err(e),
    }
}

pub open spec fn read_i32(v: &Value) -> Result<i32, Error> {
    match narrow_signed(read_i64(v), i32::MIN as int, i32::MAX as int) {
        Ok(i) => Ok(i as i32),
        Err(e) => Err(e),
    }
}

pub open spec fn read_u8(v: &Value) -> Result<u8, Error> {
    match narrow_unsigned(read_u64(v), u8::MAX as int) {
        Ok(i) => Ok(i as u8),
        Err(e) => Err(e),
    }
}

pub open spec fn read_u16(v: &Value) -> Result<u16, Error> {
    match narrow_unsigned(read_u64(v), u16::MAX as int) {
        Ok(i) => Ok(i as u16),
        Err(e) => Err(e),
    }
}

pub open spec fn read_u32(v: &Value) -> Result<u32, Error> {
    match narrow_unsigned(read_u64(v), u32::MAX as int) {
        Ok(i) => Ok(i as u32),
        Err(e) => Err(e),
    }
}

pub open spec fn read_float(v: &Value) -> Result<FloatSource, Error> {
    let tagged_number = match tagged(v, "n"@) {
        Some(w) => match spec_number(w) {
            Some(n) => Some(FloatSource::Number(n)),
            None => None,
        },
        None => None,
    };
    let plain_number = match spec_number(v) {
        Some(n) => Some(FloatSource::Number(n)),
        None => None,
    };
    let word = match marker(v) {
        Some(s) => special_float(s@),
        None => None,
    };
    or_mismatch(first_some(first_some(tagged_number, plain_number), word))
}

pub open spec fn read_str<'a>(v: &'a Value) -> Result<&'a String, Error> {
    let tagged_form = match tagged(v, "s"@) {
        Some(w) => spec_string(w),
        None => None,
    };
    or_mismatch(first_some(tagged_form, spec_string(v)))
}

/// The value stands for an absent value: JSON `null`, or a null word under `"v"`.
pub open spec fn is_absent(v: &Value) -> bool {
    ||| *v is Null
    ||| (marker(v) matches Some(s) && is_null_word(s@))
}

pub open spec fn read_unit(v: &Value) -> Result<(), Error> {
    if is_absent(v) {
        Ok(())
    } else {
        Err(Error::TypeMismatch)
    }
}

pub open spec fn read_seq<'a>(v: &'a Value) -> Result<&'a Vec<Value>, Error> {
    let tagged_form = match tagged(v, "a"@) {
        Some(w) => spec_array(w),
        None => None,
    };
    or_mismatch(first_some(tagged_form, spec_array(v)))
}

pub open spec fn read_map<'a>(v: &'a Value) -> Result<MapSource<'a>, Error> {
    match v {
        Value::Object(m) => if has_key(m, "v"@) || has_key(m, "a"@) || has_key(m, "d"@) {
            Err(Error::TypeMismatch)
        } else if has_key(m, "o"@) {
            match tagged(v, "o"@) {
                Some(w) => match spec_array(w) {
                    Some(a) => Ok(MapSource::Pairs(a)),
                    None => Err(Error::TypeMismatch),
                },
                None => Err(Error::TypeMismatch),
            }
        } else if has_key(m, "n"@) || has_key(m, "s"@) || has_key(m, "b"@) {
            Err(Error::TypeMismatch)
        } else {
            Ok(MapSource::Entries(m))
        },
        _ => Err(Error::TypeMismatch),
    }
}

pub open spec fn read_enum<'a>(v: &'a Value) -> Result<EnumSource<'a>, Error> {
    match v {
        Value::String(s) => Ok(EnumSource::Name(s)),
        Value::Object(m) => Ok(EnumSource::Entries(m)),
        _ => Err(Error::TypeMismatch),
    }
}

/// The value that `v` wraps under `"v"`: its `"v"` entry, unless that entry is
/// a special word.
pub open spec fn wrapped<'a>(v: &'a Value) -> Option<&'a Value> {
    match tagged(v, "v"@) {
        Some(w) => match spec_string(w) {
            Some(s) => if is_special_word(s@) {
                None
            } else {
                Some(w)
            },
            None => Some(w),
        },
        None => None,
    }
}

/// The value that a self-describing read decodes: `v` with every wrapping
/// `"v"` taken off.
pub open spec fn resolve<'a>(v: &'a Value) -> &'a Value
    decreases v,
{
    match v {
        Value::Object(m) => match find(m@, "v"@) {
            Some(j) => {
                proof {
                    lemma_find_bounds(m@, "v"@);
                }
                if wrapped(v) is Some {
                    resolve(&m@[j].1)
                } else {
                    v
                }
            },
            None => v,
        },
        _ => v,
    }
}

pub open spec fn lift<'a, T>(r: Result<T, Error>, f: spec_fn(T) -> Decoded<'a>) -> Result<
    Decoded<'a>,
    Error,
> {
    match r {
        Ok(x) => Ok(f(x)),
        Err(e) => Err(e),
    }
}

/// A number read by its own kind.
pub open spec fn decode_number<'a>(n: Number, v: &'a Value) -> Result<Decoded<'a>, Error> {
    if n.spec_is_u64() {
        lift(read_u64(v), |x: u64| Decoded::U64(x))
    } else if n.spec_is_i64() {
        lift(read_i64(v), |x: i64| Decoded::I64(x))
    } else {
        lift(read_float(v), |x: FloatSource| Decoded::F64(x))
    }
}

/// A self-describing read of a value that wraps nothing.
pub open spec fn decode_resolved<'a>(w: &'a Value) -> Result<Decoded<'a>, Error> {
    match w {
        Value::Null => lift(read_unit(w), |x: ()| Decoded::Unit),
        Value::Bool(_) => lift(read_bool(w), |x: bool| Decoded::Bool(x)),
        Value::Number(n) => decode_number(*n, w),
        Value::String(_) => lift(read_str(w), |x: &'a String| Decoded::Str(x)),
        Value::Array(_) => lift(read_seq(w), |x: &'a Vec<Value>| Decoded::Array(x)),
        Value::Object(m) => if has_key(m, "v"@) {
            if marker(w) matches Some(s) && special_float(s@) is Some {
                lift(read_float(w), |x: FloatSource| Decoded::F64(x))
            } else {
                lift(read_unit(w), |x: ()| Decoded::Unit)
            }
        } else if has_key(m, "a"@) {
            lift(read_seq(w), |x: &'a Vec<Value>| Decoded::Array(x))
        } else if has_key(m, "d"@) {
            // never produced: a read of such a value requires `!decode_unimplemented`
            Err(Error::TypeMismatch)
        } else if has_key(m, "o"@) {
            lift(read_map(w), |x: MapSource<'a>| Decoded::Object(x))
        } else if has_key(m, "n"@) {
            match tagged(w, "n"@) {
                Some(Value::Number(n)) => decode_number(*n, w),
                _ => Err(Error::TypeMismatch),
            }
        } else if has_key(m, "s"@) {
            lift(read_str(w), |x: &'a String| Decoded::Str(x))
        } else if has_key(m, "b"@) {
            lift(read_bool(w), |x: bool| Decoded::Bool(x))
        } else {
            lift(read_map(w), |x: MapSource<'a>| Decoded::Object(x))
        },
    }
}

/// What a self-describing read finds in `v`.
pub open spec fn decode(v: &Value) -> Result<Decoded, Error> {
    decode_resolved(resolve(v))
}

/// A self-describing read of `v` stops the program: after unwrapping, it is an
/// object tagged `"d"` (a date), which is not implemented.
pub open spec fn decode_unimplemented(v: &Value) -> bool {
    match resolve(v) {
        Value::Object(m) => !has_key(m, "v"@) && !has_key(m, "a"@) && has_key(m, "d"@),
        _ => false,
    }
}

/// A self-describing read of `v` takes the value off the stack. It does so
/// unless, after unwrapping, `v` is tagged `"n"` with something not a number
/// and has none of the tags `"v"`, `"a"`, `"d"`, `"o"` that come first; then
/// the unwrapped value is left in place.
pub open spec fn decode_consumes(v: &Value) -> bool {
    let w = resolve(v);
    match w {
        Value::Object(m) => {
            ||| has_key(m, "v"@)
            ||| has_key(m, "a"@)
            ||| has_key(m, "d"@)
            ||| has_key(m, "o"@)
            ||| !has_key(m, "n"@)
            ||| tagged(w, "n"@) matches Some(Value::Number(_))
        },
        _ => true,
    }
}

} // verus!

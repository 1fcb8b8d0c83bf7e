//! The deserializer's state: a stack of values still to be read, and one
//! operation per kind of request, each of which takes the top value off the
//! stack and reads it by the rules of `rules`.

use crate::error::Error;
use crate::rules::{
    decode, decode_consumes, decode_number, decode_resolved, decode_unimplemented, is_absent,
    is_null_word, marker, read_bool, read_enum, read_float, read_i16, read_i32, read_i64, read_i8,
    read_map, read_seq, read_str, read_u16, read_u32, read_u64, read_u8, read_unit, resolve,
    special_float, Decoded, EnumSource, FloatSource, MapSource,
};
use crate::value::{contains_key, get, str_eq, Number, Value};
use vstd::prelude::*;

verus! {

fn special_float_word(s: &String) -> (r: Option<FloatSource>)
    ensures
        r == special_float(s@),
{
    let t = s.as_str();
    if str_eq(t, "Infinity") {
        Some(FloatSource::Infinity)
    } else if str_eq(t, "-Infinity") {
        Some(FloatSource::NegInfinity)
    } else if str_eq(t, "-0") {
        Some(FloatSource::NegZero)
    } else if str_eq(t, "NaN") {
        Some(FloatSource::NaN)
    } else {
        None
    }
}

fn null_word(s: &String) -> (r: bool)
    ensures
        r == is_null_word(s@),
{
    let t = s.as_str();
    str_eq(t, "undefined") || str_eq(t, "null")
}

fn marker_of(v: &Value) -> (r: Option<&String>)
    ensures
        r == marker(v),
{
    match v.tagged("v") {
        Some(w) => w.as_str(),
        None => None,
    }
}

fn bool_of(v: &Value) -> (r: Result<bool, Error>)
    ensures
        r == read_bool(v),
{
    let tagged_form = match v.tagged("b") {
        Some(w) => w.as_bool(),
        None => None,
    };
    match tagged_form {
        Some(b) => Ok(b),
        None => match v.as_bool() {
            Some(b) => Ok(b),
            None => Err(Error::TypeMismatch),
        },
    }
}

fn u64_of(v: &Value) -> (r: Result<u64, Error>)
    ensures
        r == read_u64(v),
{
    let tagged_form = match v.tagged("n") {
        Some(w) => w.as_u64(),
        None => None,
    };
    match tagged_form {
        Some(i) => Ok(i),
        None => match v.as_u64() {
            Some(i) => Ok(i),
            None => Err(Error::TypeMismatch),
        },
    }
}

fn i64_of(v: &Value) -> (r: Result<i64, Error>)
    ensures
        r == read_i64(v),
{
    let tagged_form = match v.tagged("n") {
        Some(w) => w.as_i64(),
        None => None,
    };
    match tagged_form {
        Some(i) => Ok(i),
        None => match v.as_i64() {
            Some(i) => Ok(i),
            None => Err(Error::TypeMismatch),
        },
    }
}

fn number_of(v: &Value) -> (r: Option<FloatSource>)
    ensures
        r == (match v {
            Value::Number(n) => Some(FloatSource::Number(*n)),
            _ => None,
        }),
{
    match v {
        Value::Number(n) => Some(FloatSource::Number(*n)),
        _ => None,
    }
}

fn float_of(v: &Value) -> (r: Result<FloatSource, Error>)
    ensures
        r == read_float(v),
{
    let tagged_number = match v.tagged("n") {
        Some(w) => number_of(w),
        None => None,
    };
    if let Some(f) = tagged_number {
        return Ok(f);
    }
    if let Some(f) = number_of(v) {
        return Ok(f);
    }
    let word = match marker_of(v) {
        Some(s) => special_float_word(s),
        None => None,
    };
    match word {
        Some(f) => Ok(f),
        None => Err(Error::TypeMismatch),
    }
}

fn str_of<'a>(v: &'a Value) -> (r: Result<&'a String, Error>)
    ensures
        r == read_str(v),
{
    let tagged_form = match v.tagged("s") {
        Some(w) => w.as_str(),
        None => None,
    };
    match tagged_form {
        Some(s) => Ok(s),
        None => match v.as_str() {
            Some(s) => Ok(s),
            None => Err(Error::TypeMismatch),
        },
    }
}

fn absent(v: &Value) -> (r: bool)
    ensures
        r == is_absent(v),
{
    let by_word = match marker_of(v) {
        Some(s) => null_word(s),
        None => false,
    };
    by_word || v.is_null()
}

fn seq_of<'a>(v: &'a Value) -> (r: Result<&'a Vec<Value>, Error>)
    ensures
        r == read_seq(v),
{
    let tagged_form = match v.tagged("a") {
        Some(w) => w.as_array(),
        None => None,
    };
    match tagged_form {
        Some(a) => Ok(a),
        None => match v.as_array() {
            Some(a) => Ok(a),
            None => Err(Error::TypeMismatch),
        },
    }
}

fn map_of<'a>(v: &'a Value) -> (r: Result<MapSource<'a>, Error>)
    ensures
        r == read_map(v),
{
    let m = match v.as_object() {
        Some(m) => m,
        None => return Err(Error::TypeMismatch),
    };
    let pairs = match get(m, "o") {
        Some(w) => w.as_array(),
        None => None,
    };
    if contains_key(m, "v") || contains_key(m, "a") || contains_key(m, "d") {
        Err(Error::TypeMismatch)
    } else if contains_key(m, "o") {
        match pairs {
            Some(a) => Ok(MapSource::Pairs(a)),
            None => Err(Error::TypeMismatch),
        }
    } else if contains_key(m, "n") || contains_key(m, "s") || contains_key(m, "b") {
        Err(Error::TypeMismatch)
    } else {
        Ok(MapSource::Entries(m))
    }
}

fn enum_of<'a>(v: &'a Value) -> (r: Result<EnumSource<'a>, Error>)
    ensures
        r == read_enum(v),
{
    match v {
        Value::String(s) => Ok(EnumSource::Name(s)),
        Value::Object(m) => Ok(EnumSource::Entries(m)),
        _ => Err(Error::TypeMismatch),
    }
}

fn resolve_of<'a>(v: &'a Value) -> (r: &'a Value)
    ensures
        r == resolve(v),
    decreases v,
{
    match v {
        Value::Object(m) => {
            proof {
                crate::value::lemma_find_bounds(m@, "v"@);
            }
            match get(m, "v") {
                Some(w) => {
                    let unwrap = match w.as_str() {
                        Some(s) => !(special_float_word(s).is_some() || null_word(s)),
                        None => true,
                    };
                    if unwrap {
                        resolve_of(w)
                    } else {
                        v
                    }
                },
                None => v,
            }
        },
        _ => v,
    }
}

/// The state of a deserialization: the value it started from, and a stack of
/// values that are still to be read. Each read takes the value on top.
pub struct Deserializer<'de> {
    #[allow(dead_code)]
    input: &'de Value,
    stack: Vec<&'de Value>,
}

impl<'de> Deserializer<'de> {
    pub closed spec fn stack(&self) -> Seq<&'de Value> {
        self.stack@
    }

    pub closed spec fn input(&self) -> &'de Value {
        self.input
    }

    /// The value on top of the stack.
    pub open spec fn top(&self) -> &'de Value {
        self.stack().last()
    }

    /// `after` is this state with the top value taken off.
    pub open spec fn took_top(&self, after: &Self) -> bool {
        &&& self.stack().len() > 0
        &&& after.stack() == self.stack().drop_last()
        &&& after.input() == self.input()
    }

    /// `after` is this state, unchanged.
    pub open spec fn same(&self, after: &Self) -> bool {
        &&& after.stack() == self.stack()
        &&& after.input() == self.input()
    }

    /// A deserializer whose stack holds `v` alone.
    pub fn new(v: &'de Value) -> (r: Self)
        ensures
            r.input() == v,
            r.stack() == seq![v],
    {
        let mut stack = Vec::new();
        stack.push(v);
        Deserializer { input: v, stack }
    }

    /// Takes the top value off the stack; `Blank` where none is left.
    pub fn pop(&mut self) -> (r: Result<&'de Value, Error>)
        ensures
            old(self).stack().len() == 0 ==> r == Err::<&Value, Error>(Error::Blank) && old(
                self,
            ).same(final(self)),
            old(self).stack().len() > 0 ==> r == Ok::<&Value, Error>(old(self).top()) && old(
                self,
            ).took_top(final(self)),
    {
        match self.stack.pop() {
            Some(v) => Ok(v),
            None => Err(Error::Blank),
        }
    }

    /// Puts `v` on top of the stack, to be read next.
    pub(crate) fn push(&mut self, v: &'de Value)
        ensures
            final(self).stack() == old(self).stack().push(v),
            final(self).input() == old(self).input(),
    {
        self.stack.push(v);
    }

    pub fn deserialize_bool(&mut self) -> (r: Result<bool, Error>)
        ensures
            old(self).stack().len() == 0 ==> r == Err::<bool, Error>(Error::Blank) && old(
                self,
            ).same(final(self)),
            old(self).stack().len() > 0 ==> r == read_bool(old(self).top()) && old(self).took_top(
                final(self),
            ),
    {
        match self.pop() {
            Ok(v) => bool_of(v),
            Err(e) => Err(e),
        }
    }

    pub fn deserialize_i8(&mut self) -> (r: Result<i8, Error>)
        ensures
            old(self).stack().len() == 0 ==> r == Err::<i8, Error>(Error::Blank) && old(self).same(
                final(self),
            ),
            old(self).stack().len() > 0 ==> r == read_i8(old(self).top()) && old(self).took_top(
                final(self),
            ),
    {
        let v = match self.pop() {
            Ok(v) => v,
            Err(e) => return Err(e),
        };
        match i64_of(v) {
            Ok(i) => if -128 <= i && i <= 127 {
                Ok(i as i8)
            } else {
                Err(Error::TypeMismatch)
            },
            Err(e) => Err(e),
        }
    }

    pub fn deserialize_i16(&mut self) -> (r: Result<i16, Error>)
        ensures
            old(self).stack().len() == 0 ==> r == Err::<i16, Error>(Error::Blank) && old(
                self,
            ).same(final(self)),
            old(self).stack().len() > 0 ==> r == read_i16(old(self).top()) && old(self).took_top(
                final(self),
            ),
    {
        let v = match self.pop() {
            Ok(v) => v,
            Err(e) => return Err(e),
        };
        match i64_of(v) {
            Ok(i) => if -32768 <= i && i <= 32767 {
                Ok(i as i16)
            } else {
                Err(Error::TypeMismatch)
            },
            Err(e) => Err(e),
        }
    }

    pub fn deserialize_i32(&mut self) -> (r: Result<i32, Error>)
        ensures
            old(self).stack().len() == 0 ==> r == Err::<i32, Error>(Error::Blank) && old(
                self,
            ).same(final(self)),
            old(self).stack().len() > 0 ==> r == read_i32(old(self).top()) && old(self).took_top(
                final(self),
            ),
    {
        let v = match self.pop() {
            Ok(v) => v,
            Err(e) => return Err(e),
        };
        match i64_of(v) {
            Ok(i) => if -2147483648 <= i && i <= 2147483647 {
                Ok(i as i32)
            } else {
                Err(Error::TypeMismatch)
            },
            Err(e) => Err(e),
        }
    }

    pub fn deserialize_i64(&mut self) -> (r: Result<i64, Error>)
        ensures
            old(self).stack().len() == 0 ==> r == Err::<i64, Error>(Error::Blank) && old(
                self,
            ).same(final(self)),
            old(self).stack().len() > 0 ==> r == read_i64(old(self).top()) && old(self).took_top(
                final(self),
            ),
    {
        match self.pop() {
            Ok(v) => i64_of(v),
            Err(e) => Err(e),
        }
    }

    pub fn deserialize_u8(&mut self) -> (r: Result<u8, Error>)
        ensures
            old(self).stack().len() == 0 ==> r == Err::<u8, Error>(Error::Blank) && old(self).same(
                final(self),
            ),
            old(self).stack().len() > 0 ==> r == read_u8(old(self).top()) && old(self).took_top(
                final(self),
            ),
    {
        let v = match self.pop() {
            Ok(v) => v,
            Err(e) => return Err(e),
        };
        match u64_of(v) {
            Ok(i) => if i <= 255 {
                Ok(i as u8)
            } else {
                Err(Error::TypeMismatch)
            },
            Err(e) => Err(e),
        }
    }

    pub fn deserialize_u16(&mut self) -> (r: Result<u16, Error>)
        ensures
            old(self).stack().len() == 0 ==> r == Err::<u16, Error>(Error::Blank) && old(
                self,
            ).same(final(self)),
            old(self).stack().len() > 0 ==> r == read_u16(old(self).top()) && old(self).took_top(
                final(self),
            ),
    {
        let v = match self.pop() {
            Ok(v) => v,
            Err(e) => return Err(e),
        };
        match u64_of(v) {
            Ok(i) => if i <= 65535 {
                Ok(i as u16)
            } else {
                Err(Error::TypeMismatch)
            },
            Err(e) => Err(e),
        }
    }

    pub fn deserialize_u32(&mut self) -> (r: Result<u32, Error>)
        ensures
            old(self).stack().len() == 0 ==> r == Err::<u32, Error>(Error::Blank) && old(
                self,
            ).same(final(self)),
            old(self).stack().len() > 0 ==> r == read_u32(old(self).top()) && old(self).took_top(
                final(self),
            ),
    {
        let v = match self.pop() {
            Ok(v) => v,
            Err(e) => return Err(e),
        };
        match u64_of(v) {
            Ok(i) => if i <= 4294967295 {
                Ok(i as u32)
            } else {
                Err(Error::TypeMismatch)
            },
            Err(e) => Err(e),
        }
    }

    pub fn deserialize_u64(&mut self) -> (r: Result<u64, Error>)
        ensures
            old(self).stack().len() == 0 ==> r == Err::<u64, Error>(Error::Blank) && old(
                self,
            ).same(final(self)),
            old(self).stack().len() > 0 ==> r == read_u64(old(self).top()) && old(self).took_top(
                final(self),
            ),
    {
        match self.pop() {
            Ok(v) => u64_of(v),
            Err(e) => Err(e),
        }
    }

    /// A floating-point read; the number itself is made by the caller from
    /// the source found.
    pub fn deserialize_f64(&mut self) -> (r: Result<FloatSource, Error>)
        ensures
            old(self).stack().len() == 0 ==> r == Err::<FloatSource, Error>(Error::Blank) && old(
                self,
            ).same(final(self)),
            old(self).stack().len() > 0 ==> r == read_float(old(self).top()) && old(
                self,
            ).took_top(final(self)),
    {
        match self.pop() {
            Ok(v) => float_of(v),
            Err(e) => Err(e),
        }
    }

    pub fn deserialize_str(&mut self) -> (r: Result<&'de String, Error>)
        ensures
            old(self).stack().len() == 0 ==> r == Err::<&String, Error>(Error::Blank) && old(
                self,
            ).same(final(self)),
            old(self).stack().len() > 0 ==> r == read_str(old(self).top()) && old(self).took_top(
                final(self),
            ),
    {
        match self.pop() {
            Ok(v) => str_of(v),
            Err(e) => Err(e),
        }
    }

    /// An optional read: `Ok(true)` where the top value stands for an absent
    /// value, which is taken off; `Ok(false)` where it is present, and stays
    /// on the stack for the read of its content.
    pub fn deserialize_option(&mut self) -> (r: Result<bool, Error>)
        ensures
            old(self).stack().len() == 0 ==> r == Err::<bool, Error>(Error::Blank) && old(
                self,
            ).same(final(self)),
            old(self).stack().len() > 0 ==> r == Ok::<bool, Error>(is_absent(old(self).top())),
            old(self).stack().len() > 0 && is_absent(old(self).top()) ==> old(self).took_top(
                final(self),
            ),
            old(self).stack().len() > 0 && !is_absent(old(self).top()) ==> old(self).same(
                final(self),
            ),
    {
        let v = match self.pop() {
            Ok(v) => v,
            Err(e) => return Err(e),
        };
        if absent(v) {
            Ok(true)
        } else {
            self.stack.push(v);
            proof {
                assert(self.stack@ =~= old(self).stack@);
            }
            Ok(false)
        }
    }

    pub fn deserialize_unit(&mut self) -> (r: Result<(), Error>)
        ensures
            old(self).stack().len() == 0 ==> r == Err::<(), Error>(Error::Blank) && old(self).same(
                final(self),
            ),
            old(self).stack().len() > 0 ==> r == read_unit(old(self).top()) && old(self).took_top(
                final(self),
            ),
    {
        let v = match self.pop() {
            Ok(v) => v,
            Err(e) => return Err(e),
        };
        if absent(v) {
            Ok(())
        } else {
            Err(Error::TypeMismatch)
        }
    }

    /// A sequence read: the elements, which the caller reads one by one.
    pub fn deserialize_seq(&mut self) -> (r: Result<&'de Vec<Value>, Error>)
        ensures
            old(self).stack().len() == 0 ==> r == Err::<&Vec<Value>, Error>(Error::Blank) && old(
                self,
            ).same(final(self)),
            old(self).stack().len() > 0 ==> r == read_seq(old(self).top()) && old(self).took_top(
                final(self),
            ),
    {
        match self.pop() {
            Ok(v) => seq_of(v),
            Err(e) => Err(e),
        }
    }

    /// A map read: where the entries come from, which the caller reads one by one.
    pub fn deserialize_map(&mut self) -> (r: Result<MapSource<'de>, Error>)
        ensures
            old(self).stack().len() == 0 ==> r == Err::<MapSource, Error>(Error::Blank) && old(
                self,
            ).same(final(self)),
            old(self).stack().len() > 0 ==> r == read_map(old(self).top()) && old(self).took_top(
                final(self),
            ),
    {
        match self.pop() {
            Ok(v) => map_of(v),
            Err(e) => Err(e),
        }
    }

    /// An enum read: a bare variant name, or the entries that name the variant.
    pub fn deserialize_enum(&mut self) -> (r: Result<EnumSource<'de>, Error>)
        ensures
            old(self).stack().len() == 0 ==> r == Err::<EnumSource, Error>(Error::Blank) && old(
                self,
            ).same(final(self)),
            old(self).stack().len() > 0 ==> r == read_enum(old(self).top()) && old(self).took_top(
                final(self),
            ),
    {
        match self.pop() {
            Ok(v) => enum_of(v),
            Err(e) => Err(e),
        }
    }

    fn deserialize_number(&mut self, n: &Number) -> (r: Result<Decoded<'de>, Error>)
        requires
            old(self).stack().len() > 0,
        ensures
            r == decode_number(*n, old(self).top()),
            old(self).took_top(final(self)),
    {
        if n.is_u64() {
            match self.deserialize_u64() {
                Ok(x) => Ok(Decoded::U64(x)),
                Err(e) => Err(e),
            }
        } else if n.is_i64() {
            match self.deserialize_i64() {
                Ok(x) => Ok(Decoded::I64(x)),
                Err(e) => Err(e),
            }
        } else {
            match self.deserialize_f64() {
                Ok(x) => Ok(Decoded::F64(x)),
                Err(e) => Err(e),
            }
        }
    }

    fn deserialize_resolved(&mut self, w: &'de Value) -> (r: Result<Decoded<'de>, Error>)
        requires
            old(self).stack().len() > 0,
            old(self).top() == w,
            resolve(w) == w,
            !decode_unimplemented(w),
        ensures
            r == decode_resolved(w),
            decode_consumes(w) ==> old(self).took_top(final(self)),
            !decode_consumes(w) ==> old(self).same(final(self)),
    {
        match w {
            Value::Null => match self.deserialize_unit() {
                Ok(()) => Ok(Decoded::Unit),
                Err(e) => Err(e),
            },
            Value::Bool(_) => match self.deserialize_bool() {
                Ok(b) => Ok(Decoded::Bool(b)),
                Err(e) => Err(e),
            },
            Value::Number(n) => self.deserialize_number(n),
            Value::String(_) => match self.deserialize_str() {
                Ok(s) => Ok(Decoded::Str(s)),
                Err(e) => Err(e),
            },
            Value::Array(_) => match self.deserialize_seq() {
                Ok(a) => Ok(Decoded::Array(a)),
                Err(e) => Err(e),
            },
            Value::Object(m) => {
                if contains_key(m, "v") {
                    let is_float_word = match marker_of(w) {
                        Some(s) => special_float_word(s).is_some(),
                        None => false,
                    };
                    if is_float_word {
                        match self.deserialize_f64() {
                            Ok(x) => Ok(Decoded::F64(x)),
                            Err(e) => Err(e),
                        }
                    } else {
                        match self.deserialize_unit() {
                            Ok(()) => Ok(Decoded::Unit),
                            Err(e) => Err(e),
                        }
                    }
                } else if contains_key(m, "a") {
                    match self.deserialize_seq() {
                        Ok(a) => Ok(Decoded::Array(a)),
                        Err(e) => Err(e),
                    }
                } else if contains_key(m, "d") {
                    proof {
                        assert(false);
                    }
                    Err(Error::TypeMismatch)
                } else if contains_key(m, "o") {
                    match self.deserialize_map() {
                        Ok(s) => Ok(Decoded::Object(s)),
                        Err(e) => Err(e),
                    }
                } else if let Some(n) = get(m, "n") {
                    match n {
                        Value::Number(x) => self.deserialize_number(x),
                        _ => Err(Error::TypeMismatch),
                    }
                } else if contains_key(m, "s") {
                    match self.deserialize_str() {
                        Ok(s) => Ok(Decoded::Str(s)),
                        Err(e) => Err(e),
                    }
                } else if contains_key(m, "b") {
                    match self.deserialize_bool() {
                        Ok(b) => Ok(Decoded::Bool(b)),
                        Err(e) => Err(e),
                    }
                } else {
                    match self.deserialize_map() {
                        Ok(s) => Ok(Decoded::Object(s)),
                        Err(e) => Err(e),
                    }
                }
            },
        }
    }

    /// A self-describing read of the top value would reach a date (an object
    /// tagged `"d"`), which is not implemented.
    pub fn any_is_unimplemented(&self) -> (r: bool)
        ensures
            r == (self.stack().len() > 0 && decode_unimplemented(self.top())),
    {
        let n = self.stack.len();
        if n == 0 {
            return false;
        }
        let w = resolve_of(self.stack[n - 1]);
        match w {
            Value::Object(m) => !contains_key(m, "v") && !contains_key(m, "a") && contains_key(m, "d"),
            _ => false,
        }
    }

    /// A self-describing read: the top value, with every wrapping `"v"` taken
    /// off, read by the kind of data it holds.
    pub fn deserialize_any(&mut self) -> (r: Result<Decoded<'de>, Error>)
        requires
            old(self).stack().len() > 0 ==> !decode_unimplemented(old(self).top()),
        ensures
            old(self).stack().len() == 0 ==> r == Err::<Decoded, Error>(Error::Blank) && old(
                self,
            ).same(final(self)),
            old(self).stack().len() > 0 ==> r == decode(old(self).top()),
            old(self).stack().len() > 0 ==> final(self).stack() == after_any(
                old(self).stack().drop_last(),
                old(self).top(),
            ) && final(self).input() == old(self).input(),
    {
        let n = self.stack.len();
        if n == 0 {
            return Err(Error::Blank);
        }
        let w = resolve_of(self.stack[n - 1]);
        proof {
            lemma_resolve_idempotent(self.stack@[n - 1]);
        }
        self.stack.set(n - 1, w);
        assert(self.stack@.drop_last() =~= old(self).stack@.drop_last());
        self.deserialize_resolved(w)
    }
}

/// The stack that a self-describing read of `v` leaves, where `rest` lies
/// below `v`.
pub open spec fn after_any<'a>(rest: Seq<&'a Value>, v: &'a Value) -> Seq<&'a Value> {
    if decode_consumes(v) {
        rest
    } else {
        rest.push(resolve(v))
    }
}

/// Unwrapping twice takes off no more than unwrapping once.
proof fn lemma_resolve_idempotent(v: &Value)
    ensures
        resolve(resolve(v)) == resolve(v),
        decode_unimplemented(v) == decode_unimplemented(resolve(v)),
        decode_consumes(v) == decode_consumes(resolve(v)),
    decreases v,
{
    match v {
        Value::Object(m) => match crate::value::find(m@, "v"@) {
            Some(j) => {
                crate::value::lemma_find_bounds(m@, "v"@);
                if crate::rules::wrapped(v) is Some {
                    lemma_resolve_idempotent(&m@[j].1);
                }
            },
            None => {},
        },
        _ => {},
    }
}

} // verus!

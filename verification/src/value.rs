//! A JSON value as the deserializer reads it: the tree that a JSON text parses
//! into, with the accessors that the decoding rules are written in.

use vstd::prelude::*;

verus! {

/// A JSON number, kept in the form it was parsed into: `PosInt` for an
/// integer parsed as unsigned, `NegInt` for an integer parsed as signed (the
/// JSON decoder uses it for negative integers only), and `Float` for the
/// IEEE-754 bit pattern of a floating-point number. The reads below go by the
/// variant alone.
#[derive(Clone, Copy, Debug)]
pub enum Number {
    PosInt(u64),
    NegInt(i64),
    Float(u64),
}

/// A JSON value. An object keeps its entries in the order in which its map
/// yields them; a key is looked up by its first entry.
#[derive(Debug)]
pub enum Value {
    Null,
    Bool(bool),
    Number(Number),
    String(String),
    Array(Vec<Value>),
    Object(Vec<(String, Value)>),
}

impl Number {
    /// The number is held as an unsigned integer.
    pub open spec fn spec_is_u64(self) -> bool {
        self is PosInt
    }

    /// The number is held as an integer that fits `i64`.
    pub open spec fn spec_is_i64(self) -> bool {
        match self {
            Number::PosInt(n) => n <= i64::MAX,
            Number::NegInt(_) => true,
            Number::Float(_) => false,
        }
    }

    /// The number is held as a floating-point number.
    pub open spec fn spec_is_f64(self) -> bool {
        self is Float
    }

    pub open spec fn spec_as_u64(self) -> Option<u64> {
        match self {
            Number::PosInt(n) => Some(n),
            _ => None,
        }
    }

    pub open spec fn spec_as_i64(self) -> Option<i64> {
        match self {
            Number::PosInt(n) => if n <= i64::MAX {
                Some(n as i64)
            } else {
                None
            },
            Number::NegInt(n) => Some(n),
            Number::Float(_) => None,
        }
    }

    pub fn is_u64(&self) -> (r: bool)
        ensures
            r == self.spec_is_u64(),
    {
        match self {
            Number::PosInt(_) => true,
            _ => false,
        }
    }

    pub fn is_i64(&self) -> (r: bool)
        ensures
            r == self.spec_is_i64(),
    {
        match self {
            Number::PosInt(n) => *n <= 0x7fff_ffff_ffff_ffffu64,
            Number::NegInt(_) => true,
            Number::Float(_) => false,
        }
    }

    pub fn is_f64(&self) -> (r: bool)
        ensures
            r == self.spec_is_f64(),
    {
        match self {
            Number::Float(_) => true,
            _ => false,
        }
    }

    pub fn as_u64(&self) -> (r: Option<u64>)
        ensures
            r == self.spec_as_u64(),
    {
        match self {
            Number::PosInt(n) => Some(*n),
            _ => None,
        }
    }

    pub fn as_i64(&self) -> (r: Option<i64>)
        ensures
            r == self.spec_as_i64(),
    {
        match self {
            Number::PosInt(n) => if *n <= 0x7fff_ffff_ffff_ffffu64 {
                Some(*n as i64)
            } else {
                None
            },
            Number::NegInt(n) => Some(*n),
            Number::Float(_) => None,
        }
    }
}

/// The index of the first entry at or after `i` whose key is `key`.
pub open spec fn find_from(m: Seq<(String, Value)>, key: Seq<char>, i: int) -> Option<int>
    decreases m.len() - i,
{
    if i < 0 || i >= m.len() {
        None
    } else if m[i].0@ == key {
        Some(i)
    } else {
        find_from(m, key, i + 1)
    }
}

/// The index of the first entry of `m` whose key is `key`.
pub open spec fn find(m: Seq<(String, Value)>, key: Seq<char>) -> Option<int> {
    find_from(m, key, 0)
}

/// The value of the first entry of `m` whose key is `key`.
pub open spec fn lookup<'a>(m: &'a Vec<(String, Value)>, key: Seq<char>) -> Option<&'a Value> {
    match find(m@, key) {
        Some(j) => Some(&m@[j].1),
        None => None,
    }
}

/// `m` has an entry whose key is `key`.
pub open spec fn has_key(m: &Vec<(String, Value)>, key: Seq<char>) -> bool {
    find(m@, key) is Some
}

pub proof fn lemma_find_from_bounds(m: Seq<(String, Value)>, key: Seq<char>, i: int)
    ensures
        find_from(m, key, i) matches Some(j) ==> 0 <= i <= j < m.len() && m[j].0@ == key,
        find_from(m, key, i) is None ==> forall|j: int|
            0 <= i <= j < m.len() ==> #[trigger] m[j].0@ != key,
    decreases m.len() - i,
{
    if 0 <= i < m.len() && m[i].0@ != key {
        lemma_find_from_bounds(m, key, i + 1);
    }
}

pub proof fn lemma_find_bounds(m: Seq<(String, Value)>, key: Seq<char>)
    ensures
        find(m, key) matches Some(j) ==> 0 <= j < m.len() && m[j].0@ == key,
        find(m, key) is None ==> forall|j: int| 0 <= j < m.len() ==> #[trigger] m[j].0@ != key,
{
    lemma_find_from_bounds(m, key, 0);
}

/// The tags of the value encoding differ from one another.
pub proof fn lemma_tags_differ()
    ensures
        "v"@ != "a"@, "v"@ != "d"@, "v"@ != "o"@, "v"@ != "n"@, "v"@ != "s"@, "v"@ != "b"@,
        "a"@ != "d"@, "a"@ != "o"@, "a"@ != "n"@, "a"@ != "s"@, "a"@ != "b"@,
        "d"@ != "o"@, "d"@ != "n"@, "d"@ != "s"@, "d"@ != "b"@,
        "o"@ != "n"@, "o"@ != "s"@, "o"@ != "b"@,
        "n"@ != "s"@, "n"@ != "b"@,
        "s"@ != "b"@,
{
    reveal_strlit("v");
    reveal_strlit("a");
    reveal_strlit("d");
    reveal_strlit("o");
    reveal_strlit("n");
    reveal_strlit("s");
    reveal_strlit("b");
    assert("v"@[0] == 'v' && "a"@[0] == 'a' && "d"@[0] == 'd' && "o"@[0] == 'o');
    assert("n"@[0] == 'n' && "s"@[0] == 's' && "b"@[0] == 'b');
}

pub open spec fn spec_object<'a>(v: &'a Value) -> Option<&'a Vec<(String, Value)>> {
    match v {
        Value::Object(m) => Some(m),
        _ => None,
    }
}

pub open spec fn spec_array<'a>(v: &'a Value) -> Option<&'a Vec<Value>> {
    match v {
        Value::Array(a) => Some(a),
        _ => None,
    }
}

pub open spec fn spec_string<'a>(v: &'a Value) -> Option<&'a String> {
    match v {
        Value::String(s) => Some(s),
        _ => None,
    }
}

pub open spec fn spec_bool(v: &Value) -> Option<bool> {
    match v {
        Value::Bool(b) => Some(*b),
        _ => None,
    }
}

pub open spec fn spec_number(v: &Value) -> Option<Number> {
    match v {
        Value::Number(n) => Some(*n),
        _ => None,
    }
}

pub open spec fn spec_u64(v: &Value) -> Option<u64> {
    match v {
        Value::Number(n) => n.spec_as_u64(),
        _ => None,
    }
}

pub open spec fn spec_i64(v: &Value) -> Option<i64> {
    match v {
        Value::Number(n) => n.spec_as_i64(),
        _ => None,
    }
}

/// The entry of `v` under `key`, where `v` is an object that has one.
pub open spec fn tagged<'a>(v: &'a Value, key: Seq<char>) -> Option<&'a Value> {
    match v {
        Value::Object(m) => lookup(m, key),
        _ => None,
    }
}

impl Value {
    pub fn as_object(&self) -> (r: Option<&Vec<(String, Value)>>)
        ensures
            r == spec_object(self),
    {
        match self {
            Value::Object(m) => Some(m),
            _ => None,
        }
    }

    pub fn as_array(&self) -> (r: Option<&Vec<Value>>)
        ensures
            r == spec_array(self),
    {
        match self {
            Value::Array(a) => Some(a),
            _ => None,
        }
    }

    pub fn as_str(&self) -> (r: Option<&String>)
        ensures
            r == spec_string(self),
    {
        match self {
            Value::String(s) => Some(s),
            _ => None,
        }
    }

    pub fn as_bool(&self) -> (r: Option<bool>)
        ensures
            r == spec_bool(self),
    {
        match self {
            Value::Bool(b) => Some(*b),
            _ => None,
        }
    }

    pub fn is_null(&self) -> (r: bool)
        ensures
            r == (*self is Null),
    {
        match self {
            Value::Null => true,
            _ => false,
        }
    }

    pub fn as_u64(&self) -> (r: Option<u64>)
        ensures
            r == spec_u64(self),
    {
        match self {
            Value::Number(n) => n.as_u64(),
            _ => None,
        }
    }

    pub fn as_i64(&self) -> (r: Option<i64>)
        ensures
            r == spec_i64(self),
    {
        match self {
            Value::Number(n) => n.as_i64(),
            _ => None,
        }
    }

    /// The entry of this value under `key`, where it is an object that has one.
    pub fn tagged(&self, key: &str) -> (r: Option<&Value>)
        ensures
            r == tagged(self, key@),
    {
        match self {
            Value::Object(m) => get(m, key),
            _ => None,
        }
    }
}

/// The value of the first entry of `m` whose key is `key`.
pub fn get<'a>(m: &'a Vec<(String, Value)>, key: &str) -> (r: Option<&'a Value>)
    ensures
        r == lookup(m, key@),
{
    let mut i: usize = 0;
    while i < m.len()
        invariant
            i <= m@.len(),
            find(m@, key@) == find_from(m@, key@, i as int),
        decreases m@.len() - i,
    {
        if str_eq(m[i].0.as_str(), key) {
            return Some(&m[i].1);
        }
        i = i + 1;
    }
    None
}

/// `m` has an entry whose key is `key`.
pub fn contains_key(m: &Vec<(String, Value)>, key: &str) -> (r: bool)
    ensures
        r == has_key(m, key@),
{
    get(m, key).is_some()
}

/// Whether two strings hold the same characters.
pub(crate) fn str_eq(a: &str, b: &str) -> (r: bool)
    ensures
        r == (a@ == b@),
{
    let n = a.unicode_len();
    if n != b.unicode_len() {
        return false;
    }
    let mut i: usize = 0;
    while i < n
        invariant
            n == a@.len(),
            n == b@.len(),
            i <= n,
            forall|j: int| 0 <= j < i ==> a@[j] == b@[j],
        decreases n - i,
    {
        if a.get_char(i) != b.get_char(i) {
            return false;
        }
        i = i + 1;
    }
    assert(a@ =~= b@);
    true
}

} // verus!

//! Cursors over the parts of a compound value: each hands its next part to
//! the deserializer by putting it on top of the stack.

use crate::de::Deserializer;
use crate::error::Error;
use crate::value::{find, get, lookup, tagged, Value};
use vstd::prelude::*;

verus! {

/// The position of a cursor over `len` parts after one more call: it moves on
/// by one until it reaches the end, and stays there.
pub open spec fn advance(pos: nat, len: nat) -> nat {
    if pos < len {
        (pos + 1) as nat
    } else {
        pos
    }
}

/// The position of a cursor over `len` parts after `k` calls from the start.
pub open spec fn position_after(len: nat, k: nat) -> nat
    decreases k,
{
    if k == 0 {
        0
    } else {
        advance(position_after(len, (k - 1) as nat), len)
    }
}

/// A cursor over the elements of an array.
pub struct Array<'de> {
    items: &'de Vec<Value>,
    next: usize,
}

impl<'de> Array<'de> {
    #[verifier::type_invariant]
    spec fn inv(self) -> bool {
        self.next <= self.items@.len()
    }

    pub closed spec fn items(&self) -> &'de Vec<Value> {
        self.items
    }

    /// How many elements have been handed out.
    pub closed spec fn position(&self) -> nat {
        self.next as nat
    }

    pub fn new(arr: &'de Vec<Value>) -> (r: Self)
        ensures
            r.items() == arr,
            r.position() == 0,
    {
        Array { items: arr, next: 0 }
    }

    /// Puts the next element on the deserializer's stack; `false` at the end.
    pub fn next_element(&mut self, de: &mut Deserializer<'de>) -> (r: bool)
        ensures
            final(self).items() == old(self).items(),
            final(self).position() == advance(old(self).position(), old(self).items()@.len()),
            old(self).position() < old(self).items()@.len() ==> {
                &&& r
                &&& final(self).position() == old(self).position() + 1
                &&& final(de).input() == old(de).input()
                &&& final(de).stack() == old(de).stack().push(
                    &old(self).items()@[old(self).position() as int],
                )
            },
            old(self).position() >= old(self).items()@.len() ==> {
                &&& !r
                &&& final(self).position() == old(self).position()
                &&& old(de).same(final(de))
            },
    {
        proof {
            use_type_invariant(&*self);
        }
        if self.next < self.items.len() {
            let x = &self.items[self.next];
            self.next = self.next + 1;
            de.push(x);
            true
        } else {
            false
        }
    }
}

/// A cursor over the entries of a plain object. Keys and values are taken by
/// two separate positions.
pub struct Object<'de> {
    entries: &'de Vec<(String, Value)>,
    next_key: usize,
    next_value: usize,
}

impl<'de> Object<'de> {
    #[verifier::type_invariant]
    spec fn inv(self) -> bool {
        &&& self.next_key <= self.entries@.len()
        &&& self.next_value <= self.entries@.len()
    }

    pub closed spec fn entries(&self) -> &'de Vec<(String, Value)> {
        self.entries
    }

    /// How many keys have been handed out.
    pub closed spec fn keys_taken(&self) -> nat {
        self.next_key as nat
    }

    /// How many values have been handed out.
    pub closed spec fn values_taken(&self) -> nat {
        self.next_value as nat
    }

    pub fn new(obj: &'de Vec<(String, Value)>) -> (r: Self)
        ensures
            r.entries() == obj,
            r.keys_taken() == 0,
            r.values_taken() == 0,
    {
        Object { entries: obj, next_key: 0, next_value: 0 }
    }

    /// The next key; `None` at the end.
    pub fn next_key(&mut self) -> (r: Option<&'de String>)
        ensures
            final(self).entries() == old(self).entries(),
            final(self).keys_taken() == advance(old(self).keys_taken(), old(self).entries()@.len()),
            final(self).values_taken() == old(self).values_taken(),
            old(self).keys_taken() < old(self).entries()@.len() ==> {
                &&& r == Some(&old(self).entries()@[old(self).keys_taken() as int].0)
                &&& final(self).keys_taken() == old(self).keys_taken() + 1
            },
            old(self).keys_taken() >= old(self).entries()@.len() ==> {
                &&& r is None
                &&& final(self).keys_taken() == old(self).keys_taken()
            },
    {
        proof {
            use_type_invariant(&*self);
        }
        if self.next_key < self.entries.len() {
            let k = &self.entries[self.next_key].0;
            self.next_key = self.next_key + 1;
            Some(k)
        } else {
            None
        }
    }

    /// Puts the next value on the deserializer's stack; `Blank` at the end.
    pub fn next_value(&mut self, de: &mut Deserializer<'de>) -> (r: Result<(), Error>)
        ensures
            final(self).entries() == old(self).entries(),
            final(self).values_taken() == advance(
                old(self).values_taken(),
                old(self).entries()@.len(),
            ),
            final(self).keys_taken() == old(self).keys_taken(),
            old(self).values_taken() < old(self).entries()@.len() ==> {
                &&& r is Ok
                &&& final(self).values_taken() == old(self).values_taken() + 1
                &&& final(de).input() == old(de).input()
                &&& final(de).stack() == old(de).stack().push(
                    &old(self).entries()@[old(self).values_taken() as int].1,
                )
            },
            old(self).values_taken() >= old(self).entries()@.len() ==> {
                &&& r == Err::<(), Error>(Error::Blank)
                &&& final(self).values_taken() == old(self).values_taken()
                &&& old(de).same(final(de))
            },
    {
        proof {
            use_type_invariant(&*self);
        }
        if self.next_value < self.entries.len() {
            let v = &self.entries[self.next_value].1;
            self.next_value = self.next_value + 1;
            de.push(v);
            Ok(())
        } else {
            Err(Error::Blank)
        }
    }
}

/// A cursor over an object written as a list of `{"k": key, "v": value}` pairs.
pub struct ObjectArr<'de> {
    arr: &'de Vec<Value>,
    idx: usize,
}

impl<'de> ObjectArr<'de> {
    #[verifier::type_invariant]
    spec fn inv(self) -> bool {
        self.idx <= self.arr@.len()
    }

    pub closed spec fn pairs(&self) -> &'de Vec<Value> {
        self.arr
    }

    /// How many pairs have been entered.
    pub closed spec fn position(&self) -> nat {
        self.idx as nat
    }

    pub fn new(arr: &'de Vec<Value>) -> (r: Self)
        ensures
            r.pairs() == arr,
            r.position() == 0,
    {
        ObjectArr { arr, idx: 0 }
    }

    /// How many pairs have been entered.
    pub fn entered(&self) -> (r: usize)
        ensures
            r == self.position(),
    {
        self.idx
    }

    /// Enters the next pair and puts its key on the deserializer's stack:
    /// `Ok(false)` at the end, `Blank` where the pair has no `"k"`.
    pub fn next_key(&mut self, de: &mut Deserializer<'de>) -> (r: Result<bool, Error>)
        ensures
            final(self).pairs() == old(self).pairs(),
            final(self).position() == advance(old(self).position(), old(self).pairs()@.len()),
            old(self).position() < old(self).pairs()@.len() ==> {
                let pair = &old(self).pairs()@[old(self).position() as int];
                &&& final(self).position() == old(self).position() + 1
                &&& tagged(pair, "k"@) matches Some(k) ==> r == Ok::<bool, Error>(true)
                    && final(de).input() == old(de).input() && final(de).stack() == old(
                    de,
                ).stack().push(k)
                &&& tagged(pair, "k"@) is None ==> r == Err::<bool, Error>(Error::Blank) && old(
                    de,
                ).same(final(de))
            },
            old(self).position() >= old(self).pairs()@.len() ==> {
                &&& r == Ok::<bool, Error>(false)
                &&& final(self).position() == old(self).position()
                &&& old(de).same(final(de))
            },
    {
        proof {
            use_type_invariant(&*self);
        }
        if self.idx < self.arr.len() {
            self.idx = self.idx + 1;
            match self.arr[self.idx - 1].tagged("k") {
                Some(k) => {
                    de.push(k);
                    Ok(true)
                },
                None => Err(Error::Blank),
            }
        } else {
            Ok(false)
        }
    }

    /// Puts the value of the pair entered last on the deserializer's stack;
    /// `Blank` where that pair has no `"v"`.
    pub fn next_value(&mut self, de: &mut Deserializer<'de>) -> (r: Result<(), Error>)
        requires
            old(self).position() > 0,
        ensures
            final(self).pairs() == old(self).pairs(),
            final(self).position() == old(self).position(),
            ({
                let pair = &old(self).pairs()@[old(self).position() - 1];
                &&& tagged(pair, "v"@) matches Some(v) ==> r is Ok && final(de).input() == old(
                    de,
                ).input() && final(de).stack() == old(de).stack().push(v)
                &&& tagged(pair, "v"@) is None ==> r == Err::<(), Error>(Error::Blank) && old(
                    de,
                ).same(final(de))
            }),
    {
        proof {
            use_type_invariant(&*self);
        }
        match self.arr[self.idx - 1].tagged("v") {
            Some(v) => {
                de.push(v);
                Ok(())
            },
            None => Err(Error::Blank),
        }
    }
}

/// Access to an enum written as an object: its first key names the variant,
/// and the value under that key is the variant's content.
pub struct Enum<'de> {
    map: &'de Vec<(String, Value)>,
}

impl<'de> Enum<'de> {
    pub closed spec fn entries(&self) -> &'de Vec<(String, Value)> {
        self.map
    }

    pub fn new(map: &'de Vec<(String, Value)>) -> (r: Self)
        ensures
            r.entries() == map,
    {
        Enum { map }
    }

    /// The variant's name: the first key; `Blank` where there is none.
    pub fn variant_name(&self) -> (r: Result<&'de String, Error>)
        ensures
            self.entries()@.len() > 0 ==> r == Ok::<&String, Error>(&self.entries()@[0].0),
            self.entries()@.len() == 0 ==> r == Err::<&String, Error>(Error::Blank),
    {
        if self.map.len() > 0 {
            Ok(&self.map[0].0)
        } else {
            Err(Error::Blank)
        }
    }

    /// Puts the value under the variant's name on the deserializer's stack.
    pub fn enter_variant(&self, de: &mut Deserializer<'de>)
        requires
            self.entries()@.len() > 0,
        ensures
            final(de).input() == old(de).input(),
            final(de).stack() == old(de).stack().push(
                lookup(self.entries(), self.entries()@[0].0@).unwrap(),
            ),
            lookup(self.entries(), self.entries()@[0].0@) == Some(&self.entries()@[0].1),
    {
        let name = &self.map[0].0;
        assert(find(self.map@, name@) == Some(0int));
        match get(self.map, name.as_str()) {
            Some(v) => de.push(v),
            None => {},
        }
    }
}

} // verus!

//! A JSON value model over plain values.
//!
//! Request parameters, query specifications and connection configurations
//! are JSON documents. The engine only ever reads plain data out of them,
//! so the library holds them in this enum; the boundary converts between it
//! and whatever JSON representation the transport uses. A number is kept
//! either as a lossless 64-bit integer or, when it has a fractional part,
//! as the bit pattern of the 64-bit float that carries it.

use vstd::prelude::*;

verus! {

#[derive(Debug, PartialEq)]
pub enum JsonValue {
    Null,
    Bool(bool),
    /// A JSON number losslessly representable as a 64-bit integer.
    Int(i64),
    /// Any other JSON number, as the bits of the 64-bit float that holds it.
    Float(u64),
    Str(String),
    Array(Vec<JsonValue>),
    Object(Vec<(String, JsonValue)>),
}

/// The value under the first entry with the given key, if any.
pub open spec fn obj_lookup(entries: Seq<(String, JsonValue)>, key: Seq<char>) -> Option<
    JsonValue,
>
    decreases entries.len(),
{
    if entries.len() == 0 {
        Option::None
    } else if entries[0].0@ == key {
        Option::Some(entries[0].1)
    } else {
        obj_lookup(entries.drop_first(), key)
    }
}

/// The value under a key of an object; `None` on any other value.
pub open spec fn lookup(v: JsonValue, key: Seq<char>) -> Option<JsonValue> {
    match v {
        JsonValue::Object(entries) => obj_lookup(entries@, key),
        _ => Option::None,
    }
}

/// Whether the value is an object holding the key.
pub open spec fn has_key(v: JsonValue, key: Seq<char>) -> bool {
    lookup(v, key) is Some
}

/// The string under a key, if the key is there and holds a string.
pub open spec fn lookup_str(v: JsonValue, key: Seq<char>) -> Option<Seq<char>> {
    match lookup(v, key) {
        Option::Some(JsonValue::Str(s)) => Option::Some(s@),
        _ => Option::None,
    }
}

/// The nonnegative integer under a key, if the key holds one.
pub open spec fn lookup_u64(v: JsonValue, key: Seq<char>) -> Option<u64> {
    match lookup(v, key) {
        Option::Some(JsonValue::Int(i)) => if i >= 0 {
            Option::Some(i as u64)
        } else {
            Option::None
        },
        _ => Option::None,
    }
}

impl JsonValue {
    /// Look a key up in an object, returning the first matching entry.
    pub fn get<'a>(&'a self, key: &str) -> (r: Option<&'a JsonValue>)
        ensures
            match r {
                Option::Some(p) => lookup(*self, key@) == Option::Some(*p),
                Option::None => lookup(*self, key@) is None,
            },
    {
        match self {
            JsonValue::Object(entries) => {
                let n = entries.len();
                let mut i: usize = 0;
                proof {
                    assert(entries@.skip(0) =~= entries@);
                }
                while i < n
                    invariant
                        i <= n,
                        n == entries@.len(),
                        lookup(*self, key@) == obj_lookup(entries@, key@),
                        obj_lookup(entries@, key@) == obj_lookup(
                            entries@.skip(i as int),
                            key@,
                        ),
                    decreases n - i,
                {
                    let pair = &entries[i];
                    proof {
                        assert(entries@.skip(i as int)[0] == entries@[i as int]);
                        assert(entries@.skip(i as int).drop_first() =~= entries@.skip(
                            i as int + 1,
                        ));
                    }
                    if crate::text::str_eq(pair.0.as_str(), key) {
                        proof {
                            assert(*pair == entries@[i as int]);
                            assert(obj_lookup(entries@.skip(i as int), key@)
                                == Option::Some(entries@[i as int].1));
                        }
                        return Some(&pair.1);
                    }
                    i += 1;
                }
                None
            },
            _ => None,
        }
    }

    /// The held string, if this value is a string.
    pub fn as_str<'a>(&'a self) -> (r: Option<&'a str>)
        ensures
            match r {
                Option::Some(s) => self matches JsonValue::Str(t) && t@ == s@,
                Option::None => !(self matches JsonValue::Str(_)),
            },
    {
        match self {
            JsonValue::Str(s) => Some(s.as_str()),
            _ => None,
        }
    }

    /// The string under a key of an object.
    pub fn get_str<'a>(&'a self, key: &str) -> (r: Option<&'a str>)
        ensures
            match r {
                Option::Some(s) => lookup_str(*self, key@) == Option::Some(s@),
                Option::None => lookup_str(*self, key@) is None,
            },
    {
        match self.get(key) {
            Some(v) => v.as_str(),
            None => None,
        }
    }

    /// The nonnegative integer under a key of an object.
    pub fn get_u64(&self, key: &str) -> (r: Option<u64>)
        ensures
            r == lookup_u64(*self, key@),
    {
        match self.get(key) {
            Some(v) => match v {
                JsonValue::Int(i) => {
                    let iv = *i;
                    if iv >= 0 {
                        Some(iv as u64)
                    } else {
                        None
                    }
                },
                _ => None,
            },
            None => None,
        }
    }

    /// Whether this value is a JSON object.
    pub fn is_object(&self) -> (r: bool)
        ensures
            r == (self matches JsonValue::Object(_)),
    {
        match self {
            JsonValue::Object(_) => true,
            _ => false,
        }
    }
}

} // verus!

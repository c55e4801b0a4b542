//! The type-directed parameter binder.
//!
//! For each collected placeholder name, the parameter's JSON value is turned
//! into the native bind value for the database dialect: strings bind as
//! text, integral numbers as 64-bit integers, other numbers as 64-bit
//! floats, booleans as booleans, arrays as arrays of text — silently
//! dropping every element that is not itself a string, a documented lossy
//! behavior — and nulls as typed text nulls. An object cannot be bound and
//! fails.

use vstd::prelude::*;

use crate::errors::QueryError;
use crate::json::{lookup, JsonValue};

verus! {

/// A native bind value for one placeholder.
#[derive(Debug, Clone, PartialEq)]
pub enum BindValue {
    Text(String),
    Int(i64),
    /// The bits of the 64-bit float to bind.
    Float(u64),
    Bool(bool),
    TextArray(Vec<String>),
    /// A typed null, bound as a text null.
    NullText,
}

/// The strings among the array's elements, in order; every element of
/// another type is dropped.
pub open spec fn strings_of(items: Seq<JsonValue>) -> Seq<Seq<char>>
    decreases items.len(),
{
    if items.len() == 0 {
        Seq::empty()
    } else {
        strings_of(items.drop_last()) + (match items.last() {
            JsonValue::Str(s) => seq![s@],
            _ => Seq::<Seq<char>>::empty(),
        })
    }
}

/// Whether `b` is the correct bind value for the parameter `name` of
/// `params`: the name is a key and its value binds as `bind_matches` says.
pub open spec fn bound_ok(params: JsonValue, name: Seq<char>, b: BindValue) -> bool {
    match lookup(params, name) {
        Option::Some(v) => bind_matches(v, b),
        Option::None => false,
    }
}

/// Whether the parameter can be bound at all: the name is a key and its
/// value is not a JSON object.
pub open spec fn bindable(params: JsonValue, name: Seq<char>) -> bool {
    match lookup(params, name) {
        Option::Some(v) => !(v matches JsonValue::Object(_)),
        Option::None => false,
    }
}

/// The binder's message for a parameter that cannot be bound.
pub open spec fn bind_err_msg(params: JsonValue, name: Seq<char>) -> Seq<char> {
    if lookup(params, name) is None {
        "Missing parameter: "@ + name
    } else {
        "Unsupported parameter type for: "@ + name
    }
}

/// The failure of binding a name list: an invalid-input error carrying
/// the binder's message for the first name that cannot be bound.
pub open spec fn bind_params_err(params: JsonValue, names: Seq<Seq<char>>, e: QueryError) -> bool {
    exists|i: int|
        {
            &&& 0 <= i < names.len()
            &&& !bindable(params, #[trigger] names[i])
            &&& (forall|j: int| 0 <= j < i ==> bindable(params, #[trigger] names[j]))
            &&& (e matches QueryError::InvalidInput(m) && m@ == bind_err_msg(
                params,
                names[i],
            ))
        }
}

/// How a bind value renders a JSON parameter value.
pub open spec fn bind_matches(v: JsonValue, b: BindValue) -> bool {
    match v {
        JsonValue::Str(s) => b matches BindValue::Text(t) && t@ == s@,
        JsonValue::Int(i) => b matches BindValue::Int(j) && j == i,
        JsonValue::Float(bits) => b matches BindValue::Float(x) && x == bits,
        JsonValue::Bool(x) => b matches BindValue::Bool(y) && y == x,
        JsonValue::Array(items) => b matches BindValue::TextArray(ts) && ts@.map_values(
            |s: String| s@,
        ) == strings_of(items@),
        JsonValue::Null => b matches BindValue::NullText,
        JsonValue::Object(_) => false,
    }
}

/// Turn the strings of an array into the text vector that is bound.
fn array_to_texts(items: &Vec<JsonValue>) -> (r: Vec<String>)
    ensures
        r@.map_values(|s: String| s@) == strings_of(items@),
{
    let mut out: Vec<String> = Vec::new();
    let n = items.len();
    let mut i: usize = 0;
    proof {
        assert(items@.take(0) =~= Seq::<JsonValue>::empty());
        assert(out@.map_values(|s: String| s@) =~= strings_of(items@.take(0)));
    }
    while i < n
        invariant
            i <= n,
            n == items@.len(),
            out@.map_values(|s: String| s@) == strings_of(items@.take(i as int)),
        decreases n - i,
    {
        let ghost prev = out@;
        match items[i].as_str() {
            Some(s) => {
                out.push(String::from_str(s));
            },
            None => {},
        }
        proof {
            assert(items@.take(i as int + 1).drop_last() =~= items@.take(i as int));
            assert(items@.take(i as int + 1).last() == items@[i as int]);
            assert(out@.map_values(|s: String| s@) =~= strings_of(items@.take(i as int + 1)));
        }
        i += 1;
    }
    proof {
        assert(items@.take(n as int) =~= items@);
    }
    out
}

/// Bind one named parameter.
///
/// Fails exactly when the name is not a key of the parameter object or when
/// its value is a JSON object; every other JSON value binds.
pub fn bind_value(params: &JsonValue, name: &str) -> (r: Result<BindValue, QueryError>)
    ensures
        match r {
            Ok(b) => bindable(*params, name@) && bound_ok(*params, name@, b),
            Err(e) => {
                &&& !bindable(*params, name@)
                &&& e matches QueryError::InvalidInput(m) && m@ == bind_err_msg(
                    *params,
                    name@,
                )
            },
        },
{
    let value = match params.get(name) {
        Some(v) => v,
        None => {
            let msg = String::from_str("Missing parameter: ").concat(name);
            return Err(QueryError::InvalidInput(msg));
        },
    };
    match value {
        JsonValue::Str(s) => Ok(BindValue::Text(String::from_str(s.as_str()))),
        JsonValue::Int(i) => Ok(BindValue::Int(*i)),
        JsonValue::Float(bits) => Ok(BindValue::Float(*bits)),
        JsonValue::Bool(b) => Ok(BindValue::Bool(*b)),
        JsonValue::Array(items) => Ok(BindValue::TextArray(array_to_texts(items))),
        JsonValue::Null => Ok(BindValue::NullText),
        JsonValue::Object(_) => {
            let msg = String::from_str("Unsupported parameter type for: ").concat(name);
            Err(QueryError::InvalidInput(msg))
        },
    }
}

/// Bind every name of a compiled query, in placeholder order; the same
/// source value is bound again for a repeated occurrence.
pub fn bind_params(params: &JsonValue, names: &Vec<String>) -> (r: Result<
    Vec<BindValue>,
    QueryError,
>)
    ensures
        match r {
            Ok(bs) => {
                &&& bs@.len() == names@.len()
                &&& forall|i: int|
                    0 <= i < names@.len() ==> bound_ok(*params, names@[i]@, #[trigger] bs@[i])
            },
            Err(e) => bind_params_err(*params, crate::text::str_views(names@), e),
        },
{
    let mut out: Vec<BindValue> = Vec::new();
    let n = names.len();
    let mut i: usize = 0;
    while i < n
        invariant
            i <= n,
            n == names@.len(),
            out@.len() == i,
            forall|j: int| 0 <= j < i ==> bound_ok(*params, names@[j]@, #[trigger] out@[j]),
            forall|j: int| 0 <= j < i ==> bindable(*params, #[trigger] names@[j]@),
        decreases n - i,
    {
        let name = &names[i];
        let b = match bind_value(params, name.as_str()) {
            Ok(b) => b,
            Err(e) => {
                proof {
                    let wi = i as int;
                    let views = crate::text::str_views(names@);
                    assert(views[wi] == names@[wi]@);
                    assert(!bindable(*params, views[wi]));
                    assert forall|j: int| 0 <= j < wi implies bindable(
                        *params,
                        #[trigger] views[j],
                    ) by {
                        assert(views[j] == names@[j]@);
                    }
                }
                return Err(e);
            },
        };
        let ghost prev = out@;
        let ghost bv = b;
        out.push(b);
        proof {
            assert forall|j: int|
                0 <= j < i + 1 implies bound_ok(*params, names@[j]@, #[trigger] out@[j]) by {
                if j < i {
                    assert(out@[j] == prev[j]);
                } else {
                    assert(out@[j] == bv);
                    assert(name@ == names@[j]@);
                }
            }
        }
        i += 1;
    }
    Ok(out)
}

} // verus!

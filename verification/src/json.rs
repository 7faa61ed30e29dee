//! Declarations and thin wrappers for the JSON value type that message
//! payloads are carried in. The verified code treats a JSON value as opaque;
//! the only content it ever inspects is the unsigned integer a value may
//! hold, which is what correlation ids are made of.

use vstd::prelude::*;

verus! {

#[verifier::external_type_specification]
#[verifier::external_body]
pub struct ExValue(serde_json::Value);

#[verifier::external_type_specification]
#[verifier::external_body]
#[verifier::reject_recursive_types(K)]
#[verifier::reject_recursive_types(V)]
pub struct ExJsonMap<K, V>(serde_json::Map<K, V>);

/// The unsigned integer a JSON value holds: `Some(n)` when the value is a
/// number representable as a `u64`, `None` otherwise. This names the result
/// of `serde_json::Value::as_u64`, which depends on the value alone.
pub uninterp spec fn u64_of_value(v: serde_json::Value) -> Option<u64>;

/// The signed integer a JSON value holds: `Some(n)` when the value is a
/// number representable as an `i64`, `None` otherwise. This names the
/// result of `serde_json::Value::as_i64`, which depends on the value alone.
pub uninterp spec fn i64_of_value(v: serde_json::Value) -> Option<i64>;

/// The text a JSON value holds: `Some` for a JSON string, `None` otherwise.
/// This names the result of `serde_json::Value::as_str`, which depends on
/// the value alone.
pub uninterp spec fn str_of_value(v: serde_json::Value) -> Option<Seq<char>>;

/// Whether a JSON value is null. This names the result of
/// `serde_json::Value::is_null`, which depends on the value alone.
pub uninterp spec fn is_null_value(v: serde_json::Value) -> bool;

/// The value a JSON object binds to a key: `Some` for a member of an
/// object, `None` for a missing key or for any non-object value. This names
/// the result of `serde_json::Value::get` with a string index, which
/// depends on the value and the key alone.
pub uninterp spec fn member_of(v: serde_json::Value, key: Seq<char>) -> Option<serde_json::Value>;

/// What a JSON object holds under each key: the contents of a
/// `serde_json::Map`, named so that the wrappers of the map operations the
/// library calls can speak of what they build.
pub uninterp spec fn object_member_of(
    m: serde_json::Map<String, serde_json::Value>,
    key: Seq<char>,
) -> Option<serde_json::Value>;

/// Relies on `serde_json::Value::Null`: the null value is null, holds no
/// integer, and has no members.
#[verifier::external_body]
pub(crate) fn null_value() -> (v: serde_json::Value)
    ensures
        is_null_value(v),
        u64_of_value(v) == None::<u64>,
        forall|k: Seq<char>| member_of(v, k) == None::<serde_json::Value>,
{
    serde_json::Value::Null
}

/// Relies on `serde_json::Value::from(u64)`: the resulting value is a number
/// holding exactly `n`, so `as_u64` on it returns `Some(n)`.
#[verifier::external_body]
pub(crate) fn u64_value(n: u64) -> (v: serde_json::Value)
    ensures
        u64_of_value(v) == Some(n),
{
    serde_json::Value::from(n)
}

/// Relies on `serde_json::Value::as_u64`: returns the unsigned integer the
/// value holds, if any.
#[verifier::external_body]
pub(crate) fn value_as_u64(v: &serde_json::Value) -> (r: Option<u64>)
    ensures
        r == u64_of_value(*v),
{
    v.as_u64()
}

/// Relies on `serde_json::Value::from(i64)`: the resulting value is a
/// number holding exactly `n`, so `as_i64` on it returns `Some(n)`; a
/// number is not null.
#[verifier::external_body]
pub(crate) fn i64_value(n: i64) -> (v: serde_json::Value)
    ensures
        i64_of_value(v) == Some(n),
        !is_null_value(v),
{
    serde_json::Value::from(n)
}

/// Relies on `serde_json::Value::String`: the resulting value is a JSON
/// string holding exactly `s`, so `as_str` on it returns it back; a string
/// is not null.
#[verifier::external_body]
pub(crate) fn string_value(s: String) -> (v: serde_json::Value)
    ensures
        str_of_value(v) == Some(s@),
        !is_null_value(v),
{
    serde_json::Value::String(s)
}

/// Relies on `serde_json::Map::new`: the empty JSON object, holding nothing
/// under any key.
#[verifier::external_body]
pub(crate) fn object_new() -> (m: serde_json::Map<String, serde_json::Value>)
    ensures
        forall|k: Seq<char>| object_member_of(m, k) == None::<serde_json::Value>,
{
    serde_json::Map::new()
}

/// Relies on `serde_json::Map::insert`: binds `key` to `value` in the
/// object and leaves every other key as it was.
#[verifier::external_body]
pub(crate) fn object_insert(
    object: &mut serde_json::Map<String, serde_json::Value>,
    key: String,
    value: serde_json::Value,
)
    ensures
        object_member_of(*final(object), key@) == Some(value),
        forall|k: Seq<char>|
            k != key@ ==> object_member_of(*final(object), k) == object_member_of(
                *old(object),
                k,
            ),
{
    object.insert(key, value);
}

/// Relies on `serde_json::Value::Object`: wraps an object as a JSON value;
/// `get` on the value looks keys up in exactly that object, an object holds
/// no integer, and an object is not null.
#[verifier::external_body]
pub(crate) fn object_value(
    object: serde_json::Map<String, serde_json::Value>,
) -> (v: serde_json::Value)
    ensures
        u64_of_value(v) == None::<u64>,
        !is_null_value(v),
        forall|k: Seq<char>| member_of(v, k) == object_member_of(object, k),
{
    serde_json::Value::Object(object)
}

} // verus!

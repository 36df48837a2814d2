//! The D-Bus values that carry restore data and call options.

use vstd::hash_map::StringHashMap;
use vstd::prelude::*;
use zbus::zvariant::OwnedValue;
use zbus::zvariant::Structure;
use zbus::zvariant::Value;

verus! {

#[verifier::external_type_specification]
#[verifier::external_body]
pub struct ExOwnedValue(zbus::zvariant::OwnedValue);

#[verifier::external_type_specification]
#[verifier::external_body]
pub struct ExValue<'a>(zbus::zvariant::Value<'a>);

#[verifier::external_type_specification]
#[verifier::external_body]
pub struct ExVariantError(zbus::zvariant::Error);

/// The fields of the structure that `value` is; `None` where it is no structure.
pub uninterp spec fn structure_fields(value: OwnedValue) -> Option<Seq<Value<'static>>>;

/// The string in `value`, which may be wrapped in one more variant; `None` for another type.
pub uninterp spec fn held_text(value: Value<'static>) -> Option<Seq<char>>;

/// The unsigned 32-bit number in `value`, which may be wrapped in one more variant; `None` for
/// another type.
pub uninterp spec fn held_number(value: Value<'static>) -> Option<u32>;

/// The boolean in `value`, which may be wrapped in one more variant; `None` for another type.
pub uninterp spec fn held_flag(value: Value<'static>) -> Option<bool>;

/// The D-Bus type of `value`, as a signature string.
pub uninterp spec fn type_code(value: OwnedValue) -> Seq<char>;

/// `Value::value_signature`, written out by `Signature::to_string`: the D-Bus type of a value.
#[verifier::external_body]
pub(crate) fn value_signature(value: &OwnedValue) -> (r: String)
    ensures
        r@ == type_code(*value),
{
    value.value_signature().to_string()
}

/// `Structure::try_from(OwnedValue)` and `Structure::into_fields`: the fields of a structure, in
/// their order, or an error where the value is of another type.
#[verifier::external_body]
pub(crate) fn into_fields(value: OwnedValue) -> (r: Result<Vec<Value<'static>>, zbus::zvariant::Error>)
    ensures
        match r {
            Ok(fields) => structure_fields(value) == Some(fields@),
            Err(_) => structure_fields(value) is None,
        },
{
    Structure::try_from(value).map(Structure::into_fields)
}

/// `Value::downcast::<String>`: the string in a value, or an error for another type.
#[verifier::external_body]
pub(crate) fn downcast_text(value: Value<'static>) -> (r: Result<String, zbus::zvariant::Error>)
    ensures
        match r {
            Ok(text) => held_text(value) == Some(text@),
            Err(_) => held_text(value) is None,
        },
{
    value.downcast::<String>()
}

/// `Value::downcast::<u32>`: the number in a value, or an error for another type.
#[verifier::external_body]
pub(crate) fn downcast_number(value: Value<'static>) -> (r: Result<u32, zbus::zvariant::Error>)
    ensures
        match r {
            Ok(number) => held_number(value) == Some(number),
            Err(_) => held_number(value) is None,
        },
{
    value.downcast::<u32>()
}

/// `Value::downcast_ref::<bool>`: the boolean in a value, or an error for another type.
#[verifier::external_body]
pub(crate) fn downcast_flag(value: &Value<'static>) -> (r: Result<bool, zbus::zvariant::Error>)
    ensures
        match r {
            Ok(flag) => held_flag(*value) == Some(flag),
            Err(_) => held_flag(*value) is None,
        },
{
    value.downcast_ref::<bool>()
}

/// Whether `value` is a structure of exactly the given fields, in their order.
pub open spec fn is_structure_of(
    value: OwnedValue,
    fields: (String, u32, bool, bool, u32, bool, u32),
) -> bool {
    structure_fields(value) matches Some(held) && {
        &&& held.len() == 7
        &&& held_text(held[0]) == Some(fields.0@)
        &&& held_number(held[1]) == Some(fields.1)
        &&& held_flag(held[2]) == Some(fields.2)
        &&& held_flag(held[3]) == Some(fields.3)
        &&& held_number(held[4]) == Some(fields.4)
        &&& held_flag(held[5]) == Some(fields.5)
        &&& held_number(held[6]) == Some(fields.6)
    }
}

/// `Structure::from` on a tuple and `OwnedValue::try_from(Structure)`: a structure whose fields
/// are the given values, in their order, and whose type is made up of their types. It is never
/// refused, since only file descriptors can fail to become owned.
#[verifier::external_body]
pub(crate) fn build_structure(
    fields: (String, u32, bool, bool, u32, bool, u32),
) -> (r: Result<OwnedValue, zbus::zvariant::Error>)
    ensures
        r is Ok,
        is_structure_of(r->Ok_0, fields),
        type_code(r->Ok_0) == "(subbubu)"@,
{
    OwnedValue::try_from(Structure::from(fields))
}

/// The options of a call, by name.
pub struct Options {
    entries: StringHashMap<Value<'static>>,
}

impl View for Options {
    type V = Map<Seq<char>, Value<'static>>;

    closed spec fn view(&self) -> Map<Seq<char>, Value<'static>> {
        self.entries@
    }
}

impl Options {
    /// No options.
    pub fn new() -> (r: Self)
        ensures
            r@ == Map::<Seq<char>, Value<'static>>::empty(),
    {
        Options { entries: StringHashMap::new() }
    }

    /// Adds an option; one of the same name is replaced.
    pub fn insert(&mut self, key: String, value: Value<'static>)
        ensures
            final(self)@ == old(self)@.insert(key@, value),
    {
        self.entries.insert(key, value);
    }
}

/// Whether an option is given, is a boolean, and is true.
pub fn option_bool(options: &Options, key: &str) -> (r: bool)
    ensures
        r == (options@.contains_key(key@) && held_flag(options@[key@]) == Some(true)),
{
    match options.entries.get(key) {
        Some(value) => match downcast_flag(value) {
            Ok(flag) => flag,
            Err(_) => false,
        },
        None => false,
    }
}

} // verus!

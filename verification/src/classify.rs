use vstd::prelude::*;
use crate::kind::ValueType;

verus! {

/// rlua's `Value`, the union of everything a Lua state can hand out. It is
/// declared with its alternatives as rlua defines them, so that a match on it
/// is checked against the enum itself; what the alternatives carry stays opaque.
#[verifier::external_type_specification]
pub struct ExValue<'lua>(rlua::Value<'lua>);

/// rlua's `LightUserData`, a bare pointer. Opaque: it is only carried.
#[verifier::external_type_specification]
#[verifier::external_body]
pub struct ExLightUserData(rlua::LightUserData);

/// rlua's `String`, a handle to a string that Lua owns. Opaque: it is only carried.
#[verifier::external_type_specification]
#[verifier::external_body]
pub struct ExString<'lua>(rlua::String<'lua>);

/// rlua's `Table`, a handle to a table. Opaque: it is only carried.
#[verifier::external_type_specification]
#[verifier::external_body]
pub struct ExTable<'lua>(rlua::Table<'lua>);

/// rlua's `Function`, a handle to a function or closure. Opaque: it is only carried.
#[verifier::external_type_specification]
#[verifier::external_body]
pub struct ExFunction<'lua>(rlua::Function<'lua>);

/// rlua's `Thread`, a handle to a coroutine. Opaque: it is only carried.
#[verifier::external_type_specification]
#[verifier::external_body]
pub struct ExThread<'lua>(rlua::Thread<'lua>);

/// rlua's `AnyUserData`, a handle to a userdata object. Opaque: it is only carried.
#[verifier::external_type_specification]
#[verifier::external_body]
pub struct ExAnyUserData<'lua>(rlua::AnyUserData<'lua>);

/// rlua's `Error`. Opaque: it is only carried.
#[verifier::external_type_specification]
#[verifier::external_body]
pub struct ExError(rlua::Error);

/// The kind that a value has, by the alternative it holds.
pub open spec fn kind_of(value: rlua::Value<'_>) -> ValueType {
    match value {
        rlua::Value::Nil => ValueType::Nil,
        rlua::Value::Boolean(_) => ValueType::Boolean,
        rlua::Value::LightUserData(_) => ValueType::LightUserData,
        rlua::Value::Integer(_) => ValueType::Integer,
        rlua::Value::Number(_) => ValueType::Number,
        rlua::Value::String(_) => ValueType::String,
        rlua::Value::Table(_) => ValueType::Table,
        rlua::Value::Function(_) => ValueType::Function,
        rlua::Value::Thread(_) => ValueType::Thread,
        rlua::Value::UserData(_) => ValueType::UserData,
        rlua::Value::Error(_) => ValueType::Error,
    }
}

/// Tells which kind of value `value` is.
pub fn value_type(value: &rlua::Value<'_>) -> (kind: ValueType)
    ensures
        kind == kind_of(*value),
{
    match value {
        rlua::Value::Nil => ValueType::Nil,
        rlua::Value::Boolean(_) => ValueType::Boolean,
        rlua::Value::LightUserData(_) => ValueType::LightUserData,
        rlua::Value::Integer(_) => ValueType::Integer,
        rlua::Value::Number(_) => ValueType::Number,
        rlua::Value::String(_) => ValueType::String,
        rlua::Value::Table(_) => ValueType::Table,
        rlua::Value::Function(_) => ValueType::Function,
        rlua::Value::Thread(_) => ValueType::Thread,
        rlua::Value::UserData(_) => ValueType::UserData,
        rlua::Value::Error(_) => ValueType::Error,
    }
}

/// Whether two values hold the same alternative, whatever each carries in it.
pub open spec fn same_alternative(a: rlua::Value<'_>, b: rlua::Value<'_>) -> bool {
    ||| a is Nil && b is Nil
    ||| a is Boolean && b is Boolean
    ||| a is LightUserData && b is LightUserData
    ||| a is Integer && b is Integer
    ||| a is Number && b is Number
    ||| a is String && b is String
    ||| a is Table && b is Table
    ||| a is Function && b is Function
    ||| a is Thread && b is Thread
    ||| a is UserData && b is UserData
    ||| a is Error && b is Error
}

/// A value's kind is fixed by the alternative it holds: two values of one
/// alternative have one kind, whatever they carry and however often one asks.
pub proof fn same_alternative_same_kind(a: rlua::Value<'_>, b: rlua::Value<'_>)
    requires
        same_alternative(a, b),
    ensures
        kind_of(a) == kind_of(b),
{
}

/// No kind stands for two alternatives: values of different alternatives have
/// different kinds.
pub proof fn different_alternative_different_kind(a: rlua::Value<'_>, b: rlua::Value<'_>)
    requires
        !same_alternative(a, b),
    ensures
        kind_of(a) != kind_of(b),
{
}

/// Each kind names exactly the values of its own alternative.
pub proof fn kind_names_its_alternative(value: rlua::Value<'_>)
    ensures
        kind_of(value) == ValueType::Nil <==> value is Nil,
        kind_of(value) == ValueType::Boolean <==> value is Boolean,
        kind_of(value) == ValueType::LightUserData <==> value is LightUserData,
        kind_of(value) == ValueType::Integer <==> value is Integer,
        kind_of(value) == ValueType::Number <==> value is Number,
        kind_of(value) == ValueType::String <==> value is String,
        kind_of(value) == ValueType::Table <==> value is Table,
        kind_of(value) == ValueType::Function <==> value is Function,
        kind_of(value) == ValueType::Thread <==> value is Thread,
        kind_of(value) == ValueType::UserData <==> value is UserData,
        kind_of(value) == ValueType::Error <==> value is Error,
{
}

/// Every kind is the kind of some value: none of them is left unused.
pub proof fn every_kind_has_a_value(kind: ValueType)
    ensures
        exists|value: rlua::Value<'_>| kind_of(value) == kind,
{
    let witness: rlua::Value<'_> = match kind {
        ValueType::Nil => rlua::Value::Nil,
        ValueType::Boolean => rlua::Value::Boolean(arbitrary()),
        ValueType::LightUserData => rlua::Value::LightUserData(arbitrary()),
        ValueType::Integer => rlua::Value::Integer(arbitrary()),
        ValueType::Number => rlua::Value::Number(arbitrary()),
        ValueType::String => rlua::Value::String(arbitrary()),
        ValueType::Table => rlua::Value::Table(arbitrary()),
        ValueType::Function => rlua::Value::Function(arbitrary()),
        ValueType::Thread => rlua::Value::Thread(arbitrary()),
        ValueType::UserData => rlua::Value::UserData(arbitrary()),
        ValueType::Error => rlua::Value::Error(arbitrary()),
    };
    assert(kind_of(witness) == kind);
}

} // verus!

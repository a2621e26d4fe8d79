//! The calls into `mlua` and the clock. Nothing in this file is proved.
//!
//! What a table holds is known only to the interpreter, so nothing is promised
//! of a lookup or of a script's result. Three things are fixed by their
//! arguments alone and have a name: what a value is ([`seen`]), which
//! interpreter a table lives in ([`table_within`]) and what number Lua
//! converts an integer to ([`converted`]).
//!
//! A table handle is usable only while its interpreter lives. A lookup
//! therefore asks for a reference to the interpreter that the table lives in.
use vstd::prelude::*;
use mlua::Value;
use crate::decode::Dynamic;
use crate::number::Number;

verus! {

/// `mlua::Value`, a dynamically typed Lua value. Nothing inside it is visible to proofs.
#[verifier::external_type_specification]
#[verifier::external_body]
pub struct ExValue(mlua::Value);

/// `mlua::Table`, a handle to a Lua table. Nothing inside it is visible to proofs.
#[verifier::external_type_specification]
#[verifier::external_body]
pub struct ExTable(mlua::Table);

/// `mlua::Error`. Nothing inside it is visible to proofs.
#[verifier::external_type_specification]
#[verifier::external_body]
pub struct ExError(mlua::Error);

/// `mlua::Lua`, an interpreter instance. Nothing inside it is visible to proofs.
#[verifier::external_type_specification]
#[verifier::external_body]
pub struct ExLua(mlua::Lua);

/// What a value is: its kind and, for an integer, a float and a table, what
/// it holds.
pub uninterp spec fn seen(value: mlua::Value) -> Dynamic;

/// The table lives in this interpreter.
pub uninterp spec fn table_within(table: mlua::Table, lua: mlua::Lua) -> bool;

/// The bit pattern of the number that Lua converts an integer to.
pub uninterp spec fn converted(integer: i64) -> u64;

/// Tells the variants of `mlua::Value` apart, one arm for each, and moves out
/// what decoding reads: the integer, the number as its bit pattern, the table
/// handle. The result is a function of the value alone, and is what [`seen`]
/// names.
#[verifier::external_body]
pub(crate) fn inspect(value: mlua::Value) -> (r: Dynamic)
    ensures
        r == seen(value),
{
    match value {
        Value::Nil => Dynamic::Nil,
        Value::Boolean(_) => Dynamic::Boolean,
        Value::LightUserData(_) => Dynamic::LightUserData,
        Value::Integer(i) => Dynamic::Integer(i),
        Value::Number(n) => Dynamic::Number(Number { bits: n.to_bits() }),
        Value::String(_) => Dynamic::Text,
        Value::Table(t) => Dynamic::Table(t),
        Value::Function(_) => Dynamic::Function,
        Value::Thread(_) => Dynamic::Thread,
        Value::UserData(_) => Dynamic::UserData,
        Value::Error(_) => Dynamic::Error,
        Value::Other(_) => Dynamic::Other,
    }
}

/// Calls `mlua::Lua::coerce_number` on an integer value, which is Lua's own
/// conversion of an integer to a number, and hands the number on as its bit
/// pattern. The call can fail for want of stack space. Where it yields a
/// number, that number depends on the integer alone, and is what
/// [`converted`] names.
#[verifier::external_body]
pub(crate) fn integer_as_number(lua: &mlua::Lua, integer: i64) -> (r: Result<
    Option<u64>,
    mlua::Error,
>)
    ensures
        r matches Ok(Some(bits)) ==> bits == converted(integer),
{
    match lua.coerce_number(Value::Integer(integer)) {
        Ok(Some(n)) => Ok(Some(n.to_bits())),
        Ok(None) => Ok(None),
        Err(error) => Err(error),
    }
}

/// Calls `mlua::Table::get` for a value of any type under a string key. The
/// call may run an `__index` metamethod, so it can fail, and the value it
/// yields for an absent key is nil. It locks the table's interpreter, which
/// must be alive: `lua` is a reference to it. Nothing is claimed of the
/// result.
#[verifier::external_body]
pub(crate) fn lookup(table: &mlua::Table, name: &str, lua: &mlua::Lua) -> (r: Result<
    mlua::Value,
    mlua::Error,
>)
    requires
        table_within(*table, *lua),
{
    table.get::<mlua::Value>(name)
}

/// Renders an `mlua::Error` through its `Display` impl. Nothing is claimed of
/// the text.
#[verifier::external_body]
pub(crate) fn error_text(error: &mlua::Error) -> String {
    error.to_string()
}

/// `std::time::Instant`, a reading of the monotonic clock. Nothing inside it
/// is visible to proofs.
#[verifier::external_type_specification]
#[verifier::external_body]
pub struct ExInstant(std::time::Instant);

/// Calls `mlua::Lua::load` and `mlua::Chunk::eval` to run a piece of Lua source
/// and take its first return value. The call returns when the script does, so
/// not at all for a script that never ends. A table that comes back lives in
/// the interpreter that ran the script; nothing else is claimed of the result.
#[verifier::external_body]
pub(crate) fn evaluate(lua: &mlua::Lua, source: &str) -> (r: Result<mlua::Value, mlua::Error>)
    ensures
        r matches Ok(value) ==> (seen(value) matches Dynamic::Table(table) ==> table_within(
            table,
            *lua,
        )),
{
    lua.load(source).eval::<mlua::Value>()
}

/// Calls `std::time::Instant::now`. Nothing is claimed of the reading.
#[verifier::external_body]
pub(crate) fn start_clock() -> std::time::Instant {
    std::time::Instant::now()
}

/// Calls `std::time::Instant::elapsed`, the time since the reading was taken.
/// Nothing is claimed of the result.
#[verifier::external_body]
pub(crate) fn time_since(start: &std::time::Instant) -> std::time::Duration {
    start.elapsed()
}

/// Calls `std::time::Duration::as_nanos`, the duration in whole nanoseconds.
/// Nothing is claimed of the result.
#[verifier::external_body]
pub(crate) fn nanos_of(duration: &std::time::Duration) -> u128 {
    duration.as_nanos()
}

} // verus!
